//! The game-state machine: a stack of states, of which the top one is active.
use vstd::prelude::*;

verus! {

/// Marker component for entities that are removed when the state that owns them stops.
/// `id` identifies the owning state's type.
#[derive(Debug, Clone, Copy)]
pub struct Scoped {
    pub id: std::any::TypeId,
}

/// Declares `std::any::TypeId` so that `Scoped` can carry one; its contents are opaque.
#[verifier::external_type_specification]
#[verifier::external_body]
pub struct ExTypeId(std::any::TypeId);

/// Calls `==` on two `TypeId`s. A `TypeId` is the identifier of one type, and two of them
/// compare equal exactly when they identify the same type, that is when they are the same
/// value.
#[verifier::external_body]
fn same_type_id(a: &std::any::TypeId, b: &std::any::TypeId) -> (r: bool)
    ensures
        r == (*a == *b),
{
    a == b
}

/// The entities of `entities`, in order, whose scope is the state type `owner`.
pub open spec fn scoped_to<E>(entities: Seq<(E, Scoped)>, owner: std::any::TypeId) -> Seq<E>
    decreases entities.len(),
{
    if entities.len() == 0 {
        seq![]
    } else {
        let prev = scoped_to(entities.drop_last(), owner);
        if entities.last().1.id == owner {
            prev.push(entities.last().0)
        } else {
            prev
        }
    }
}

/// The entities that go when the state whose type is `owner` stops: those scoped to it, in
/// the order given.
pub fn entities_scoped_to<E: Copy>(entities: &Vec<(E, Scoped)>, owner: &std::any::TypeId) -> (r: Vec<E>)
    ensures
        r@ == scoped_to(entities@, *owner),
{
    let mut r: Vec<E> = Vec::new();
    let mut i: usize = 0;
    while i < entities.len()
        invariant
            i <= entities@.len(),
            r@ == scoped_to(entities@.take(i as int), *owner),
        decreases entities@.len() - i,
    {
        proof {
            assert(entities@.take(i + 1).drop_last() =~= entities@.take(i as int));
        }
        let (e, scope) = entities[i];
        if same_type_id(&scope.id, owner) {
            r.push(e);
        }
        i = i + 1;
    }
    proof {
        assert(entities@.take(entities@.len() as int) =~= entities@);
    }
    r
}

/// Events that the game sends to its own event loop.
#[derive(Debug, PartialEq, Eq, Clone, Copy)]
pub enum CustomEvent {
    Exit,
}

/// What the active state asks the machine to do with the stack.
pub enum Transition<S> {
    Stay,
    Pop,
    Push(S),
    Switch(S),
}

/// Errors reported by the state machine.
#[derive(Debug, PartialEq, Eq, Clone, Copy)]
pub enum StateError {
    /// `start` was called on a machine with no states.
    NoStatesPresent,
}

/// The hooks that run on a state without answering with a transition.
#[derive(Debug, PartialEq, Eq, Clone, Copy)]
pub enum Hook {
    Start,
    Stop,
    Pause,
    Resume,
    UpdateInactive,
}

/// A game state. `W` and `R` are the world and the resource storage that every hook
/// receives; `E` is the type of window events.
///
/// Each hook is described by a relation that a verified implementor states: `ran` for the
/// hooks that answer nothing, `handled` and `updated` for the two that answer with a
/// transition. An implementation that states none is held to nothing: the relations then
/// hold of every outcome. The state machine's contracts say, through these relations, which
/// hook runs on which state and in what order.
pub trait State<W, R, E>: Sized {
    /// Hook `hook`, run on `self` with `world` and `resources`, may leave the state `next`
    /// and the world and resources `world2` and `resources2`.
    open spec fn ran(self, hook: Hook, world: W, resources: R, next: Self, world2: W, resources2: R) -> bool {
        true
    }

    /// `handle_event`, run on `self` with `event`, may leave `next`, `world2` and
    /// `resources2` and answer `answer`.
    open spec fn handled(
        self,
        world: W,
        resources: R,
        event: E,
        next: Self,
        world2: W,
        resources2: R,
        answer: Transition<Self>,
    ) -> bool {
        true
    }

    /// `update`, run on `self`, may leave `next`, `world2` and `resources2` and answer
    /// `answer`.
    open spec fn updated(self, world: W, resources: R, next: Self, world2: W, resources2: R, answer: Transition<Self>) -> bool {
        true
    }

    /// Runs when the state becomes active for the first time.
    fn on_start(&mut self, world: &mut W, resources: &mut R)
        ensures
            old(self).ran(Hook::Start, *old(world), *old(resources), *final(self), *final(world), *final(resources)),
    ;

    /// Runs when the state leaves the stack.
    fn on_stop(&mut self, world: &mut W, resources: &mut R)
        ensures
            old(self).ran(Hook::Stop, *old(world), *old(resources), *final(self), *final(world), *final(resources)),
    ;

    /// Runs when another state is pushed over this one.
    fn on_pause(&mut self, world: &mut W, resources: &mut R)
        ensures
            old(self).ran(Hook::Pause, *old(world), *old(resources), *final(self), *final(world), *final(resources)),
    ;

    /// Runs when the state above this one is popped.
    fn on_resume(&mut self, world: &mut W, resources: &mut R)
        ensures
            old(self).ran(Hook::Resume, *old(world), *old(resources), *final(self), *final(world), *final(resources)),
    ;

    /// Answers a window event with a transition.
    fn handle_event(&mut self, world: &mut W, resources: &mut R, event: E) -> (t: Transition<Self>)
        ensures
            old(self).handled(*old(world), *old(resources), event, *final(self), *final(world), *final(resources), t),
    ;

    /// Runs once a frame on the active state and answers with a transition.
    fn update(&mut self, world: &mut W, resources: &mut R) -> (t: Transition<Self>)
        ensures
            old(self).updated(*old(world), *old(resources), *final(self), *final(world), *final(resources), t),
    ;

    /// Runs once a frame on every state, the active one included.
    fn update_inactive(&mut self, world: &mut W, resources: &mut R)
        ensures
            old(self).ran(
                Hook::UpdateInactive,
                *old(world),
                *old(resources),
                *final(self),
                *final(world),
                *final(resources),
            ),
    ;
}

/// `new` is `old` with its top state replaced by `top`.
pub open spec fn with_top<S>(old: Seq<S>, top: S, new: Seq<S>) -> bool {
    new.len() == old.len() && old.len() > 0 && new.drop_last() == old.drop_last() && new.last() == top
}

/// The hook `hook` runs on the top state, if there is one; an empty stack and the world are
/// left as they were.
pub open spec fn top_ran<S: State<W, R, E>, W, R, E>(
    old: Seq<S>,
    hook: Hook,
    w: W,
    r: R,
    new: Seq<S>,
    w2: W,
    r2: R,
) -> bool {
    if old.len() == 0 {
        new == old && w2 == w && r2 == r
    } else {
        new.len() == old.len() && new.drop_last() == old.drop_last() && old.last().ran(
            hook,
            w,
            r,
            new.last(),
            w2,
            r2,
        )
    }
}

/// A pop: the top state is removed and stopped, then the state below it (if any) is resumed.
/// Nothing happens on an empty stack.
pub open spec fn popped<S: State<W, R, E>, W, R, E>(old: Seq<S>, w: W, r: R, new: Seq<S>, w2: W, r2: R) -> bool {
    if old.len() == 0 {
        new == old && w2 == w && r2 == r
    } else {
        exists|x: S, w1: W, r1: R|
            #[trigger] old.last().ran(Hook::Stop, w, r, x, w1, r1) && top_ran::<S, W, R, E>(
                old.drop_last(),
                Hook::Resume,
                w1,
                r1,
                new,
                w2,
                r2,
            )
    }
}

/// A push of `s`: the top state (if any) is paused, then `s` is started and put on top.
pub open spec fn pushed<S: State<W, R, E>, W, R, E>(old: Seq<S>, s: S, w: W, r: R, new: Seq<S>, w2: W, r2: R) -> bool {
    exists|mid: Seq<S>, w1: W, r1: R|
        #[trigger] top_ran::<S, W, R, E>(old, Hook::Pause, w, r, mid, w1, r1) && new.len() == old.len() + 1
            && new.drop_last() == mid && s.ran(Hook::Start, w1, r1, new.last(), w2, r2)
}

/// A switch to `s`: the top state (if any) is removed and stopped, then `s` is started and
/// put on top in its place.
pub open spec fn switched<S: State<W, R, E>, W, R, E>(old: Seq<S>, s: S, w: W, r: R, new: Seq<S>, w2: W, r2: R) -> bool {
    if old.len() == 0 {
        new.len() == 1 && s.ran(Hook::Start, w, r, new[0], w2, r2)
    } else {
        exists|x: S, w1: W, r1: R|
            #[trigger] old.last().ran(Hook::Stop, w, r, x, w1, r1) && new.len() == old.len()
                && new.drop_last() == old.drop_last() && s.ran(Hook::Start, w1, r1, new.last(), w2, r2)
    }
}

/// What applying `t` does to the stack, the world and the resources.
pub open spec fn transitioned<S: State<W, R, E>, W, R, E>(
    old: Seq<S>,
    w: W,
    r: R,
    t: Transition<S>,
    new: Seq<S>,
    w2: W,
    r2: R,
) -> bool {
    match t {
        Transition::Stay => new == old && w2 == w && r2 == r,
        Transition::Pop => popped::<S, W, R, E>(old, w, r, new, w2, r2),
        Transition::Push(s) => pushed::<S, W, R, E>(old, s, w, r, new, w2, r2),
        Transition::Switch(s) => switched::<S, W, R, E>(old, s, w, r, new, w2, r2),
    }
}

/// `on_stop` runs once on every state of `old`, from the top down, taking the world and the
/// resources from `w`, `r` to `w2`, `r2`.
pub open spec fn all_stopped<S: State<W, R, E>, W, R, E>(old: Seq<S>, w: W, r: R, w2: W, r2: R) -> bool
    decreases old.len(),
{
    if old.len() == 0 {
        w2 == w && r2 == r
    } else {
        exists|x: S, w1: W, r1: R|
            #[trigger] old.last().ran(Hook::Stop, w, r, x, w1, r1) && all_stopped::<S, W, R, E>(
                old.drop_last(),
                w1,
                r1,
                w2,
                r2,
            )
    }
}

/// `update_inactive` runs once on every state of `old`, from the bottom up; `new` holds the
/// states it leaves.
pub open spec fn all_updated_inactive<S: State<W, R, E>, W, R, E>(
    old: Seq<S>,
    w: W,
    r: R,
    new: Seq<S>,
    w2: W,
    r2: R,
) -> bool
    decreases old.len(),
{
    if old.len() == 0 {
        new.len() == 0 && w2 == w && r2 == r
    } else {
        exists|w1: W, r1: R|
            all_updated_inactive::<S, W, R, E>(old.drop_last(), w, r, new.drop_last(), w1, r1)
                && new.len() == old.len() && #[trigger] old.last().ran(Hook::UpdateInactive, w1, r1, new.last(), w2, r2)
    }
}

/// A stack of game states; the last one is the active state.
pub struct StateMachine<S> {
    stack: Vec<S>,
}

impl<S> View for StateMachine<S> {
    type V = Seq<S>;

    closed spec fn view(&self) -> Seq<S> {
        self.stack@
    }
}

impl<S> StateMachine<S> {
    /// A machine whose stack holds `init` alone.
    pub fn new(init: S) -> (m: Self)
        ensures
            m@ == seq![init],
    {
        let mut stack = Vec::new();
        stack.push(init);
        StateMachine { stack }
    }

    /// The number of states on the stack.
    pub fn len(&self) -> (n: usize)
        ensures
            n == self@.len(),
    {
        self.stack.len()
    }

    /// Runs `on_stop` on every state, from the top down, and empties the stack.
    pub fn stop<W, R, E>(&mut self, world: &mut W, resources: &mut R)
        where S: State<W, R, E>,
        ensures
            final(self)@.len() == 0,
            all_stopped::<S, W, R, E>(old(self)@, *old(world), *old(resources), *final(world), *final(resources)),
    {
        let ghost s0 = self.stack@;
        let ghost w0 = *world;
        let ghost r0 = *resources;
        while self.stack.len() > 0
            invariant
                forall|w2: W, r2: R|
                    #[trigger] all_stopped::<S, W, R, E>(self.stack@, *world, *resources, w2, r2)
                        ==> all_stopped::<S, W, R, E>(s0, w0, r0, w2, r2),
            decreases self.stack.len(),
        {
            let ghost before = self.stack@;
            let ghost wb = *world;
            let ghost rb = *resources;
            let mut state = self.stack.pop().unwrap();
            let ghost top = state;
            state.on_stop(world, resources);
            proof {
                assert(before.drop_last() =~= self.stack@);
                assert forall|w2: W, r2: R|
                    #[trigger] all_stopped::<S, W, R, E>(self.stack@, *world, *resources, w2, r2)
                        implies all_stopped::<S, W, R, E>(s0, w0, r0, w2, r2) by {
                    assert(before.last().ran(Hook::Stop, wb, rb, state, *world, *resources));
                    assert(all_stopped::<S, W, R, E>(before, wb, rb, w2, r2));
                }
            }
        }
        proof {
            assert(all_stopped::<S, W, R, E>(self.stack@, *world, *resources, *world, *resources));
        }
    }
}

impl<S> StateMachine<S> {
    /// Runs `on_start` on the active state.
    /// Fails with `NoStatesPresent` exactly when the stack is empty, and then changes nothing.
    pub fn start<W, R, E>(&mut self, world: &mut W, resources: &mut R) -> (res: Result<(), StateError>)
        where S: State<W, R, E>,
        ensures
            old(self)@.len() == 0 <==> res == Err::<(), StateError>(StateError::NoStatesPresent),
            res is Ok || res == Err::<(), StateError>(StateError::NoStatesPresent),
            top_ran::<S, W, R, E>(old(self)@, Hook::Start, *old(world), *old(resources), final(self)@, *final(world), *final(resources)),
    {
        match self.stack.pop() {
            Some(mut state) => {
                let ghost before = old(self)@;
                state.on_start(world, resources);
                self.stack.push(state);
                proof {
                    assert(self.stack@.drop_last() =~= before.drop_last());
                }
                Ok(())
            },
            None => Err(StateError::NoStatesPresent),
        }
    }

    /// Hands `event` to the active state and applies the transition that it answers.
    /// With no states, nothing happens.
    pub fn handle_event<W, R, E>(&mut self, world: &mut W, resources: &mut R, event: E)
        where S: State<W, R, E>,
        ensures
            old(self)@.len() == 0 ==> final(self)@ == old(self)@ && *final(world) == *old(world) && *final(resources)
                == *old(resources),
            old(self)@.len() > 0 ==> exists|s1: S, w1: W, r1: R, t: Transition<S>|
                #[trigger] old(self)@.last().handled(*old(world), *old(resources), event, s1, w1, r1, t)
                    && transitioned::<S, W, R, E>(
                    old(self)@.drop_last().push(s1),
                    w1,
                    r1,
                    t,
                    final(self)@,
                    *final(world),
                    *final(resources),
                ),
    {
        let ghost s0 = self.stack@;
        let ghost w0 = *world;
        let ghost r0 = *resources;
        if self.stack.len() == 0 {
            return;
        }
        let mut state = self.stack.pop().unwrap();
        let ghost top = state;
        let t = state.handle_event(world, resources, event);
        self.stack.push(state);
        proof {
            assert(self.stack@ =~= s0.drop_last().push(state));
        }
        let ghost mid = self.stack@;
        let ghost w1 = *world;
        let ghost r1 = *resources;
        let ghost tg = t;
        self.transition(t, world, resources);
        proof {
            assert(s0.last() == top);
            assert(s0.last().handled(w0, r0, event, state, w1, r1, tg));
            assert(transitioned::<S, W, R, E>(mid, w1, r1, tg, self.stack@, *world, *resources));
        }
    }

    /// Updates the active state, then runs `update_inactive` on every state from the bottom
    /// up (the active one included), then applies the transition that the active state
    /// answered. With no states, nothing happens.
    pub fn update<W, R, E>(&mut self, world: &mut W, resources: &mut R)
        where S: State<W, R, E>,
        ensures
            old(self)@.len() == 0 ==> final(self)@ == old(self)@ && *final(world) == *old(world) && *final(resources)
                == *old(resources),
            old(self)@.len() > 0 ==> exists|s1: S, w1: W, r1: R, t: Transition<S>, mid: Seq<S>, w2: W, r2: R|
                #[trigger] old(self)@.last().updated(*old(world), *old(resources), s1, w1, r1, t)
                    && #[trigger] all_updated_inactive::<S, W, R, E>(old(self)@.drop_last().push(s1), w1, r1, mid, w2, r2)
                    && transitioned::<S, W, R, E>(mid, w2, r2, t, final(self)@, *final(world), *final(resources)),
    {
        let ghost s0 = self.stack@;
        let ghost w0 = *world;
        let ghost r0 = *resources;
        if self.stack.len() == 0 {
            return;
        }
        let mut state = self.stack.pop().unwrap();
        let ghost top = state;
        let t = state.update(world, resources);
        self.stack.push(state);
        let ghost s1 = state;
        let ghost w1 = *world;
        let ghost r1 = *resources;
        let ghost updated = s0.drop_last().push(state);
        proof {
            assert(self.stack@ =~= updated);
            assert(updated.take(0) =~= Seq::<S>::empty());
            assert(self.stack@.take(0) =~= Seq::<S>::empty());
        }
        let n = self.stack.len();
        let mut i: usize = 0;
        while i < n
            invariant
                self.stack@.len() == n,
                updated.len() == n,
                i <= n,
                self.stack@.subrange(i as int, n as int) == updated.subrange(i as int, n as int),
                all_updated_inactive::<S, W, R, E>(updated.take(i as int), w1, r1, self.stack@.take(i as int), *world, *resources),
            decreases n - i,
        {
            let ghost before = self.stack@;
            let ghost wb = *world;
            let ghost rb = *resources;
            let mut state = self.stack.remove(i);
            proof {
                assert(state == before[i as int]);
                assert(before[i as int] == before.subrange(i as int, n as int)[0]);
                assert(updated[i as int] == updated.subrange(i as int, n as int)[0]);
            }
            let ghost old_state = state;
            state.update_inactive(world, resources);
            self.stack.insert(i, state);
            proof {
                assert(self.stack@ =~= before.update(i as int, state));
                assert(self.stack@.subrange(i + 1, n as int) =~= before.subrange(i + 1, n as int));
                assert(before.subrange(i + 1, n as int) =~= before.subrange(i as int, n as int).subrange(1, n - i));
                assert(updated.subrange(i + 1, n as int) =~= updated.subrange(i as int, n as int).subrange(1, n - i));
                assert(updated.take(i + 1).drop_last() =~= updated.take(i as int));
                assert(self.stack@.take(i + 1).drop_last() =~= before.take(i as int));
                assert(updated.take(i + 1).last() == old_state);
                assert(self.stack@.take(i + 1).last() == state);
                assert(all_updated_inactive::<S, W, R, E>(updated.take(i as int), w1, r1, before.take(i as int), wb, rb));
                assert(old_state == updated[i as int]);
                assert(updated.take(i + 1).len() == i + 1);
                assert(self.stack@.take(i + 1).len() == i + 1);
                assert(updated.take(i + 1).last().ran(
                    Hook::UpdateInactive,
                    wb,
                    rb,
                    self.stack@.take(i + 1).last(),
                    *world,
                    *resources,
                ));
                assert(all_updated_inactive::<S, W, R, E>(
                    updated.take(i + 1).drop_last(),
                    w1,
                    r1,
                    self.stack@.take(i + 1).drop_last(),
                    wb,
                    rb,
                ));
                lemma_updated_inactive_step::<S, W, R, E>(
                    updated.take(i + 1),
                    w1,
                    r1,
                    self.stack@.take(i + 1),
                    wb,
                    rb,
                    *world,
                    *resources,
                );
            }
            i = i + 1;
        }
        proof {
            assert(updated.take(n as int) =~= updated);
            assert(self.stack@.take(n as int) =~= self.stack@);
        }
        let ghost mid = self.stack@;
        let ghost w2 = *world;
        let ghost r2 = *resources;
        let ghost tg = t;
        self.transition(t, world, resources);
        proof {
            assert(s0.last() == top);
            assert(s0.last().updated(w0, r0, s1, w1, r1, tg));
            assert(all_updated_inactive::<S, W, R, E>(s0.drop_last().push(s1), w1, r1, mid, w2, r2));
            assert(transitioned::<S, W, R, E>(mid, w2, r2, tg, self.stack@, *world, *resources));
        }
    }

    /// Applies `trans` to the stack:
    /// - `Stay` changes nothing;
    /// - `Pop` removes and stops the active state and resumes the one below it;
    /// - `Push` pauses the active state and starts the new one on top;
    /// - `Switch` removes and stops the active state and starts the new one in its place.
    pub fn transition<W, R, E>(&mut self, trans: Transition<S>, world: &mut W, resources: &mut R)
        where S: State<W, R, E>,
        ensures
            transitioned::<S, W, R, E>(old(self)@, *old(world), *old(resources), trans, final(self)@, *final(world), *final(resources)),
    {
        match trans {
            Transition::Stay => {},
            Transition::Pop => self.pop(world, resources),
            Transition::Push(state) => self.push(state, world, resources),
            Transition::Switch(state) => self.switch(state, world, resources),
        }
    }

    /// Runs `on_resume` on the active state, if there is one.
    fn resume_top<W, R, E>(&mut self, world: &mut W, resources: &mut R)
        where S: State<W, R, E>,
        ensures
            top_ran::<S, W, R, E>(old(self)@, Hook::Resume, *old(world), *old(resources), final(self)@, *final(world), *final(resources)),
    {
        if let Some(mut state) = self.stack.pop() {
            let ghost before = old(self)@;
            state.on_resume(world, resources);
            self.stack.push(state);
            proof {
                assert(self.stack@.drop_last() =~= before.drop_last());
            }
        }
    }

    /// Runs `on_pause` on the active state, if there is one.
    fn pause_top<W, R, E>(&mut self, world: &mut W, resources: &mut R)
        where S: State<W, R, E>,
        ensures
            top_ran::<S, W, R, E>(old(self)@, Hook::Pause, *old(world), *old(resources), final(self)@, *final(world), *final(resources)),
    {
        if let Some(mut state) = self.stack.pop() {
            let ghost before = old(self)@;
            state.on_pause(world, resources);
            self.stack.push(state);
            proof {
                assert(self.stack@.drop_last() =~= before.drop_last());
            }
        }
    }

    /// Runs `on_start` on `state` and pushes it.
    fn start_new<W, R, E>(&mut self, state: S, world: &mut W, resources: &mut R)
        where S: State<W, R, E>,
        ensures
            final(self)@.len() == old(self)@.len() + 1,
            final(self)@.drop_last() == old(self)@,
            state.ran(Hook::Start, *old(world), *old(resources), final(self)@.last(), *final(world), *final(resources)),
    {
        let mut state = state;
        state.on_start(world, resources);
        self.stack.push(state);
        proof {
            assert(self.stack@.drop_last() =~= old(self)@);
        }
    }

    fn pop<W, R, E>(&mut self, world: &mut W, resources: &mut R)
        where S: State<W, R, E>,
        ensures
            popped::<S, W, R, E>(old(self)@, *old(world), *old(resources), final(self)@, *final(world), *final(resources)),
    {
        if let Some(mut state) = self.stack.pop() {
            let ghost before = old(self)@;
            let ghost top = state;
            let ghost w0 = *world;
            let ghost r0 = *resources;
            state.on_stop(world, resources);
            let ghost w1 = *world;
            let ghost r1 = *resources;
            proof {
                assert(self.stack@ =~= before.drop_last());
            }
            self.resume_top(world, resources);
            proof {
                assert(before.last() == top);
                assert(before.last().ran(Hook::Stop, w0, r0, state, w1, r1) && top_ran::<S, W, R, E>(
                    before.drop_last(),
                    Hook::Resume,
                    w1,
                    r1,
                    self.stack@,
                    *world,
                    *resources,
                ));
            }
        }
    }

    fn push<W, R, E>(&mut self, state: S, world: &mut W, resources: &mut R)
        where S: State<W, R, E>,
        ensures
            pushed::<S, W, R, E>(old(self)@, state, *old(world), *old(resources), final(self)@, *final(world), *final(resources)),
    {
        let ghost w0 = *world;
        let ghost r0 = *resources;
        self.pause_top(world, resources);
        let ghost mid = self.stack@;
        let ghost w1 = *world;
        let ghost r1 = *resources;
        self.start_new(state, world, resources);
        proof {
            assert(top_ran::<S, W, R, E>(old(self)@, Hook::Pause, w0, r0, mid, w1, r1));
        }
    }

    fn switch<W, R, E>(&mut self, state: S, world: &mut W, resources: &mut R)
        where S: State<W, R, E>,
        ensures
            switched::<S, W, R, E>(old(self)@, state, *old(world), *old(resources), final(self)@, *final(world), *final(resources)),
    {
        let ghost w0 = *world;
        let ghost r0 = *resources;
        if let Some(mut top) = self.stack.pop() {
            let ghost old_top = top;
            top.on_stop(world, resources);
            let ghost w1 = *world;
            let ghost r1 = *resources;
            self.start_new(state, world, resources);
            proof {
                assert(old(self)@.last() == old_top);
                assert(old(self)@.last().ran(Hook::Stop, w0, r0, top, w1, r1));
                assert(self.stack@.drop_last() =~= old(self)@.drop_last());
            }
        } else {
            self.start_new(state, world, resources);
            proof {
                assert(self.stack@[0] == self.stack@.last());
            }
        }
    }
}

/// One more state updated: the states before it were, and then it was.
proof fn lemma_updated_inactive_step<S: State<W, R, E>, W, R, E>(
    old: Seq<S>,
    w: W,
    r: R,
    new: Seq<S>,
    w1: W,
    r1: R,
    w2: W,
    r2: R,
)
    requires
        old.len() > 0,
        new.len() == old.len(),
        all_updated_inactive::<S, W, R, E>(old.drop_last(), w, r, new.drop_last(), w1, r1),
        old.last().ran(Hook::UpdateInactive, w1, r1, new.last(), w2, r2),
    ensures
        all_updated_inactive::<S, W, R, E>(old, w, r, new, w2, r2),
{
}

/// Pushing a state and popping it again leaves the stack as deep as it was, with every
/// state below the one that was active untouched, and the state pushed gone.
pub proof fn lemma_push_then_pop<S: State<W, R, E>, W, R, E>(
    s0: Seq<S>,
    pushed_state: S,
    w0: W,
    r0: R,
    s1: Seq<S>,
    w1: W,
    r1: R,
    s2: Seq<S>,
    w2: W,
    r2: R,
)
    requires
        pushed::<S, W, R, E>(s0, pushed_state, w0, r0, s1, w1, r1),
        popped::<S, W, R, E>(s1, w1, r1, s2, w2, r2),
    ensures
        s2.len() == s0.len(),
        forall|i: int| 0 <= i < s0.len() - 1 ==> s2[i] == s0[i],
{
    let (mid, wm, rm) = choose|mid: Seq<S>, wm: W, rm: R|
        #[trigger] top_ran::<S, W, R, E>(s0, Hook::Pause, w0, r0, mid, wm, rm) && s1.len() == s0.len() + 1
            && s1.drop_last() == mid && pushed_state.ran(Hook::Start, wm, rm, s1.last(), w1, r1);
    let (x, wx, rx) = choose|x: S, wx: W, rx: R|
        #[trigger] s1.last().ran(Hook::Stop, w1, r1, x, wx, rx) && top_ran::<S, W, R, E>(
            s1.drop_last(),
            Hook::Resume,
            wx,
            rx,
            s2,
            w2,
            r2,
        );
    assert forall|i: int| 0 <= i < s0.len() - 1 implies s2[i] == s0[i] by {
        assert(s2[i] == s2.drop_last()[i]);
        assert(mid[i] == mid.drop_last()[i]);
        assert(s0[i] == s0.drop_last()[i]);
    }
}

/// Switching on a non-empty stack keeps its depth; switching on an empty one gives it one
/// state. Either way every state below the top is untouched, and the top is the new state
/// after its `on_start`.
pub proof fn lemma_switch_keeps_depth<S: State<W, R, E>, W, R, E>(s0: Seq<S>, next: S, w0: W, r0: R, s1: Seq<S>, w1: W, r1: R)
    requires
        switched::<S, W, R, E>(s0, next, w0, r0, s1, w1, r1),
    ensures
        s0.len() > 0 ==> s1.len() == s0.len(),
        s0.len() == 0 ==> s1.len() == 1,
        forall|i: int| 0 <= i < s0.len() - 1 ==> s1[i] == s0[i],
        exists|wm: W, rm: R| #[trigger] next.ran(Hook::Start, wm, rm, s1.last(), w1, r1),
{
    if s0.len() == 0 {
        assert(s1[0] == s1.last());
        assert(next.ran(Hook::Start, w0, r0, s1.last(), w1, r1));
    } else {
        let (x, wm, rm) = choose|x: S, wm: W, rm: R|
            #[trigger] s0.last().ran(Hook::Stop, w0, r0, x, wm, rm) && s1.len() == s0.len()
                && s1.drop_last() == s0.drop_last() && next.ran(Hook::Start, wm, rm, s1.last(), w1, r1);
        assert(next.ran(Hook::Start, wm, rm, s1.last(), w1, r1));
        assert forall|i: int| 0 <= i < s0.len() - 1 implies s1[i] == s0[i] by {
            assert(s1[i] == s1.drop_last()[i]);
            assert(s0[i] == s0.drop_last()[i]);
        }
    }
}

} // verus!
