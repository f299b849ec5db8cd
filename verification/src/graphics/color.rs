use vstd::prelude::*;
use vstd::std_specs::convert::FromSpecImpl;
use vstd::std_specs::convert::IntoSpecImpl;
use vstd::std_specs::convert::FromSpec;
use vstd::std_specs::convert::IntoSpec;

verus! {

/// A color with red, green and blue channels of type `T`.
#[derive(Debug, Copy, Clone)]
pub struct Rgb<T> {
    pub r: T,
    pub g: T,
    pub b: T,
}

impl<T> Rgb<T> {
    pub fn new(r: T, g: T, b: T) -> (c: Self)
        ensures
            c == (Rgb { r, g, b }),
    {
        Self { r, g, b }
    }

    /// The same color with an alpha channel `a`.
    pub open spec fn with_alpha(self, a: T) -> Rgba<T> {
        Rgba { r: self.r, g: self.g, b: self.b, a }
    }

    /// The same color with an alpha channel `a`.
    pub fn alpha(self, a: T) -> (c: Rgba<T>)
        ensures
            c == self.with_alpha(a),
    {
        Rgba::new(self.r, self.g, self.b, a)
    }
}

impl<T: Copy> From<[T; 3]> for Rgb<T> {
    fn from(f: [T; 3]) -> (c: Self) {
        Self { r: f[0], g: f[1], b: f[2] }
    }
}

impl<T: Copy> FromSpecImpl<[T; 3]> for Rgb<T> {
    open spec fn obeys_from_spec() -> bool {
        true
    }

    open spec fn from_spec(f: [T; 3]) -> Self {
        Rgb { r: f@[0], g: f@[1], b: f@[2] }
    }
}

impl<T> Into<[T; 3]> for Rgb<T> {
    fn into(self) -> (a: [T; 3]) {
        [self.r, self.g, self.b]
    }
}

impl<T> IntoSpecImpl<[T; 3]> for Rgb<T> {
    open spec fn obeys_into_spec() -> bool {
        true
    }

    open spec fn into_spec(self) -> [T; 3] {
        [self.r, self.g, self.b]
    }
}

/// A color with red, green, blue and alpha channels of type `T`.
#[derive(Debug, Copy, Clone)]
pub struct Rgba<T> {
    pub r: T,
    pub g: T,
    pub b: T,
    pub a: T,
}

impl<T> Rgba<T> {
    pub fn new(r: T, g: T, b: T, a: T) -> (c: Self)
        ensures
            c == (Rgba { r, g, b, a }),
    {
        Self { r, g, b, a }
    }

    /// The same color without its alpha channel.
    pub open spec fn without_alpha(self) -> Rgb<T> {
        Rgb { r: self.r, g: self.g, b: self.b }
    }

    /// The same color without its alpha channel.
    pub fn rgb(self) -> (c: Rgb<T>)
        ensures
            c == self.without_alpha(),
    {
        Rgb::new(self.r, self.g, self.b)
    }
}

impl<T: Copy> From<[T; 4]> for Rgba<T> {
    fn from(f: [T; 4]) -> (c: Self) {
        Self { r: f[0], g: f[1], b: f[2], a: f[3] }
    }
}

impl<T: Copy> FromSpecImpl<[T; 4]> for Rgba<T> {
    open spec fn obeys_from_spec() -> bool {
        true
    }

    open spec fn from_spec(f: [T; 4]) -> Self {
        Rgba { r: f@[0], g: f@[1], b: f@[2], a: f@[3] }
    }
}

impl<T> Into<[T; 4]> for Rgba<T> {
    fn into(self) -> (a: [T; 4]) {
        [self.r, self.g, self.b, self.a]
    }
}

impl<T> IntoSpecImpl<[T; 4]> for Rgba<T> {
    open spec fn obeys_into_spec() -> bool {
        true
    }

    open spec fn into_spec(self) -> [T; 4] {
        [self.r, self.g, self.b, self.a]
    }
}

/// Adding an alpha channel and dropping it again gives the color back; dropping the alpha
/// channel and adding the same one again gives the color with alpha back.
pub proof fn lemma_alpha_round_trip<T>(c: Rgb<T>, a: T, d: Rgba<T>)
    ensures
        c.with_alpha(a).without_alpha() == c,
        d.without_alpha().with_alpha(d.a) == d,
{
}

/// Converting a color to an array and back gives the color back, with or without alpha.
pub proof fn lemma_array_round_trip<T: Copy>(c: Rgb<T>, d: Rgba<T>)
    ensures
        <Rgb<T> as FromSpec<[T; 3]>>::from_spec(<Rgb<T> as IntoSpec<[T; 3]>>::into_spec(c)) == c,
        <Rgba<T> as FromSpec<[T; 4]>>::from_spec(<Rgba<T> as IntoSpec<[T; 4]>>::into_spec(d)) == d,
{
}

} // verus!
