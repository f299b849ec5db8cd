use engine::state::StateMachine;

#[test]
fn lib_it_works() {
    let result = 2 + 2;
    assert_eq!(result, 4);
}

#[test]
fn fps_camera_it_works() {
    assert_eq!(2 + 2, 4);
}

#[test]
fn crate_links() {
    let m: StateMachine<u8> = StateMachine::new(1);
    assert_eq!(m.len(), 1);
}
