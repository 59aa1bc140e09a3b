use voxel_mesh::state::AppState;

#[test]
fn loading_waits_for_the_texture() {
    assert_eq!(AppState::Loading.poll(false), AppState::Loading);
    assert_eq!(AppState::Loading.poll(false).poll(false), AppState::Loading);
}

#[test]
fn loading_ends_when_the_texture_is_loaded() {
    assert_eq!(AppState::Loading.poll(true), AppState::Run);
    assert_eq!(AppState::Loading.poll(false).poll(true), AppState::Run);
}

#[test]
fn running_never_ends() {
    assert_eq!(AppState::Run.poll(false), AppState::Run);
    assert_eq!(AppState::Run.poll(true), AppState::Run);
}
