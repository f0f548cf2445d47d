use ipc_transport::quit::QuitFlag;

#[test]
fn starts_lowered() {
    let q = QuitFlag::new();
    assert!(!q.is_raised());
}

#[test]
fn raise_is_one_way() {
    let q = QuitFlag::new();
    q.raise();
    assert!(q.is_raised());
    // raising again changes nothing; there is no way back
    q.raise();
    assert!(q.is_raised());
}
