use advault::registry::VerifierRegistry;

fn id32(n: u8) -> Vec<u8> {
    let mut v = vec![0u8; 32];
    v[31] = n;
    v
}

#[test]
fn registry_owner_and_pause() {
    let mut reg = VerifierRegistry::new();
    reg.init(id32(1));
    assert_eq!(reg.owner(), &id32(1));
    assert!(!reg.is_paused());
    reg.pause();
    assert!(reg.is_paused());
    reg.unpause();
    assert!(!reg.is_paused());
}

#[test]
fn verifiers_default_deny() {
    let mut reg = VerifierRegistry::new();
    reg.init(id32(1));
    assert!(!reg.is_verifier(&id32(7)));
    assert!(reg.add_verifier(&id32(7)).is_ok());
    assert!(reg.is_verifier(&id32(7)));
    assert!(!reg.is_verifier(&id32(8)));
    assert!(reg.remove_verifier(&id32(7)).is_ok());
    assert!(!reg.is_verifier(&id32(7)));
}

#[test]
fn publishers_default_allow() {
    let mut reg = VerifierRegistry::new();
    reg.init(id32(1));
    assert!(reg.is_publisher_allowed(&id32(9)));
    assert!(reg.set_publisher_status(&id32(9), false).is_ok());
    assert!(!reg.is_publisher_allowed(&id32(9)));
    assert!(reg.is_publisher_allowed(&id32(10)));
    assert!(reg.set_publisher_status(&id32(9), true).is_ok());
    assert!(reg.is_publisher_allowed(&id32(9)));
}
