use actor_counter::errors::SessionError;
use actor_counter::registry::Registry;

#[test]
fn empty_registry_finds_nothing() {
    let r: Registry<u32> = Registry::new();
    assert!(r.lookup(&"app".to_string()).is_none());
}

#[test]
fn registered_names_are_found() {
    let mut r: Registry<u32> = Registry::new();
    assert!(r.register("app".to_string(), 1));
    assert!(r.register("counter".to_string(), 2));
    assert_eq!(r.lookup(&"app".to_string()), Some(&1));
    assert_eq!(r.lookup(&"counter".to_string()), Some(&2));
    assert!(r.lookup(&"other".to_string()).is_none());
}

#[test]
fn duplicate_registration_is_refused() {
    let mut r: Registry<u32> = Registry::new();
    assert!(r.register("app".to_string(), 1));
    assert!(!r.register("app".to_string(), 9));
    assert_eq!(r.lookup(&"app".to_string()), Some(&1), "the first binding stands");
}

#[test]
fn missing_peer_is_a_typed_error() {
    let r: Registry<u32> = Registry::new();
    match r.lookup_or_err(&"counter".to_string()) {
        Err(e) => assert_eq!(e, SessionError::PeerUnavailable),
        Ok(_) => panic!("nothing was registered"),
    }
}

#[test]
fn required_peer_is_handed_back() {
    let mut r: Registry<u32> = Registry::new();
    r.register("counter".to_string(), 7);
    assert_eq!(r.lookup_or_err(&"counter".to_string()), Ok(&7));
}
