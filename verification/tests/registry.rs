use window_core::error::WindowError;
use window_core::registry::ClassRegistry;

#[test]
fn new_registry_is_empty() {
    let registry = ClassRegistry::new();
    assert_eq!(registry.class_atom(), None);
    assert_eq!(registry.live_windows(), 0);
}

#[test]
fn register_records_a_nonzero_atom() {
    let mut registry = ClassRegistry::new();
    assert_eq!(registry.register(0xC123, 0), Ok(0xC123));
    assert_eq!(registry.class_atom(), Some(0xC123));
    assert_eq!(registry.live_windows(), 0);
}

#[test]
fn register_fails_on_zero_atom_with_the_code() {
    let mut registry = ClassRegistry::new();
    assert_eq!(registry.register(0, 1410), Err(WindowError::ClassRegistrationFailed(1410)));
    assert_eq!(registry.class_atom(), None);
    assert_eq!(registry.register(0xC001, 1410), Ok(0xC001));
}

#[test]
fn register_keeps_the_existing_class() {
    let mut registry = ClassRegistry::new();
    assert_eq!(registry.register(0xC123, 0), Ok(0xC123));
    assert_eq!(registry.register(0xC456, 0), Ok(0xC123));
    assert_eq!(registry.register(0, 1410), Ok(0xC123));
    assert_eq!(registry.class_atom(), Some(0xC123));
}

#[test]
fn two_windows_first_destroyed_keeps_class_second_unregisters() {
    let mut registry = ClassRegistry::new();
    assert_eq!(registry.register(0xC123, 0), Ok(0xC123));
    registry.add_window();
    assert_eq!(registry.register(0xC999, 0), Ok(0xC123));
    registry.add_window();
    assert_eq!(registry.live_windows(), 2);

    assert_eq!(registry.release(), None);
    assert_eq!(registry.live_windows(), 1);
    assert_eq!(registry.class_atom(), Some(0xC123));

    assert_eq!(registry.release(), Some(0xC123));
    assert_eq!(registry.live_windows(), 0);
    assert_eq!(registry.class_atom(), None);
}

#[test]
fn many_windows_unregister_exactly_once_at_the_end() {
    for count in 1..=20usize {
        let mut registry = ClassRegistry::new();
        for _ in 0..count {
            if registry.class_atom().is_none() {
                assert_eq!(registry.register(0xC0DE, 0), Ok(0xC0DE));
            }
            registry.add_window();
        }
        assert_eq!(registry.live_windows(), count);
        let mut unregistered = 0;
        for released in 1..=count {
            match registry.release() {
                Some(atom) => {
                    assert_eq!(atom, 0xC0DE);
                    assert_eq!(released, count);
                    unregistered += 1;
                },
                None => {
                    assert!(released < count);
                    assert_eq!(registry.class_atom(), Some(0xC0DE));
                },
            }
        }
        assert_eq!(unregistered, 1);
        assert_eq!(registry.class_atom(), None);
        assert_eq!(registry.live_windows(), 0);
    }
}

#[test]
fn release_without_windows_changes_nothing() {
    let mut registry = ClassRegistry::new();
    assert_eq!(registry.release(), None);
    assert_eq!(registry.class_atom(), None);
    assert_eq!(registry.register(0xC123, 0), Ok(0xC123));
    assert_eq!(registry.release(), None);
    assert_eq!(registry.class_atom(), Some(0xC123));
    assert_eq!(registry.live_windows(), 0);
}

#[test]
fn class_is_registered_again_after_last_window_went() {
    let mut registry = ClassRegistry::new();
    assert_eq!(registry.register(0xC123, 0), Ok(0xC123));
    registry.add_window();
    assert_eq!(registry.release(), Some(0xC123));
    assert_eq!(registry.register(0xC124, 0), Ok(0xC124));
    registry.add_window();
    assert_eq!(registry.release(), Some(0xC124));
}
