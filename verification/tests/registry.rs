use gamescope_portal::ascii::{four_digits, two_digits};
use gamescope_portal::error::SessionError;
use gamescope_portal::registry::SessionRegistry;

#[test]
fn registry_create_close_contains() {
    let mut reg = SessionRegistry::new();
    let h = "/org/session/r1".to_string();
    assert!(!reg.contains(&h));
    assert_eq!(reg.create(h.clone()), Ok(()));
    assert!(reg.contains(&h));
    assert_eq!(reg.create(h.clone()), Err(SessionError::AlreadyExists));
    assert_eq!(reg.close(&h), Ok(()));
    assert!(!reg.contains(&h));
    assert_eq!(reg.close(&h), Err(SessionError::NotFound));
}

#[test]
fn registry_accepts_empty_handle() {
    let mut reg = SessionRegistry::new();
    let h = String::new();
    assert_eq!(reg.create(h.clone()), Ok(()));
    assert!(reg.contains(&h));
    assert_eq!(reg.close(&h), Ok(()));
}

#[test]
fn registry_close_keeps_other_handles() {
    let mut reg = SessionRegistry::new();
    let a = "a".to_string();
    let b = "b".to_string();
    let c = "c".to_string();
    reg.create(a.clone()).unwrap();
    reg.create(b.clone()).unwrap();
    reg.create(c.clone()).unwrap();
    assert_eq!(reg.close(&b), Ok(()));
    assert!(reg.contains(&a));
    assert!(!reg.contains(&b));
    assert!(reg.contains(&c));
}

#[test]
fn digit_rendering_pads_with_zeros() {
    assert_eq!(two_digits(0), "00");
    assert_eq!(two_digits(7), "07");
    assert_eq!(two_digits(59), "59");
    assert_eq!(four_digits(0), "0000");
    assert_eq!(four_digits(42), "0042");
    assert_eq!(four_digits(2024), "2024");
    assert_eq!(four_digits(9999), "9999");
}
