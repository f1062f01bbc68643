use icp_lottery::identity::{PlayerId, MAX_ID_LENGTH};

#[test]
fn identity_keeps_its_bytes() {
    let id = PlayerId::from_slice(&[1, 2, 3]).unwrap();
    assert_eq!(id.as_slice(), &[1, 2, 3]);
    let empty = PlayerId::from_slice(&[]).unwrap();
    assert_eq!(empty.as_slice(), &[] as &[u8]);
}

#[test]
fn identity_of_full_length_is_accepted() {
    assert_eq!(MAX_ID_LENGTH, 29);
    let bytes = [9u8; 29];
    let id = PlayerId::from_slice(&bytes).unwrap();
    assert_eq!(id.as_slice(), &bytes);
}

#[test]
fn identity_that_is_too_long_is_refused() {
    assert_eq!(PlayerId::from_slice(&[9u8; 30]), None);
    assert_eq!(PlayerId::from_slice(&[0u8; 64]), None);
}

#[test]
fn anonymous_is_the_byte_four() {
    assert_eq!(PlayerId::anonymous().as_slice(), &[4u8]);
    assert!(PlayerId::anonymous().same(&PlayerId::from_slice(&[4]).unwrap()));
}

#[test]
fn same_compares_the_bytes() {
    let a = PlayerId::from_slice(&[1, 2, 3]).unwrap();
    let b = PlayerId::from_slice(&[1, 2, 3]).unwrap();
    let c = PlayerId::from_slice(&[1, 2, 4]).unwrap();
    let d = PlayerId::from_slice(&[1, 2]).unwrap();
    assert!(a.same(&b));
    assert!(!a.same(&c));
    assert!(!a.same(&d));
    assert!(!d.same(&a));
    assert!(a.same(&a));
}

#[test]
fn clone_is_the_same_player() {
    let a = PlayerId::from_slice(&[7, 7, 7]).unwrap();
    let b = a.clone();
    assert!(a.same(&b));
    assert_eq!(a, b);
}
