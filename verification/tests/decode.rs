use xattrs::XAttrs;

#[test]
fn empty_buffer_has_no_names() {
    let mut x = XAttrs::from_bytes(Vec::new());
    assert_eq!(x.size_hint(), (0, Some(0)));
    assert_eq!(x.next(), None);
    assert_eq!(x.next(), None);
}

#[test]
fn two_packed_names_decode_in_order() {
    let mut x = XAttrs::from_bytes(b"a\0bb\0".to_vec());
    assert_eq!(x.size_hint(), (1, None));
    assert_eq!(x.next(), Some(b"a".to_vec()));
    assert_eq!(x.next(), Some(b"bb".to_vec()));
    assert_eq!(x.next(), None);
    assert_eq!(x.size_hint(), (0, Some(0)));
}

#[test]
fn names_drains_every_name() {
    let mut x = XAttrs::from_bytes(b"a\0bb\0".to_vec());
    assert_eq!(x.names(), vec![b"a".to_vec(), b"bb".to_vec()]);
    assert_eq!(x.next(), None);
}

#[test]
fn cursor_is_not_restartable() {
    let mut x = XAttrs::from_bytes(b"one\0two\0".to_vec());
    assert_eq!(x.next(), Some(b"one".to_vec()));
    assert_eq!(x.next(), Some(b"two".to_vec()));
    assert_eq!(x.next(), None);
    // Reaching the end is permanent.
    assert_eq!(x.next(), None);
    assert_eq!(x.names(), Vec::<Vec<u8>>::new());
}

#[test]
fn clone_keeps_the_cursor_position() {
    let mut x = XAttrs::from_bytes(b"one\0two\0".to_vec());
    assert_eq!(x.next(), Some(b"one".to_vec()));
    let mut y = x.clone();
    assert_eq!(y.next(), Some(b"two".to_vec()));
    assert_eq!(x.next(), Some(b"two".to_vec()));
    assert_eq!(x.next(), None);
    assert_eq!(y.next(), None);
}

#[test]
fn unterminated_tail_counts_as_a_name() {
    let mut x = XAttrs::from_bytes(b"abc".to_vec());
    assert_eq!(x.next(), Some(b"abc".to_vec()));
    assert_eq!(x.next(), None);
}

#[test]
fn bare_terminators_yield_empty_names() {
    let mut x = XAttrs::from_bytes(b"\0\0".to_vec());
    assert_eq!(x.next(), Some(Vec::new()));
    assert_eq!(x.next(), Some(Vec::new()));
    assert_eq!(x.next(), None);
}
