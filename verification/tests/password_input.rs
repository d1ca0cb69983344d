use mkdf::input::trim_line_endings;

#[test]
fn trailing_line_feed_goes() {
    assert_eq!(trim_line_endings(b"secret\n".to_vec()), b"secret".to_vec());
}

#[test]
fn trailing_carriage_return_and_line_feed_go() {
    assert_eq!(trim_line_endings(b"secret\r\n".to_vec()), b"secret".to_vec());
    assert_eq!(trim_line_endings(b"secret\n\r\n\n\r".to_vec()), b"secret".to_vec());
    assert_eq!(trim_line_endings(b"secret\r".to_vec()), b"secret".to_vec());
}

#[test]
fn line_ends_inside_stay() {
    assert_eq!(trim_line_endings(b"two\nlines\n".to_vec()), b"two\nlines".to_vec());
    assert_eq!(trim_line_endings(b"\r\nlead".to_vec()), b"\r\nlead".to_vec());
}

#[test]
fn other_white_space_stays() {
    assert_eq!(trim_line_endings(b"  secret".to_vec()), b"  secret".to_vec());
    assert_eq!(trim_line_endings(b"secret \n".to_vec()), b"secret ".to_vec());
    assert_eq!(trim_line_endings(b"secret\t\n".to_vec()), b"secret\t".to_vec());
    assert_eq!(trim_line_endings(b"secret\n ".to_vec()), b"secret\n ".to_vec());
}

#[test]
fn nothing_but_line_ends_leaves_nothing() {
    assert_eq!(trim_line_endings(b"\n".to_vec()), Vec::<u8>::new());
    assert_eq!(trim_line_endings(b"\r\n\r\n".to_vec()), Vec::<u8>::new());
    assert_eq!(trim_line_endings(Vec::new()), Vec::<u8>::new());
}

#[test]
fn a_password_without_line_end_is_kept() {
    assert_eq!(trim_line_endings(b"correct horse".to_vec()), b"correct horse".to_vec());
    assert_eq!(trim_line_endings(vec![0u8, 0xff, 0x0b]), vec![0u8, 0xff, 0x0b]);
}

#[test]
fn trimming_twice_changes_nothing_more() {
    let once = trim_line_endings(b"a\nb\r\n\n".to_vec());
    assert_eq!(trim_line_endings(once.clone()), once);
}
