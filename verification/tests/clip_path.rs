use warb::check_clip_path;

#[test]
fn clip_path_without_nul_is_accepted() {
    assert!(check_clip_path(b"/tmp/clip.braw").is_ok());
    assert!(check_clip_path(&[0xff, 0xfe, b'a']).is_ok());
    assert!(check_clip_path(b"").is_ok());
}

#[test]
fn clip_path_with_interior_nul_is_refused() {
    let e = check_clip_path(b"/tmp/cl\0ip.braw").unwrap_err();
    assert_eq!(e.to_string(), "path contains an interior NUL byte");
    assert!(check_clip_path(b"\0").is_err());
}
