use webrender::renderdoc::{capture_path, check_api, RenderDocCapture};

#[test]
fn a_request_is_taken_once() {
    let mut capture = RenderDocCapture::new(true);
    assert!(capture.is_available());
    assert!(!capture.take_request());
    capture.arm();
    assert!(capture.take_request());
    assert!(!capture.take_request());
}

#[test]
fn nothing_is_captured_without_the_library() {
    let mut capture = RenderDocCapture::new(false);
    capture.arm();
    assert!(!capture.take_request());
    assert!(!capture.capture_next);
    assert!(!capture.start(3));
    assert_eq!(capture.captures_before, 0);
    assert_eq!(capture.end(9), None);
}

#[test]
fn only_a_new_capture_counts() {
    let mut capture = RenderDocCapture::new(true);
    assert!(capture.start(3));
    assert_eq!(capture.end(3), None);
    assert_eq!(capture.end(2), None);
    assert_eq!(capture.end(4), Some(3));
    assert_eq!(capture.end(6), Some(5));
}

#[test]
fn the_interface_must_be_handed_out() {
    assert_eq!(check_api(1, true), Ok(()));
    assert_eq!(check_api(1, false), Err(String::from("RENDERDOC_GetAPI returned 1")));
    assert_eq!(check_api(0, true), Err(String::from("RENDERDOC_GetAPI returned 0")));
    assert_eq!(
        check_api(i32::MIN, true),
        Err(String::from("RENDERDOC_GetAPI returned -2147483648"))
    );
}

#[test]
fn paths_end_at_the_first_zero() {
    let buffer = vec![b'a', b'/', b'b', 0, b'c', 0];
    assert_eq!(capture_path(6, true, &buffer), Some(vec![b'a', b'/', b'b']));
    assert_eq!(capture_path(0, true, &buffer), None);
    assert_eq!(capture_path(6, false, &buffer), None);
    assert_eq!(capture_path(1, true, &vec![0]), Some(Vec::new()));
}
