use shapeshift_rs::status_line;

#[test]
fn ok_status_renders_numeric_code() {
    assert_eq!(status_line(200), "Response status: 200\n");
}

#[test]
fn common_codes_render_exactly() {
    assert_eq!(status_line(100), "Response status: 100\n");
    assert_eq!(status_line(301), "Response status: 301\n");
    assert_eq!(status_line(404), "Response status: 404\n");
    assert_eq!(status_line(503), "Response status: 503\n");
}

#[test]
fn extreme_values_render_without_leading_zeros() {
    assert_eq!(status_line(0), "Response status: 0\n");
    assert_eq!(status_line(7), "Response status: 7\n");
    assert_eq!(status_line(10), "Response status: 10\n");
    assert_eq!(status_line(65535), "Response status: 65535\n");
}
