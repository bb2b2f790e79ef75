use ray_tracer::{format_color, ppm_header};

#[test]
fn pixel_is_three_decimals() {
    assert_eq!(format_color(255, 0, 127), b"255 0 127".to_vec());
    assert_eq!(format_color(9, 10, 99), b"9 10 99".to_vec());
}

#[test]
fn header_names_size_and_range() {
    assert_eq!(ppm_header(768, 432), b"P3 768 432\n255\n".to_vec());
    assert_eq!(ppm_header(0, 1), b"P3 0 1\n255\n".to_vec());
    assert_eq!(ppm_header(4294967295, 10), b"P3 4294967295 10\n255\n".to_vec());
}

