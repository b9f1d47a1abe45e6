use raytracer::ppm::ppm_header;

#[test]
fn header_for_default_camera_size() {
    let mut out: Vec<u8> = Vec::new();
    ppm_header(&mut out, 400, 225);
    assert_eq!(out, b"P3\n400 225\n255\n".to_vec());
}

#[test]
fn header_for_single_digit_sizes() {
    let mut out: Vec<u8> = Vec::new();
    ppm_header(&mut out, 1, 9);
    assert_eq!(out, b"P3\n1 9\n255\n".to_vec());
}

#[test]
fn header_for_zero_size() {
    let mut out: Vec<u8> = Vec::new();
    ppm_header(&mut out, 0, 0);
    assert_eq!(out, b"P3\n0 0\n255\n".to_vec());
}

#[test]
fn header_for_largest_size() {
    let mut out: Vec<u8> = Vec::new();
    ppm_header(&mut out, u32::MAX, 10);
    assert_eq!(out, b"P3\n4294967295 10\n255\n".to_vec());
}

#[test]
fn header_is_appended_after_existing_bytes() {
    let mut out: Vec<u8> = b"#".to_vec();
    ppm_header(&mut out, 1920, 1080);
    assert_eq!(out, b"#P3\n1920 1080\n255\n".to_vec());
}

#[test]
fn header_matches_formatted_text() {
    for (w, h) in [(7u32, 100u32), (1000, 10), (65535, 4096), (12345, 67890)] {
        let mut out: Vec<u8> = Vec::new();
        ppm_header(&mut out, w, h);
        assert_eq!(out, format!("P3\n{} {}\n255\n", w, h).into_bytes());
    }
}
