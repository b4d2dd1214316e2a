use ray_tracer::canvas::Canvas;
use ray_tracer::ppm::{push_decimal, push_pixel, to_ppm_format};

fn text(bytes: Vec<u8>) -> String {
    String::from_utf8(bytes).unwrap()
}

#[test]
fn decimal_digits() {
    let cases = [(0usize, "0"), (7, "7"), (10, "10"), (255, "255"), (900, "900"), (12345, "12345")];
    for (n, expected) in cases {
        let mut out = Vec::new();
        push_decimal(&mut out, n);
        assert_eq!(text(out), expected);
    }
}

#[test]
fn decimal_digits_are_appended() {
    let mut out = b"x=".to_vec();
    push_decimal(&mut out, 42);
    assert_eq!(text(out), "x=42");
}

#[test]
fn a_pixel_is_three_numbers_and_three_spaces() {
    let mut out = Vec::new();
    push_pixel(&mut out, (255, 0, 128));
    assert_eq!(text(out), "255 0 128 ");
}

#[test]
fn an_empty_picture_is_its_header_and_a_line_feed() {
    assert_eq!(text(to_ppm_format(5, 3, &vec![])), "P3\n5 3\n255\n\n");
}

#[test]
fn a_picture_holds_its_pixels_on_one_line() {
    let pixels = vec![(255, 0, 0), (0, 128, 0), (0, 0, 255), (1, 2, 3)];
    assert_eq!(
        text(to_ppm_format(2, 2, &pixels)),
        "P3\n2 2\n255\n255 0 0 0 128 0 0 0 255 1 2 3 \n"
    );
}

#[test]
fn a_canvas_writes_its_own_size() {
    let c = Canvas::<f32>::new(900, 550);
    let t = text(c.to_ppm_format(&vec![(9, 8, 7)]));
    assert_eq!(t, "P3\n900 550\n255\n9 8 7 \n");
}
