use ray_tracer::canvas::Canvas;
use ray_tracer::color::Color;

#[test]
fn a_new_canvas_is_black() {
    let c = Canvas::<f32>::new(10, 20);
    assert_eq!((c.width(), c.height()), (10, 20));
    for y in 0..20 {
        for x in 0..10 {
            let p = c.pixel_at(x, y).unwrap();
            assert_eq!((p.red, p.green, p.blue), (0.0, 0.0, 0.0));
        }
    }
}

#[test]
fn writing_a_pixel_changes_that_pixel_alone() {
    let mut c = Canvas::<f32>::new(3, 2);
    c.write_pixel(2, 1, Color::new(1.0, 0.5, 0.25));
    for y in 0..2 {
        for x in 0..3 {
            let p = c.pixel_at(x, y).unwrap();
            if (x, y) == (2, 1) {
                assert_eq!((p.red, p.green, p.blue), (1.0, 0.5, 0.25));
            } else {
                assert_eq!((p.red, p.green, p.blue), (0.0, 0.0, 0.0));
            }
        }
    }
}

#[test]
fn pixels_are_stored_row_by_row() {
    let mut c = Canvas::<i32>::new(3, 2);
    c.write_pixel(0, 1, Color::new(7, 8, 9));
    c.write_pixel(1, 0, Color::new(1, 2, 3));
    assert_eq!(c.pixel_at(0, 1).unwrap().red, 7);
    assert_eq!(c.pixel_at(1, 0).unwrap().red, 1);
    assert_eq!(c.pixel_at(2, 0).unwrap().red, 0);
}

#[test]
fn writing_outside_the_canvas_changes_nothing() {
    let mut c = Canvas::<f32>::new(3, 2);
    c.write_pixel(3, 0, Color::new(1.0, 1.0, 1.0));
    c.write_pixel(0, 2, Color::new(1.0, 1.0, 1.0));
    for y in 0..2 {
        for x in 0..3 {
            assert_eq!(c.pixel_at(x, y).unwrap().red, 0.0);
        }
    }
}

#[test]
fn bounds_of_a_canvas() {
    let c = Canvas::<f32>::new(3, 2);
    assert!(c.is_in_bound(0, 0));
    assert!(c.is_in_bound(2, 1));
    assert!(!c.is_in_bound(3, 1));
    assert!(!c.is_in_bound(2, 2));
    assert!(c.pixel_at(3, 1).is_none());
    assert!(c.pixel_at(2, 2).is_none());
}
