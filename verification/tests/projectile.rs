use ray_tracer::projectile::Projectile;
use ray_tracer::tuple::{Environment, Tuple};

#[test]
fn an_environment_holds_vectors() {
    let e = Environment::<f32>::new(
        Tuple::new(0.0, -0.1, 0.0, 5.0),
        Tuple::new(-0.01, 0.0, 0.0, 7.0),
    );
    assert_eq!((e.gravity.x, e.gravity.y, e.gravity.z, e.gravity.w), (0.0, -0.1, 0.0, 0.0));
    assert_eq!((e.wind.x, e.wind.y, e.wind.z, e.wind.w), (-0.01, 0.0, 0.0, 0.0));
}

#[test]
fn a_projectile_is_a_point_with_a_vector() {
    let p = Projectile::<f32>::new(Tuple::new(0.0, 1.0, 0.0, 9.0), Tuple::new(1.0, 1.0, 0.0, 9.0));
    assert!(p.point.is_a_point());
    assert!(p.velocity.is_a_vector());
    assert_eq!((p.point.x, p.point.y, p.point.z), (0.0, 1.0, 0.0));
    assert_eq!((p.velocity.x, p.velocity.y, p.velocity.z), (1.0, 1.0, 0.0));
}

#[test]
fn a_tick_moves_the_point_and_changes_the_velocity() {
    let p = Projectile::<i64>::new(Tuple::new_point(0, 10, 0), Tuple::new_vector(3, 2, 0));
    let e = Environment::<i64>::new(Tuple::new_vector(0, -1, 0), Tuple::new_vector(-1, 0, 0));
    let q = p.tick(&e);
    assert_eq!((q.point.x, q.point.y, q.point.z, q.point.w), (3, 12, 0, 1));
    assert_eq!((q.velocity.x, q.velocity.y, q.velocity.z, q.velocity.w), (2, 1, 0, 0));
    let r = q.tick(&e);
    assert_eq!((r.point.x, r.point.y, r.point.z, r.point.w), (5, 13, 0, 1));
    assert_eq!((r.velocity.x, r.velocity.y, r.velocity.z, r.velocity.w), (1, 0, 0, 0));
}

#[test]
fn a_projectile_under_gravity_comes_down() {
    let mut p =
        Projectile::<f32>::new(Tuple::new_point(0.0, 1.0, 0.0), Tuple::new_vector(1.0, 1.0, 0.0));
    let e = Environment::new(Tuple::new_vector(0.0, -0.1, 0.0), Tuple::new_vector(-0.01, 0.0, 0.0));
    let mut ticks = 0;
    while p.point.y > 0.0 {
        p = p.tick(&e);
        ticks += 1;
        assert!(ticks < 1000);
    }
    assert_eq!(ticks, 22);
}
