use raytracer::materials::{boundary_side, choose_scatter, Scatter, Side};
use raytracer::order::order_key;

fn key(x: f32) -> u32 {
    order_key(x.to_bits())
}

#[test]
fn boundary_side_by_sign_of_dot() {
    assert_eq!(boundary_side(key(0.3)), Side::Exiting);
    assert_eq!(boundary_side(key(1.0e-30)), Side::Exiting);
    assert_eq!(boundary_side(key(0.0)), Side::Entering);
    assert_eq!(boundary_side(key(-0.0)), Side::Entering);
    assert_eq!(boundary_side(key(-0.7)), Side::Entering);
}

#[test]
fn total_internal_reflection_always_reflects() {
    // Exiting glass (eta = 1.5) at sin(theta) = 0.9, past the critical angle.
    let eta: f32 = 1.5;
    let cos_i: f32 = (1.0f32 - 0.81).sqrt();
    let discriminant = 1.0 - eta * eta * (1.0 - cos_i * cos_i);
    assert!(discriminant < 0.0);
    for draw in [0.0f32, 0.25, 0.5, 0.999] {
        for reflectance in [0.0f32, 0.04, 0.5] {
            assert_eq!(
                choose_scatter(discriminant >= 0.0, key(draw), key(reflectance)),
                Scatter::Reflect
            );
        }
    }
}

#[test]
fn draw_below_reflectance_reflects() {
    assert_eq!(choose_scatter(true, key(0.01), key(0.04)), Scatter::Reflect);
}

#[test]
fn draw_at_or_above_reflectance_refracts() {
    assert_eq!(choose_scatter(true, key(0.04), key(0.04)), Scatter::Refract);
    assert_eq!(choose_scatter(true, key(0.6), key(0.04)), Scatter::Refract);
}
