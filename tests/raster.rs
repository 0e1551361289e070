use raytracer::raster::{channel_byte, pixel_of, position};

#[test]
fn raster_starts_at_top_left() {
    assert_eq!(pixel_of(0, 4, 3), (0, 2));
    assert_eq!(pixel_of(3, 4, 3), (3, 2));
    assert_eq!(pixel_of(4, 4, 3), (0, 1));
}

#[test]
fn raster_ends_at_bottom_right() {
    assert_eq!(pixel_of(11, 4, 3), (3, 0));
}

#[test]
fn raster_positions_round_trip() {
    let (nx, ny) = (5, 4);
    for k in 0..nx * ny {
        let (i, j) = pixel_of(k, nx, ny);
        assert_eq!(position(i, j, nx, ny), k);
    }
    assert_eq!(position(2, 0, 5, 4), 17);
}

#[test]
fn channel_byte_clamps() {
    assert_eq!(channel_byte(-5), 0);
    assert_eq!(channel_byte(0), 0);
    assert_eq!(channel_byte(128), 128);
    assert_eq!(channel_byte(255), 255);
    assert_eq!(channel_byte(256), 255);
    assert_eq!(channel_byte(i32::MAX), 255);
}
