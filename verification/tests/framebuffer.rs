use voxel_tracer::Framebuffer;
use voxel_tracer::H;
use voxel_tracer::Rgba;
use voxel_tracer::SCALE;
use voxel_tracer::W;

#[test]
fn render_resolution_constants() {
    assert_eq!(W, 320);
    assert_eq!(H, 180);
    assert_eq!(SCALE, 4);
}

#[test]
fn framebuffer_starts_opaque_black() {
    let fb = Framebuffer::new(4, 3);
    for y in 0..3 {
        for x in 0..4 {
            let p = fb.pixel(x, y);
            assert_eq!((p.r, p.g, p.b, p.a), (0, 0, 0, 255));
        }
    }
}

#[test]
fn set_pixel_stores_and_leaves_the_rest() {
    let mut fb = Framebuffer::new(3, 2);
    let c = Rgba { r: 200, g: 100, b: 50, a: 255 };
    fb.set_pixel(1, 1, c);
    assert_eq!(fb.pixel(1, 1), c);
    for y in 0..2 {
        for x in 0..3 {
            if (x, y) != (1, 1) {
                assert_eq!(fb.pixel(x, y), Rgba { r: 0, g: 0, b: 0, a: 255 });
            }
        }
    }
}

#[test]
fn set_pixel_overwrites() {
    let mut fb = Framebuffer::new(2, 2);
    fb.set_pixel(0, 0, Rgba { r: 1, g: 2, b: 3, a: 4 });
    fb.set_pixel(0, 0, Rgba { r: 5, g: 6, b: 7, a: 8 });
    assert_eq!(fb.pixel(0, 0), Rgba { r: 5, g: 6, b: 7, a: 8 });
}

#[test]
fn rgba_bytes_follow_pixel_order() {
    let mut fb = Framebuffer::new(2, 2);
    fb.set_pixel(0, 0, Rgba { r: 10, g: 11, b: 12, a: 13 });
    fb.set_pixel(1, 0, Rgba { r: 20, g: 21, b: 22, a: 23 });
    fb.set_pixel(0, 1, Rgba { r: 30, g: 31, b: 32, a: 33 });
    fb.set_pixel(1, 1, Rgba { r: 40, g: 41, b: 42, a: 43 });
    let bytes = fb.to_rgba_bytes();
    assert_eq!(bytes.len(), 16);
    assert_eq!(&bytes[0..4], &[10, 11, 12, 13]);
    assert_eq!(&bytes[4..8], &[20, 21, 22, 23]);
    assert_eq!(&bytes[8..12], &[30, 31, 32, 33]);
    assert_eq!(&bytes[12..16], &[40, 41, 42, 43]);
}

#[test]
fn rgba_bytes_of_fresh_buffer() {
    let fb = Framebuffer::new(2, 1);
    let bytes = fb.to_rgba_bytes();
    assert_eq!(bytes, vec![0, 0, 0, 255, 0, 0, 0, 255]);
}
