use raytrace::camera::{image_size, ConfigError, RenderSettings};
use raytrace::image::Size;

#[test]
fn image_size_sixteen_by_nine() {
    assert_eq!(image_size(400, 16, 9), Ok(Size::new(400, 225)));
}

#[test]
fn image_size_rounds_height_down() {
    assert_eq!(image_size(100, 16, 9), Ok(Size::new(100, 56)));
    assert_eq!(image_size(10, 3, 1), Ok(Size::new(10, 3)));
}

#[test]
fn image_size_tall_image() {
    assert_eq!(image_size(9, 9, 16), Ok(Size::new(9, 16)));
}

#[test]
fn image_size_zero_width() {
    assert_eq!(image_size(0, 16, 9), Err(ConfigError::ZeroWidth));
}

#[test]
fn image_size_degenerate_aspect() {
    assert_eq!(image_size(400, 0, 9), Err(ConfigError::DegenerateAspectRatio));
    assert_eq!(image_size(400, 16, 0), Err(ConfigError::DegenerateAspectRatio));
}

#[test]
fn image_size_zero_height() {
    assert_eq!(image_size(3, 16, 1), Err(ConfigError::ZeroHeight));
}

#[test]
fn image_size_too_large() {
    assert_eq!(image_size(usize::MAX, 1, 1), Err(ConfigError::TooLarge));
    assert_eq!(image_size(2, 1, usize::MAX), Err(ConfigError::TooLarge));
}

#[test]
fn image_size_large_aspect_sides_do_not_overflow() {
    assert_eq!(image_size(1000, usize::MAX, usize::MAX / 2), Ok(Size::new(1000, 499)));
}

#[test]
fn render_settings_need_a_sample() {
    assert_eq!(RenderSettings::new(0, 50), Err(ConfigError::NoSamples));
    let s = RenderSettings::new(500, 50).unwrap();
    assert_eq!(s.samples_per_pixel(), 500);
    assert_eq!(s.max_depth(), 50);
    let no_bounces = RenderSettings::new(1, 0).unwrap();
    assert_eq!(no_bounces.max_depth(), 0);
}
