use raytrace::image::{Image, Rgb8, Size, MAX_COLOR_CHANNEL};

fn text(image: &Image) -> String {
    String::from_utf8(image.to_ppm()).unwrap()
}

#[test]
fn size_len_is_width_times_height() {
    assert_eq!(Size::new(400, 225).len(), 90000);
    assert_eq!(Size::new(0, 7).len(), 0);
}

#[test]
fn pixel_coords_walk_rows_top_to_bottom() {
    let size = Size::new(3, 2);
    let coords: Vec<(usize, usize)> = (0..6).map(|i| size.pixel_coords(i)).collect();
    assert_eq!(coords, vec![(0, 0), (0, 1), (0, 2), (1, 0), (1, 1), (1, 2)]);
}

#[test]
fn pixel_index_inverts_pixel_coords() {
    let size = Size::new(7, 5);
    for i in 0..35 {
        let (row, col) = size.pixel_coords(i);
        assert_eq!(size.pixel_index(row, col), i);
    }
    assert_eq!(size.pixel_index(4, 6), 34);
}

#[test]
fn ppm_header_and_lines() {
    let pixels = vec![
        Rgb8::new(255, 0, 0),
        Rgb8::new(0, 128, 7),
        Rgb8::new(10, 99, 100),
        Rgb8::new(0, 0, 0),
        Rgb8::new(255, 255, 255),
        Rgb8::new(1, 2, 3),
    ];
    let image = Image::new(Size::new(3, 2), pixels);
    assert_eq!(
        text(&image),
        "P3\n3 2\n255\n255 0 0\n0 128 7\n10 99 100\n0 0 0\n255 255 255\n1 2 3\n"
    );
}

#[test]
fn ppm_of_empty_image_is_header_only() {
    let image = Image::new(Size::new(0, 0), Vec::new());
    assert_eq!(text(&image), "P3\n0 0\n255\n");
}

#[test]
fn ppm_has_one_line_per_pixel() {
    let size = Size::new(12, 10);
    let pixels: Vec<Rgb8> = (0..120u32).map(|i| Rgb8::new(i as u8, (i * 2) as u8, 200)).collect();
    let image = Image::new(size, pixels);
    let t = text(&image);
    let lines: Vec<&str> = t.lines().collect();
    assert_eq!(lines.len(), 3 + 120);
    assert_eq!(lines[0], "P3");
    assert_eq!(lines[1], "12 10");
    assert_eq!(lines[2], format!("{}", MAX_COLOR_CHANNEL));
    assert_eq!(lines[3], "0 0 200");
    assert_eq!(lines[3 + 119], "119 238 200");
}

#[test]
fn image_keeps_its_size() {
    let image = Image::new(Size::new(2, 1), vec![Rgb8::new(1, 1, 1), Rgb8::new(2, 2, 2)]);
    assert_eq!(image.size(), Size::new(2, 1));
}
