use mandelbrot::canvas::render;

#[test]
fn render_paints_each_pixel_with_its_shade() {
    let img = render(4, |x, y| (x as u8, y as u8, (10 * x + y) as u8));
    assert_eq!(img.width(), 4);
    assert_eq!(img.height(), 4);
    for x in 0..4u32 {
        for y in 0..4u32 {
            assert_eq!(img.pixel(x, y), Some((x as u8, y as u8, (10 * x + y) as u8)));
        }
    }
}

#[test]
fn pixel_outside_the_image_is_none() {
    let img = render(3, |_, _| (1, 2, 3));
    assert_eq!(img.pixel(3, 0), None);
    assert_eq!(img.pixel(0, 3), None);
    assert_eq!(img.pixel(2, 2), Some((1, 2, 3)));
}

#[test]
fn raw_bytes_follow_rows_then_channels() {
    let img = render(2, |x, y| ((x + 2 * y) as u8, 100 + (x + 2 * y) as u8, 200));
    let bytes = img.into_raw();
    assert_eq!(bytes, vec![0, 100, 200, 1, 101, 200, 2, 102, 200, 3, 103, 200]);
}

#[test]
fn raw_bytes_rebuild_the_same_image() {
    let img = render(5, |x, y| (x as u8, y as u8, 7));
    let rebuilt = image::RgbImage::from_raw(5, 5, img.into_raw()).unwrap();
    assert_eq!(rebuilt.get_pixel(4, 1), &image::Rgb([4u8, 1, 7]));
    assert_eq!(rebuilt.get_pixel(0, 3), &image::Rgb([0u8, 3, 7]));
}

#[test]
fn empty_render_has_no_bytes() {
    let img = render(0, |_, _| (9, 9, 9));
    assert_eq!(img.width(), 0);
    assert_eq!(img.pixel(0, 0), None);
    assert!(img.into_raw().is_empty());
}

#[test]
fn render_of_one_pixel() {
    let img = render(1, |x, y| (200 + x as u8, 100 + y as u8, 50));
    assert_eq!((img.width(), img.height()), (1, 1));
    assert_eq!(img.pixel(0, 0), Some((200, 100, 50)));
    assert_eq!(img.into_raw(), vec![200, 100, 50]);
}
