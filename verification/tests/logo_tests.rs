use gateway_logger::logo::Logo;
use gateway_logger::logo::Pixel;
use gateway_logger::logo::LOGO_DISPLAY_WIDTH;

fn png_of_one_color(width: u32, height: u32, rgba: [u8; 4]) -> Vec<u8> {
    let img = image::RgbaImage::from_pixel(width, height, image::Rgba(rgba));
    let mut cursor = std::io::Cursor::new(Vec::new());
    img.write_to(&mut cursor, image::ImageFormat::Png).unwrap();
    cursor.into_inner()
}

#[test]
fn decodes_a_valid_image() {
    let bytes = png_of_one_color(3, 2, [10, 20, 30, 255]);
    let logo = Logo::from_bytes(&bytes).unwrap();
    assert_eq!(logo.width, 3);
    assert_eq!(logo.height, 2);
    assert_eq!(logo.pixels.len(), 6);
    for p in &logo.pixels {
        assert_eq!(
            *p,
            Pixel { red: 10, green: 20, blue: 30, alpha: 255 }
        );
    }
}

#[test]
fn aspect_ratio_matches_the_dimensions() {
    let bytes = png_of_one_color(3, 2, [0, 0, 0, 255]);
    let logo = Logo::from_bytes(&bytes).unwrap();
    let (num, den) = logo.aspect_ratio_frac();
    assert_eq!((num, den), (3, 2));
    let aspect = num as f32 / den as f32;
    assert_eq!(aspect, 3.0 / 2.0);
}

#[test]
fn display_height_preserves_the_proportions() {
    let bytes = png_of_one_color(3, 2, [0, 0, 0, 255]);
    let logo = Logo::from_bytes(&bytes).unwrap();
    let (num, den) = logo.display_height_frac();
    assert_eq!((num, den), (60, 3));
    let height = num as f32 / den as f32;
    let aspect = 3.0_f32 / 2.0_f32;
    assert_eq!(height, LOGO_DISPLAY_WIDTH as f32 / aspect);
    assert_eq!(height, 20.0);
}

#[test]
fn each_pixel_keeps_its_place() {
    let mut img = image::RgbaImage::new(2, 1);
    img.put_pixel(0, 0, image::Rgba([1, 2, 3, 4]));
    img.put_pixel(1, 0, image::Rgba([5, 6, 7, 8]));
    let mut cursor = std::io::Cursor::new(Vec::new());
    img.write_to(&mut cursor, image::ImageFormat::Png).unwrap();
    let logo = Logo::from_bytes(&cursor.into_inner()).unwrap();
    assert_eq!(logo.pixels.len(), 2);
    assert_eq!(logo.pixels[0], Pixel { red: 1, green: 2, blue: 3, alpha: 4 });
    assert_eq!(logo.pixels[1], Pixel { red: 5, green: 6, blue: 7, alpha: 8 });
}

#[test]
fn malformed_bytes_are_fatal_to_the_loader() {
    assert!(Logo::from_bytes(&[]).is_none());
    assert!(Logo::from_bytes(&[0x00, 0x01, 0x02, 0x03]).is_none());
    let mut corrupted = png_of_one_color(2, 2, [9, 9, 9, 9]);
    corrupted.truncate(12);
    assert!(Logo::from_bytes(&corrupted).is_none());
}
