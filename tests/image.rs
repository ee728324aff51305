use terrain_mesh::{
    height_grid_of, load_height_grid, load_png_image, DecodedImage, LoadError,
};

fn encode_png(width: u32, height: u32, color: png::ColorType, data: &[u8]) -> Vec<u8> {
    let mut bytes = Vec::new();
    {
        let mut encoder = png::Encoder::new(&mut bytes, width, height);
        encoder.set_color(color);
        encoder.set_depth(png::BitDepth::Eight);
        let mut writer = encoder.write_header().unwrap();
        writer.write_image_data(data).unwrap();
    }
    bytes
}

#[test]
fn greyscale_png_becomes_grid() {
    let bytes = encode_png(2, 2, png::ColorType::Grayscale, &[0, 255, 255, 0]);
    let grid = load_height_grid(&bytes).unwrap();
    assert_eq!((grid.width, grid.height), (2, 2));
    assert_eq!(grid.samples, vec![0, 255, 255, 0]);
}

#[test]
fn decoded_image_keeps_size_and_pixels() {
    let data: Vec<u8> = (0..3 * 2 * 4).map(|i| i as u8).collect();
    let bytes = encode_png(3, 2, png::ColorType::Rgba, &data);
    let image = load_png_image(&bytes).unwrap();
    assert_eq!((image.width, image.height), (3, 2));
    assert_eq!(image.pixels, data);
    let grid = height_grid_of(&image).unwrap();
    assert_eq!(grid.samples, vec![0, 1, 2, 3, 4, 5]);
}

#[test]
fn non_png_bytes_fail_to_decode() {
    assert!(matches!(load_png_image(b"not a png file"), Err(LoadError::Decode)));
    assert!(matches!(load_height_grid(&[]), Err(LoadError::Decode)));
}

#[test]
fn short_pixel_buffer_is_rejected() {
    let image = DecodedImage { width: 4, height: 4, pixels: vec![0; 15] };
    assert!(matches!(height_grid_of(&image), Err(LoadError::ShortPixelBuffer)));
}
