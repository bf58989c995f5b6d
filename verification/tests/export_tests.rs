use sims_textures::from_pixels;
use sims_textures::from_rgba_export;
use sims_textures::resolve_alpha;
use sims_textures::to_rgba_export;

#[test]
fn export_keeps_dimensions() {
    let image = from_pixels(3, 2, vec![7u8; 24]).unwrap();
    let exported = to_rgba_export(image).unwrap();
    let back = from_rgba_export(exported);
    assert_eq!(back.width, 3);
    assert_eq!(back.height, 2);
}

#[test]
fn export_keeps_pixel_bytes() {
    let data: Vec<u8> = (0u8..32).collect();
    let image = from_pixels(4, 2, data.clone()).unwrap();
    let exported = to_rgba_export(image).unwrap();
    let back = from_rgba_export(exported);
    assert_eq!(back.data, data);
}

#[test]
fn export_rejects_a_malformed_grid() {
    // Built by hand around the checked constructor: one byte short.
    let mut image = from_pixels(2, 2, vec![1u8; 16]).unwrap();
    image.data.pop();
    assert!(to_rgba_export(image).is_none());
}

#[test]
fn export_round_trip_after_alpha_policy() {
    let mut image = from_pixels(1, 2, vec![1u8, 2, 3, 4, 5, 6, 7, 8]).unwrap();
    // An identifier from the exclusion set: alpha forced opaque, then the
    // exported bytes match the resolved image.
    resolve_alpha(&mut image, 10417810);
    let expected = image.data.clone();
    let back = from_rgba_export(to_rgba_export(image).unwrap());
    assert_eq!(back.data, expected);
    assert_eq!(back.data, vec![1u8, 2, 3, 255, 5, 6, 7, 255]);
}
