use sims_textures::TextureError;
use sims_textures::alpha_excluded;
use sims_textures::from_pixels;
use sims_textures::preserve_alpha;
use sims_textures::resolve_alpha;

// Identifiers taken from the exclusion set (its first, a middle and its last
// entry in numeric order of the table), and two that are not in it.
const EXCLUDED_FIRST: u32 = 1007216883;
const EXCLUDED_MIDDLE: u32 = 2624754;
const EXCLUDED_LAST: u32 = 994659692;
const INCLUDED_SMALL: u32 = 1;
const INCLUDED_NEAR_MISS: u32 = 1007216884;

#[test]
fn excluded_identifiers_are_recognized() {
    assert!(alpha_excluded(EXCLUDED_FIRST));
    assert!(alpha_excluded(EXCLUDED_MIDDLE));
    assert!(alpha_excluded(EXCLUDED_LAST));
}

#[test]
fn other_identifiers_are_not_excluded() {
    assert!(!alpha_excluded(INCLUDED_SMALL));
    assert!(!alpha_excluded(INCLUDED_NEAR_MISS));
    assert!(!alpha_excluded(0));
    assert!(!alpha_excluded(u32::MAX));
}

#[test]
fn preserve_alpha_is_the_negation_of_exclusion() {
    assert!(!preserve_alpha(EXCLUDED_FIRST));
    assert!(!preserve_alpha(EXCLUDED_LAST));
    assert!(preserve_alpha(INCLUDED_SMALL));
    assert!(preserve_alpha(INCLUDED_NEAR_MISS));
}

#[test]
fn excluded_identifier_forces_every_alpha_opaque() {
    let data = vec![10u8, 20, 30, 40, 50, 60, 70, 80, 90, 100, 110, 0];
    let mut image = from_pixels(3, 1, data).unwrap();
    resolve_alpha(&mut image, EXCLUDED_MIDDLE);
    assert_eq!(image.width, 3);
    assert_eq!(image.height, 1);
    assert_eq!(
        image.data,
        vec![10u8, 20, 30, 255, 50, 60, 70, 255, 90, 100, 110, 255]
    );
}

#[test]
fn included_identifier_keeps_the_image_untouched() {
    let data = vec![10u8, 20, 30, 40, 50, 60, 70, 80];
    let mut image = from_pixels(2, 1, data.clone()).unwrap();
    resolve_alpha(&mut image, INCLUDED_SMALL);
    assert_eq!(image.data, data);
}

#[test]
fn resolve_alpha_on_empty_image_does_nothing() {
    let mut image = from_pixels(0, 0, Vec::new()).unwrap();
    resolve_alpha(&mut image, EXCLUDED_FIRST);
    assert!(image.data.is_empty());
}

#[test]
fn from_pixels_accepts_exactly_four_bytes_per_pixel() {
    let image = from_pixels(2, 2, vec![1u8; 16]).unwrap();
    assert_eq!(image.width, 2);
    assert_eq!(image.height, 2);
    assert_eq!(image.data, vec![1u8; 16]);
}

#[test]
fn from_pixels_rejects_a_short_buffer() {
    assert_eq!(
        from_pixels(2, 2, vec![1u8; 15]),
        Err(TextureError::MalformedRecord)
    );
}

#[test]
fn from_pixels_rejects_a_long_buffer() {
    assert_eq!(
        from_pixels(2, 2, vec![1u8; 17]),
        Err(TextureError::MalformedRecord)
    );
}
