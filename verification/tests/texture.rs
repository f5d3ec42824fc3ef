use scene3d::model::texture::{Texture, BYTES_PER_PIXEL};

#[test]
fn texture_new_keeps_what_it_is_given() {
    let t = Texture::new(2, 3, vec![7u8; 24]);
    assert_eq!(t.width(), 2);
    assert_eq!(t.height(), 3);
    assert_eq!(t.data(), &vec![7u8; 24]);
}

#[test]
fn texture_is_well_formed_when_it_holds_four_bytes_a_texel() {
    assert_eq!(BYTES_PER_PIXEL, 4);
    assert!(Texture::new(2, 3, vec![0u8; 24]).is_well_formed());
    assert!(Texture::new(64, 64, vec![0u8; 64 * 64 * 4]).is_well_formed());
    assert!(Texture::new(1, 1, vec![1, 2, 3, 4]).is_well_formed());
}

#[test]
fn texture_with_a_short_or_long_buffer_is_not_well_formed() {
    assert!(!Texture::new(2, 3, vec![0u8; 23]).is_well_formed());
    assert!(!Texture::new(2, 3, vec![0u8; 25]).is_well_formed());
    assert!(!Texture::new(2, 3, Vec::new()).is_well_formed());
    assert!(!Texture::new(512, 512, vec![0u8; 64 * 64 * 4]).is_well_formed());
}

#[test]
fn texture_without_texels_is_well_formed_only_when_empty() {
    assert!(Texture::new(0, 0, Vec::new()).is_well_formed());
    assert!(Texture::new(0, 9, Vec::new()).is_well_formed());
    assert!(!Texture::new(0, 9, vec![0u8; 4]).is_well_formed());
}

#[test]
fn texture_of_the_largest_size_does_not_overflow_the_check() {
    assert!(!Texture::new(u16::MAX, u16::MAX, vec![0u8; 16]).is_well_formed());
}

#[test]
fn transparent_texture_is_all_zero_and_well_formed() {
    let t = Texture::transparent(64, 64);
    assert_eq!(t.width(), 64);
    assert_eq!(t.height(), 64);
    assert_eq!(t.data().len(), 16384);
    assert!(t.data().iter().all(|b| *b == 0));
    assert!(t.is_well_formed());
}

#[test]
fn transparent_texture_of_no_size_is_empty() {
    let t = Texture::transparent(0, 5);
    assert!(t.data().is_empty());
    assert!(t.is_well_formed());
}
