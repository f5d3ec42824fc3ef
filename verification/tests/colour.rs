use scene3d::model::colour::{Colour, CHANNEL_MAX};

#[test]
fn colour_channels_are_returned_in_order() {
    let c = Colour::new(1, 2, 3, 4);
    assert_eq!(c.r(), 1);
    assert_eq!(c.g(), 2);
    assert_eq!(c.b(), 3);
    assert_eq!(c.a(), 4);
}

#[test]
fn colour_keeps_extreme_channels() {
    let c = Colour::new(0, 255, 0, 255);
    assert_eq!((c.r(), c.g(), c.b(), c.a()), (0, 255, 0, 255));
}

#[test]
fn colour_is_a_copyable_value() {
    let c = Colour::new(0xFF, 0x00, 0xFF, 0xFF);
    let d = c;
    assert_eq!(c, d);
    assert_ne!(c, Colour::new(0xFF, 0x00, 0xFF, 0xFE));
}

#[test]
fn colour_channels_normalise_by_the_channel_maximum() {
    assert_eq!(CHANNEL_MAX, 255);
    let bytes: [u8; 5] = [0, 51, 102, 153, 255];
    let wanted: [f32; 5] = [0.0, 0.2, 0.4, 0.6, 1.0];
    for i in 0..5 {
        let c = Colour::new(bytes[i], bytes[i], bytes[i], bytes[i]);
        for channel in [c.r(), c.g(), c.b(), c.a()] {
            let normalised = channel as f32 / CHANNEL_MAX as f32;
            assert!((normalised - wanted[i]).abs() < 1e-6);
        }
    }
}
