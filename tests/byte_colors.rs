use xcolor::{IntoRGB, IntoRGBA, RGB, RGBA};

#[test]
fn rgba_sum_wraps_and_keeps_left_alpha() {
    let a = RGBA::new(255u8, 255, 0, 255);
    let b = RGBA::from(0xFFFF00FFu32);
    assert_eq!(a + b, RGBA::new(254, 254, 0, 255));
}

#[test]
fn rgba_sum_takes_alpha_from_left_operand() {
    let a = RGBA::new(10u8, 20, 30, 7);
    let b = RGBA::new(1u8, 2, 3, 200);
    assert_eq!(a + b, RGBA::new(11, 22, 33, 7));
    assert_eq!(b + a, RGBA::new(11, 22, 33, 200));
}

#[test]
fn rgb_sum_wraps_modulo_256() {
    let a = RGB::new(200u8, 0, 255);
    let b = RGB::new(100u8, 0, 1);
    assert_eq!(a + b, RGB::new(44, 0, 0));
}

#[test]
fn rgb_difference_wraps_modulo_256() {
    let a = RGB::new(3u8, 200, 10);
    let b = RGB::new(5u8, 100, 10);
    assert_eq!(a - b, RGB::new(254, 100, 0));
}

#[test]
fn rgba_difference_wraps_and_keeps_alpha() {
    let a = RGBA::new(0u8, 1, 255, 9);
    let b = RGBA::new(1u8, 255, 0, 100);
    assert_eq!(a - b, RGBA::new(255, 2, 255, 9));
}

#[test]
fn rgb_product_wraps_modulo_256() {
    let a = RGB::new(16u8, 255, 3);
    let b = RGB::new(16u8, 255, 5);
    assert_eq!(a * b, RGB::new(0, 1, 15));
}

#[test]
fn rgba_product_wraps_and_keeps_alpha() {
    let a = RGBA::new(20u8, 2, 0, 77);
    let b = RGBA::new(13u8, 100, 9, 0);
    assert_eq!(a * b, RGBA::new(4, 200, 0, 77));
}

#[test]
fn rgb_quotient_rounds_down() {
    let a = RGB::new(3u8, 200, 10);
    let b = RGB::new(2u8, 7, 11);
    assert_eq!(a / b, RGB::new(1, 28, 0));
}

#[test]
fn rgba_quotient_rounds_down_and_keeps_alpha() {
    let a = RGBA::new(255u8, 9, 100, 12);
    let b = RGBA::new(1u8, 3, 101, 0);
    assert_eq!(a / b, RGBA::new(255, 3, 0, 12));
}

#[test]
fn rgb_gray_uses_integer_weights() {
    assert_eq!(RGB::new(255u8, 255, 255).to_gray(), 255);
    assert_eq!(RGB::new(0u8, 0, 0).to_gray(), 0);
    // (100 * 28 + 50 * 151 + 200 * 77) / 256 = 25750 / 256 = 100
    assert_eq!(RGB::new(100u8, 50, 200).to_gray(), 100);
}

#[test]
fn rgba_gray_ignores_alpha() {
    // (128 * 28 + 133 * 151) / 256 = 23667 / 256 = 92
    assert_eq!(RGBA::new(128u8, 133, 0, 128).to_gray(), 92);
    assert_eq!(RGBA::new(128u8, 133, 0, 0).to_gray(), 92);
}

#[test]
fn rgba_unpacks_and_repacks_exactly() {
    let c = RGBA::from(0x00FF0080u32);
    assert_eq!(c, RGBA::new(0, 255, 0, 128));
    assert_eq!(c.as_u32(), 0x00FF0080);
    let v: u32 = c.into();
    assert_eq!(v, 0x00FF0080);
}

#[test]
fn rgba_packing_round_trips() {
    for v in [0u32, 1, 0x12345678, 0x80000000, 0xFFFFFFFF] {
        assert_eq!(RGBA::from(v).as_u32(), v);
    }
    for c in [RGBA::new(0u8, 0, 0, 0), RGBA::new(1u8, 2, 3, 4), RGBA::new(255u8, 255, 255, 255)] {
        assert_eq!(RGBA::from(c.as_u32()), c);
    }
}

#[test]
fn rgb_unpacking_ignores_highest_byte() {
    let c = RGB::from(0xAB123456u32);
    assert_eq!(c, RGB::new(0x12, 0x34, 0x56));
    assert_eq!(c.as_u32(), 0x00123456);
}

#[test]
fn rgb_packing_round_trips() {
    for c in [RGB::new(0u8, 0, 0), RGB::new(1u8, 2, 3), RGB::new(255u8, 255, 255)] {
        assert_eq!(RGB::from(c.as_u32()), c);
        let v: u32 = c.into();
        assert_eq!(v, c.as_u32());
    }
    assert_eq!(RGB::new(0xFFu8, 0xFF, 0).as_u32(), 0x00FFFF00);
}

#[test]
fn accessors_return_channels() {
    let c = RGBA::new(1u8, 2, 3, 4);
    assert_eq!((c.r(), c.g(), c.b(), c.a()), (1, 2, 3, 4));
    let d = RGB::new(5u8, 6, 7);
    assert_eq!((d.r(), d.g(), d.b()), (5, 6, 7));
}

#[test]
fn four_channels_from_three_and_back() {
    let rgb = RGB::new(9u8, 8, 7);
    let rgba = RGBA::from_rgb(&rgb, 6);
    assert_eq!(rgba, RGBA::new(9, 8, 7, 6));
    assert_eq!(rgba.rgb(), rgb);
    assert_eq!(RGB::from(rgba), rgb);
}

#[test]
fn tuples_convert_into_colors() {
    assert_eq!((1u8, 2u8, 3u8).into_rgb(), RGB::new(1, 2, 3));
    assert_eq!((1u8, 2u8, 3u8, 4u8).into_rgba(), RGBA::new(1, 2, 3, 4));
}

#[test]
fn default_color_is_zero() {
    assert_eq!(RGB::<u8>::default(), RGB::new(0, 0, 0));
    assert_eq!(RGBA::<u8>::default(), RGBA::new(0, 0, 0, 0));
}

#[test]
fn colors_order_by_channels() {
    assert!(RGB::new(1u8, 0, 0) > RGB::new(0u8, 255, 255));
    assert!(RGBA::new(1u8, 2, 3, 4) < RGBA::new(1u8, 2, 3, 5));
}
