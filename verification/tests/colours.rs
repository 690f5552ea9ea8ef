use linbra::colours::{RGB, RGBA};
use linbra::vector::{Vector, Vector3, Vector4};

#[test]
fn no_implementation() {
    let colour: Vector3<u8> = [255, 100, 100].into();

    let red = colour.get(0);
    assert_eq!(255, red);
}

#[test]
fn implementation() {
    let colour: Vector3<u8> = [255, 100, 100].into();

    let red = colour.r();
    assert_eq!(255, red);
}

#[test]
fn rgb_constructor() {
    let colour = Vector3::<u8>::rgb(12, 34, 56);
    assert_eq!(colour, Vector::new([12, 34, 56]));
    assert_eq!(colour.r(), 12);
    assert_eq!(colour.g(), 34);
    assert_eq!(colour.b(), 56);
}

#[test]
fn rgba_constructor() {
    let colour = Vector4::<u8>::rgba(12, 34, 56, 78);
    assert_eq!(colour, Vector::new([12, 34, 56, 78]));
    assert_eq!(colour.r(), 12);
    assert_eq!(colour.g(), 34);
    assert_eq!(colour.b(), 56);
    assert_eq!(colour.a(), 78);
}

#[test]
fn hex_to_rgb() {
    let hex: u32 = 0xFF0000;
    let rgb: Vector3<u8> = hex.into();

    assert_eq!(255, rgb.r());
    assert_eq!(0, rgb.g());
    assert_eq!(0, rgb.b());
}

#[test]
fn rgb_to_hex() {
    let rgb: Vector3<u8> = [255, 0, 0].into();
    let hex: u32 = rgb.into();

    assert_eq!(0xFF0000, hex);
}

#[test]
fn hex_rgb_round_trip() {
    let rgb: Vector3<u8> = Vector3::<u8>::from_hex(0xFF0000);
    assert_eq!(rgb, Vector::new([255, 0, 0]));
    assert_eq!(rgb.to_hex(), 0xFF0000);

    let mixed: Vector3<u8> = Vector3::<u8>::from_hex(0x12AB34);
    assert_eq!(mixed, Vector::new([0x12, 0xAB, 0x34]));
    assert_eq!(mixed.to_hex(), 0x12AB34);
}

#[test]
fn hex_to_rgba() {
    let hex: u32 = 0xFF0000FF;
    let rgba: Vector4<u8> = hex.into();

    assert_eq!(255, rgba.r());
    assert_eq!(0, rgba.g());
    assert_eq!(0, rgba.b());
    assert_eq!(255, rgba.a());
}

#[test]
fn rgba_to_hex() {
    let rgba: Vector4<u8> = [255, 0, 0, 255].into();
    let hex: u32 = rgba.into();

    assert_eq!(0xFF0000FF, hex);
}

#[test]
fn hex_rgba_round_trip() {
    let rgba = Vector4::<u8>::from_hex(0xFF0000FF);
    assert_eq!(rgba, Vector::new([255, 0, 0, 255]));
    assert_eq!(rgba.to_hex(), 0xFF0000FF);

    let all_bits = Vector4::<u8>::from_hex(0xFFFFFFFF);
    assert_eq!(all_bits, Vector::new([255, 255, 255, 255]));
    assert_eq!(all_bits.to_hex(), 0xFFFFFFFF);

    let zero = Vector4::<u8>::from_hex(0x00000000);
    assert_eq!(zero, Vector::new([0, 0, 0, 0]));
    assert_eq!(zero.to_hex(), 0x00000000);
}

#[test]
fn rgb_hex_round_trip_every_channel() {
    let v: Vector3<u8> = [0x01, 0x80, 0xFE].into();
    let back = Vector3::<u8>::from_hex(v.to_hex());
    assert_eq!(back, v);

    let w: Vector4<u8> = [0x01, 0x80, 0xFE, 0x7F].into();
    let back4 = Vector4::<u8>::from_hex(w.to_hex());
    assert_eq!(back4, w);
}
