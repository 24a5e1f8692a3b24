use chroma_forge::Color;

#[test]
fn test_hex_to_rgb() {
    let color = Color::from_hex("#FF5733").unwrap();
    assert_eq!(color.r, 255);
    assert_eq!(color.g, 87);
    assert_eq!(color.b, 51);
}

#[test]
fn test_rgb_to_hex() {
    let color = Color::from_rgb(255, 87, 51);
    assert_eq!(color.to_hex(), "#FF5733");
}

#[test]
fn test_short_hex() {
    let color = Color::from_hex("#F53").unwrap();
    assert_eq!(color.r, 255);
    assert_eq!(color.g, 85);
    assert_eq!(color.b, 51);
}

#[test]
fn test_hsl_conversion() {
    // 10.0 degrees, 100.0 percent, 60.0 percent, in tenths.
    let color = Color::from_hsl(100, 1000, 600).unwrap();
    let hsl = color.to_hsl();
    assert!((hsl.h as i32 - 100).abs() < 10);
    assert!((hsl.s as i32 - 1000).abs() < 10);
    assert!((hsl.l as i32 - 600).abs() < 10);
}

#[test]
fn test_color_blending() {
    let red = Color::red();
    let blue = Color::blue();
    let purple = red.blend(&blue, 500);

    assert_eq!(purple.r, 127);
    assert_eq!(purple.g, 0);
    assert_eq!(purple.b, 127);
}

#[test]
fn test_luminance() {
    assert!(Color::white().is_light());
    assert!(Color::black().is_dark());
}

#[test]
fn test_darken_lighten() {
    let color = Color::from_rgb(100, 100, 100);
    let darker = color.darken(500);
    let lighter = color.lighten(500);

    assert!(darker.r < color.r);
    assert!(lighter.r > color.r);
}

#[test]
fn test_cmyk_conversion() {
    // Should be red: 0%, 100%, 100%, 0%, in tenths of a percent.
    let color = Color::from_cmyk(0, 1000, 1000, 0).unwrap();
    assert_eq!(color.r, 255);
    assert_eq!(color.g, 0);
    assert_eq!(color.b, 0);
}

#[test]
fn test_minecraft_legacy_codes() {
    let red = Color::from_minecraft_code("§c").unwrap();
    assert_eq!(red.r, 255);
    assert_eq!(red.g, 85);
    assert_eq!(red.b, 85);

    let blue = Color::from_minecraft_code("&1").unwrap();
    assert_eq!(blue.r, 0);
    assert_eq!(blue.g, 0);
    assert_eq!(blue.b, 170);

    let yellow = Color::from_minecraft_code("e").unwrap();
    assert_eq!(yellow.r, 255);
    assert_eq!(yellow.g, 255);
    assert_eq!(yellow.b, 85);
}

#[test]
fn test_minecraft_hex_codes() {
    let color = Color::from_minecraft_code("&#FF5733").unwrap();
    assert_eq!(color.r, 255);
    assert_eq!(color.g, 87);
    assert_eq!(color.b, 51);

    let color2 = Color::from_minecraft_code("&x&F&F&5&7&3&3").unwrap();
    assert_eq!(color2.r, 255);
    assert_eq!(color2.g, 87);
    assert_eq!(color2.b, 51);
}

#[test]
fn test_minecraft_code_conversion() {
    let color = Color::from_rgb(255, 85, 85);
    let mc_code = color.to_minecraft_code();
    assert_eq!(mc_code, "§c");

    let hex_code = color.to_minecraft_hex();
    assert_eq!(hex_code, "&#FF5555");

    let alt_hex = color.to_minecraft_hex_alt();
    assert_eq!(alt_hex, "&x&F&F&5&5&5&5");
}

#[test]
fn test_minecraft_constants() {
    assert_eq!(Color::mc_red().r, 255);
    assert_eq!(Color::mc_red().g, 85);
    assert_eq!(Color::mc_red().b, 85);

    assert_eq!(Color::mc_gold().r, 255);
    assert_eq!(Color::mc_gold().g, 170);
    assert_eq!(Color::mc_gold().b, 0);
}
