use chroma_forge::Color;
use chroma_forge::ColorError;

#[test]
fn test_hex_without_hash() {
    let color = Color::from_hex("FF5733").unwrap();
    assert_eq!(color.r, 255);
    assert_eq!(color.g, 87);
    assert_eq!(color.b, 51);
    assert_eq!(color.a, 1000);
}

#[test]
fn test_hex_with_alpha() {
    let opaque = Color::from_hex("#FF5733FF").unwrap();
    assert_eq!(opaque.a, 1000);

    let half = Color::from_hex("#FF573380").unwrap();
    assert_eq!(half.r, 255);
    assert_eq!(half.g, 87);
    assert_eq!(half.b, 51);
    // 0x80 = 128; 128 * 1000 / 255 rounds to 502 thousandths.
    assert_eq!(half.a, 502);
}

#[test]
fn test_to_hex_alpha() {
    assert_eq!(Color::from_rgba(10, 20, 30, 1000).to_hex_alpha(), "#0A141EFF");
    // 502 thousandths scale back to the byte 0x80.
    assert_eq!(Color::from_rgba(255, 87, 51, 502).to_hex_alpha(), "#FF573380");
}

#[test]
fn test_hex_round_trip_samples() {
    for samples in [(0u8, 0u8, 0u8), (255, 255, 255), (138, 43, 226), (1, 2, 3)] {
        let (r, g, b) = samples;
        let back = Color::from_hex(&Color::from_rgb(r, g, b).to_hex()).unwrap();
        assert_eq!((back.r, back.g, back.b), (r, g, b));
    }
}

#[test]
fn test_hex_errors() {
    assert_eq!(Color::from_hex(""), Err(ColorError::InvalidHexLength));
    assert_eq!(Color::from_hex("#FF57"), Err(ColorError::InvalidHexLength));
    assert_eq!(Color::from_hex("#FF5733AABB"), Err(ColorError::InvalidHexLength));
    assert_eq!(Color::from_hex("#GG5733"), Err(ColorError::InvalidHexFormat));
    assert_eq!(Color::from_hex("#F5X"), Err(ColorError::InvalidHexFormat));
    assert_eq!(Color::from_hex("#12345G78"), Err(ColorError::InvalidHexFormat));
}

#[test]
fn test_rgba_clamping() {
    assert_eq!(Color::from_rgba(1, 2, 3, 1500).a, 1000);
    assert_eq!(Color::from_rgba(1, 2, 3, -5).a, 0);
    assert_eq!(Color::from_rgba(1, 2, 3, 700).a, 700);
}

#[test]
fn test_rgb_projection() {
    let c = Color::from_hex("#8A2BE2").unwrap();
    let rgb = c.to_rgb();
    assert_eq!((rgb.r, rgb.g, rgb.b), (c.r, c.g, c.b));
    assert_eq!((rgb.r, rgb.g, rgb.b), (138, 43, 226));
}

#[test]
fn test_hsl_exact_values() {
    // 10.0 degrees, 100.0 percent, 60.0 percent.
    let c = Color::from_hsl(100, 1000, 600).unwrap();
    assert_eq!((c.r, c.g, c.b), (255, 85, 51));

    let red = Color::red().to_hsl();
    assert_eq!((red.h, red.s, red.l), (0, 1000, 500));
}

#[test]
fn test_hsl_hue_wraps() {
    let a = Color::from_hsl(-600, 1000, 500).unwrap();
    let b = Color::from_hsl(3000, 1000, 500).unwrap();
    assert_eq!((a.r, a.g, a.b), (b.r, b.g, b.b));

    let c = Color::from_hsl(3700, 1000, 500).unwrap();
    let d = Color::from_hsl(100, 1000, 500).unwrap();
    assert_eq!((c.r, c.g, c.b), (d.r, d.g, d.b));
}

#[test]
fn test_hsl_errors() {
    assert_eq!(Color::from_hsl(0, 1001, 500), Err(ColorError::InvalidHslValue));
    assert_eq!(Color::from_hsl(0, 500, -1), Err(ColorError::InvalidHslValue));
}

#[test]
fn test_hsv_exact_values() {
    let red = Color::from_hsv(0, 1000, 1000).unwrap();
    assert_eq!((red.r, red.g, red.b), (255, 0, 0));

    let green = Color::from_hsv(1200, 1000, 1000).unwrap();
    assert_eq!((green.r, green.g, green.b), (0, 255, 0));

    // 30.0 degrees, 50.0 percent, 80.0 percent.
    let tan = Color::from_hsv(300, 500, 800).unwrap();
    assert_eq!((tan.r, tan.g, tan.b), (204, 153, 102));

    let view = Color::red().to_hsv();
    assert_eq!((view.h, view.s, view.v), (0, 1000, 1000));
}

#[test]
fn test_hsv_errors() {
    assert_eq!(Color::from_hsv(0, -1, 500), Err(ColorError::InvalidHsvValue));
    assert_eq!(Color::from_hsv(0, 500, 1001), Err(ColorError::InvalidHsvValue));
}

#[test]
fn test_cmyk_exact_values() {
    // 20.0%, 30.0%, 40.0%, 10.0%.
    let c = Color::from_cmyk(200, 300, 400, 100).unwrap();
    assert_eq!((c.r, c.g, c.b), (184, 161, 138));

    let red_view = Color::red().to_cmyk();
    assert_eq!((red_view.c, red_view.m, red_view.y, red_view.k), (0, 1000, 1000, 0));

    let black_view = Color::black().to_cmyk();
    assert_eq!((black_view.c, black_view.m, black_view.y, black_view.k), (0, 0, 0, 1000));
}

#[test]
fn test_cmyk_errors() {
    assert_eq!(Color::from_cmyk(-1, 0, 0, 0), Err(ColorError::InvalidCmykValue));
    assert_eq!(Color::from_cmyk(0, 0, 0, 1001), Err(ColorError::InvalidCmykValue));
}

#[test]
fn test_luminance_exact() {
    assert_eq!(Color::white().luminance(), 1000);
    assert_eq!(Color::black().luminance(), 0);
    assert_eq!(Color::red().luminance(), 299);
    assert_eq!(Color::green().luminance(), 587);
    assert_eq!(Color::blue().luminance(), 114);
}

#[test]
fn test_is_dark_threshold() {
    assert!(Color::from_rgb(127, 127, 127).is_dark());
    assert!(Color::from_rgb(128, 128, 128).is_light());
}

#[test]
fn test_contrasting_text_color() {
    let on_black = Color::black().contrasting_text_color();
    assert_eq!((on_black.r, on_black.g, on_black.b), (255, 255, 255));

    let on_white = Color::white().contrasting_text_color();
    assert_eq!((on_white.r, on_white.g, on_white.b), (0, 0, 0));
}

#[test]
fn test_blend_boundaries() {
    let c1 = Color::from_rgba(12, 34, 56, 700);
    let c2 = Color::from_rgba(200, 100, 50, 300);

    let at_zero = c1.blend(&c2, 0);
    assert_eq!((at_zero.r, at_zero.g, at_zero.b, at_zero.a), (12, 34, 56, 700));

    let at_one = c1.blend(&c2, 1000);
    assert_eq!((at_one.r, at_one.g, at_one.b, at_one.a), (200, 100, 50, 300));

    // The ratio is clamped.
    let below = c1.blend(&c2, -400);
    assert_eq!((below.r, below.g, below.b, below.a), (12, 34, 56, 700));
    let above = c1.blend(&c2, 4000);
    assert_eq!((above.r, above.g, above.b, above.a), (200, 100, 50, 300));
}

#[test]
fn test_darken_lighten_exact() {
    let c = Color::from_rgba(10, 20, 30, 700);
    let darker = c.darken(300);
    assert_eq!((darker.r, darker.g, darker.b), (7, 14, 21));
    assert_eq!(darker.a, 700);

    let lighter = c.lighten(300);
    // Each channel moves toward 255 by 30% of its headroom.
    assert_eq!((lighter.r, lighter.g, lighter.b), (84, 91, 98));
    assert_eq!(lighter.a, 700);

    // Zero percent changes nothing; full percent reaches the boundary.
    let same = c.darken(0);
    assert_eq!((same.r, same.g, same.b), (10, 20, 30));
    let black = c.darken(1000);
    assert_eq!((black.r, black.g, black.b), (0, 0, 0));
    let white = c.lighten(1000);
    assert_eq!((white.r, white.g, white.b), (255, 255, 255));
}

#[test]
fn test_darken_lighten_thresholds() {
    // A decrease of exactly half a unit rounds back up: the channel stays.
    assert_eq!(Color::from_rgb(1, 1, 1).darken(500).r, 1);
    // Just past the threshold the channel drops.
    assert_eq!(Color::from_rgb(2, 2, 2).darken(500).r, 1);
    // A rise of exactly half a unit rounds up: the channel grows.
    assert_eq!(Color::from_rgb(254, 254, 254).lighten(500).r, 255);
    // A channel at the boundary stays there.
    assert_eq!(Color::from_rgb(255, 0, 0).lighten(500).r, 255);
    assert_eq!(Color::from_rgb(0, 1, 2).darken(500).r, 0);
}

#[test]
fn test_minecraft_code_errors() {
    assert_eq!(Color::from_minecraft_code(""), Err(ColorError::InvalidMinecraftCode));
    assert_eq!(Color::from_minecraft_code("§z"), Err(ColorError::InvalidMinecraftCode));
    assert_eq!(Color::from_minecraft_code("xyz"), Err(ColorError::InvalidMinecraftCode));
    assert_eq!(Color::from_minecraft_code("&#FF57"), Err(ColorError::InvalidMinecraftCode));
    // The hex dialects report hex errors.
    assert_eq!(Color::from_minecraft_code("&#GG5733"), Err(ColorError::InvalidHexFormat));
    // The prefixed legacy form is exactly two characters.
    assert_eq!(Color::from_minecraft_code("§cc"), Err(ColorError::InvalidMinecraftCode));
}

#[test]
fn test_hex_single_hash_stripped() {
    // Exactly one leading `#` is optional; a second one is part of the body.
    assert_eq!(Color::from_hex("##FF5733"), Err(ColorError::InvalidHexLength));
    assert_eq!(Color::from_hex("##F5733"), Err(ColorError::InvalidHexFormat));
}

#[test]
fn test_minecraft_case_insensitive() {
    let lower = Color::from_minecraft_code("§c").unwrap();
    let upper = Color::from_minecraft_code("§C").unwrap();
    assert_eq!((lower.r, lower.g, lower.b), (upper.r, upper.g, upper.b));

    let bare = Color::from_minecraft_code("A").unwrap();
    assert_eq!((bare.r, bare.g, bare.b), (85, 255, 85));
}

#[test]
fn test_minecraft_lowercase_alt_hex() {
    let color = Color::from_minecraft_code("&x&f&f&5&7&3&3").unwrap();
    assert_eq!((color.r, color.g, color.b), (255, 87, 51));
}

#[test]
fn test_minecraft_nearest_tie_break() {
    // (0, 0, 85) is equidistant from black (entry 0) and dark blue
    // (entry 1); the earlier entry wins.
    assert_eq!(Color::from_rgb(0, 0, 85).to_minecraft_code(), "§0");
}

#[test]
fn test_minecraft_nearest_exact() {
    assert_eq!(Color::from_rgb(250, 80, 80).to_minecraft_code(), "§c");
    assert_eq!(Color::black().to_minecraft_code(), "§0");
    assert_eq!(Color::white().to_minecraft_code(), "§f");
}

#[test]
fn test_web_constants() {
    let y = Color::yellow();
    assert_eq!((y.r, y.g, y.b, y.a), (255, 255, 0, 1000));
    let c = Color::cyan();
    assert_eq!((c.r, c.g, c.b, c.a), (0, 255, 255, 1000));
    let m = Color::magenta();
    assert_eq!((m.r, m.g, m.b, m.a), (255, 0, 255, 1000));
    let g = Color::green();
    assert_eq!((g.r, g.g, g.b, g.a), (0, 255, 0, 1000));
}

#[test]
fn test_display_forms() {
    let red = Color::red();
    assert_eq!(red.to_rgb().display(), "rgb(255, 0, 0)");
    assert_eq!(red.to_hsl().display(), "hsl(0.0°, 100.0%, 50.0%)");
    assert_eq!(red.to_hsv().display(), "hsv(0.0°, 100.0%, 100.0%)");
    assert_eq!(red.to_cmyk().display(), "cmyk(0.0%, 100.0%, 100.0%, 0.0%)");
    assert_eq!(red.display(), "#FF0000");

    let hsl = Color::from_hex("#FF5733").unwrap().to_hsl();
    assert_eq!(hsl.display(), "hsl(10.6°, 100.0%, 60.0%)");
}

#[test]
fn test_error_messages() {
    assert_eq!(ColorError::InvalidHexFormat.message(), "Invalid hex color format");
    assert_eq!(ColorError::InvalidHexLength.message(), "Invalid hex color length");
    assert_eq!(ColorError::InvalidRgbValue.message(), "RGB values must be between 0 and 255");
    assert_eq!(ColorError::InvalidHslValue.message(), "Invalid HSL values");
    assert_eq!(ColorError::InvalidHsvValue.message(), "Invalid HSV values");
    assert_eq!(ColorError::InvalidCmykValue.message(), "CMYK values must be between 0 and 100");
    assert_eq!(ColorError::InvalidMinecraftCode.message(), "Invalid Minecraft color code");
}
