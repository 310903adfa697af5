use std::str;

use styled_output::Color;
use styled_output::Style;

#[test]
fn test_write_set_style_default() {
    let style = Style::default();
    let mut buffer = Vec::new();
    style.write_set_style(&mut buffer);
    assert!(buffer.is_empty());
}

#[test]
fn test_write_set_style_fg_color() {
    let mut style = Style::default();
    style.foreground_color = Color::Yellow;
    let mut buffer = Vec::new();
    style.write_set_style(&mut buffer);
    let written = str::from_utf8(&buffer).expect("not valid UTF-8");
    assert_eq!("\x1b[33m", written);
}

#[test]
fn test_write_set_style_bg_color() {
    let mut style = Style::default();
    style.background_color = Color::LightMagenta;
    let mut buffer = Vec::new();
    style.write_set_style(&mut buffer);
    let written = str::from_utf8(&buffer).expect("not valid UTF-8");
    assert_eq!("\x1b[105m", written);
}

#[test]
fn test_write_set_style_fg_and_bg_color() {
    let mut style = Style::default();
    style.foreground_color = Color::White;
    style.background_color = Color::Blue;
    let mut buffer = Vec::new();
    style.write_set_style(&mut buffer);
    let written = str::from_utf8(&buffer).expect("not valid UTF-8");
    assert_eq!("\x1b[97;44m", written);
}

#[test]
fn test_write_set_style_bold() {
    let mut style = Style::default();
    style.bold = true;
    let mut buffer = Vec::new();
    style.write_set_style(&mut buffer);
    let written = str::from_utf8(&buffer).expect("not valid UTF-8");
    assert_eq!("\x1b[1m", written);
}

#[test]
fn test_write_set_style_underlined() {
    let mut style = Style::default();
    style.underlined = true;
    let mut buffer = Vec::new();
    style.write_set_style(&mut buffer);
    let written = str::from_utf8(&buffer).expect("not valid UTF-8");
    assert_eq!("\x1b[4m", written);
}

#[test]
fn test_write_set_style_blinking() {
    let mut style = Style::default();
    style.blinking = true;
    let mut buffer = Vec::new();
    style.write_set_style(&mut buffer);
    let written = str::from_utf8(&buffer).expect("not valid UTF-8");
    assert_eq!("\x1b[5m", written);
}

#[test]
fn test_write_set_style_all() {
    let style = Style {
        foreground_color: Color::Cyan,
        background_color: Color::DarkGray,
        bold: true,
        underlined: true,
        blinking: true,
    };
    let mut buffer = Vec::new();
    style.write_set_style(&mut buffer);
    let written = str::from_utf8(&buffer).expect("not valid UTF-8");
    assert_eq!("\x1b[36;100;1;4;5m", written);
}

#[test]
fn test_write_reset_style() {
    let mut buffer = Vec::new();
    Style::write_reset_style(&mut buffer);
    let written = str::from_utf8(&buffer).expect("not valid UTF-8");
    assert_eq!("\x1b[0m", written);
}

#[test]
fn foreground_codes_match_ansi_table() {
    assert_eq!(Color::Default.foreground_code(), 39);
    assert_eq!(Color::Black.foreground_code(), 30);
    assert_eq!(Color::Yellow.foreground_code(), 33);
    assert_eq!(Color::LightGray.foreground_code(), 37);
    assert_eq!(Color::DarkGray.foreground_code(), 90);
    assert_eq!(Color::White.foreground_code(), 97);
}

#[test]
fn background_codes_match_ansi_table() {
    assert_eq!(Color::Default.background_code(), 49);
    assert_eq!(Color::Black.background_code(), 40);
    assert_eq!(Color::Blue.background_code(), 44);
    assert_eq!(Color::LightGray.background_code(), 47);
    assert_eq!(Color::DarkGray.background_code(), 100);
    assert_eq!(Color::White.background_code(), 107);
}

#[test]
fn all_color_codes_distinct() {
    let colors = [
        Color::Default,
        Color::Black,
        Color::Red,
        Color::Green,
        Color::Yellow,
        Color::Blue,
        Color::Magena,
        Color::Cyan,
        Color::LightGray,
        Color::DarkGray,
        Color::LightRed,
        Color::LightGreen,
        Color::LightYellow,
        Color::LightBlue,
        Color::LightMagenta,
        Color::LightCyan,
        Color::White,
    ];
    for (i, a) in colors.iter().enumerate() {
        for (j, b) in colors.iter().enumerate() {
            if i != j {
                assert_ne!(a.foreground_code(), b.foreground_code());
                assert_ne!(a.background_code(), b.background_code());
            }
        }
    }
}

#[test]
fn separator_count_matches_field_count() {
    let styles = [
        Style::default(),
        Style {
            bold: true,
            ..Style::default()
        },
        Style {
            foreground_color: Color::Red,
            underlined: true,
            ..Style::default()
        },
        Style {
            foreground_color: Color::Red,
            background_color: Color::Green,
            blinking: true,
            ..Style::default()
        },
        Style {
            foreground_color: Color::Red,
            background_color: Color::Green,
            bold: true,
            underlined: true,
            ..Style::default()
        },
        Style {
            foreground_color: Color::Red,
            background_color: Color::Green,
            bold: true,
            underlined: true,
            blinking: true,
        },
    ];
    for (count, style) in styles.iter().enumerate() {
        let mut buffer = Vec::new();
        style.write_set_style(&mut buffer);
        let separators = buffer.iter().filter(|&&b| b == b';').count();
        if count == 0 {
            assert!(buffer.is_empty());
        } else {
            assert_eq!(separators, count - 1);
            assert_eq!(&buffer[..2], b"\x1b[");
            assert_eq!(*buffer.last().unwrap(), b'm');
        }
    }
}

#[test]
fn set_style_never_longer_than_fifteen_bytes() {
    let style = Style {
        foreground_color: Color::White,
        background_color: Color::LightBlue,
        bold: true,
        underlined: true,
        blinking: true,
    };
    let mut buffer = Vec::new();
    style.write_set_style(&mut buffer);
    assert_eq!(buffer.len(), 15);
    assert_eq!(str::from_utf8(&buffer).unwrap(), "\x1b[97;104;1;4;5m");
}
