use console_utils::styled::{style, Color, StyleSpec, StyledText};
use console_utils::text::push_decimal;

fn decimal(n: u128) -> String {
    let mut out = String::new();
    push_decimal(&mut out, n);
    out
}

#[test]
fn decimal_of_small_and_large_numbers() {
    assert_eq!(decimal(0), "0");
    assert_eq!(decimal(7), "7");
    assert_eq!(decimal(9), "9");
    assert_eq!(decimal(10), "10");
    assert_eq!(decimal(99), "99");
    assert_eq!(decimal(100), "100");
    assert_eq!(decimal(255), "255");
    assert_eq!(decimal(1234567890), "1234567890");
    assert_eq!(decimal(u128::MAX), "340282366920938463463374607431768211455");
}

#[test]
fn decimal_appends_to_what_is_there() {
    let mut out = String::from("n=");
    push_decimal(&mut out, 42);
    assert_eq!(out, "n=42");
}

#[test]
fn foreground_codes() {
    assert_eq!(Color::Black.fg_code(), 30);
    assert_eq!(Color::Red.fg_code(), 31);
    assert_eq!(Color::Green.fg_code(), 32);
    assert_eq!(Color::Yellow.fg_code(), 33);
    assert_eq!(Color::Blue.fg_code(), 34);
    assert_eq!(Color::Magenta.fg_code(), 35);
    assert_eq!(Color::Cyan.fg_code(), 36);
    assert_eq!(Color::White.fg_code(), 37);
    assert_eq!(Color::BrightBlack.fg_code(), 90);
    assert_eq!(Color::BrightRed.fg_code(), 91);
    assert_eq!(Color::BrightGreen.fg_code(), 92);
    assert_eq!(Color::BrightYellow.fg_code(), 93);
    assert_eq!(Color::BrightBlue.fg_code(), 94);
    assert_eq!(Color::BrightMagenta.fg_code(), 95);
    assert_eq!(Color::BrightCyan.fg_code(), 96);
    assert_eq!(Color::BrightWhite.fg_code(), 97);
    assert_eq!(Color::ANSI(0).fg_code(), 0);
    assert_eq!(Color::ANSI(208).fg_code(), 208);
    assert_eq!(Color::ANSI(255).fg_code(), 255);
}

#[test]
fn background_codes_are_ten_above() {
    assert_eq!(Color::Black.bg_code(), 40);
    assert_eq!(Color::Red.bg_code(), 41);
    assert_eq!(Color::White.bg_code(), 47);
    assert_eq!(Color::BrightBlack.bg_code(), 100);
    assert_eq!(Color::BrightRed.bg_code(), 101);
    assert_eq!(Color::BrightWhite.bg_code(), 107);
    assert_eq!(Color::ANSI(0).bg_code(), 10);
    assert_eq!(Color::ANSI(245).bg_code(), 255);
}

#[test]
fn plain_style_returns_the_text_unchanged() {
    assert_eq!(StyledText::new("plain").format_sequence(), "plain");
    assert_eq!(StyledText::new("").format_sequence(), "");
    assert_eq!(StyledText::new("two\nlines ›").format_sequence(), "two\nlines ›");
    assert_eq!(style("plain", &StyleSpec::new()), "plain");
}

#[test]
fn each_attribute_alone() {
    assert_eq!(
        StyledText::new("This is red").fg(Color::BrightRed).format_sequence(),
        "\x1B[91mThis is red\x1B[0m"
    );
    assert_eq!(
        StyledText::new("This has red bg").bg(Color::BrightRed).format_sequence(),
        "\x1B[101mThis has red bg\x1B[0m"
    );
    assert_eq!(
        StyledText::new("This is bold").bold().format_sequence(),
        "\x1B[1mThis is bold\x1B[0m"
    );
    assert_eq!(
        StyledText::new("This is italic").italic().format_sequence(),
        "\x1B[3mThis is italic\x1B[0m"
    );
    assert_eq!(
        StyledText::new("This is underline").underline().format_sequence(),
        "\x1B[4mThis is underline\x1B[0m"
    );
    assert_eq!(
        StyledText::new("This blinks").blink().format_sequence(),
        "\x1B[5mThis blinks\x1B[0m"
    );
    assert_eq!(
        StyledText::new("This has reversed colors").reverse().format_sequence(),
        "\x1B[7mThis has reversed colors\x1B[0m"
    );
    assert_eq!(
        StyledText::new("This is strikethrough").strikethrough().format_sequence(),
        "\x1B[9mThis is strikethrough\x1B[0m"
    );
}

#[test]
fn combined_attributes_are_listed_in_a_fixed_order() {
    assert_eq!(
        StyledText::new("This is special")
            .fg(Color::BrightCyan)
            .bg(Color::Yellow)
            .bold()
            .blink()
            .format_sequence(),
        "\x1B[96;43;1;5mThis is special\x1B[0m"
    );
    assert_eq!(
        StyledText::new("all")
            .strikethrough()
            .reverse()
            .blink()
            .underline()
            .italic()
            .bold()
            .bg(Color::ANSI(245))
            .fg(Color::ANSI(7))
            .format_sequence(),
        "\x1B[7;255;1;3;4;5;7;9mall\x1B[0m"
    );
}

#[test]
fn bold_and_italic_in_either_order() {
    let one = StyledText::new("x").bold().italic().format_sequence();
    let other = StyledText::new("x").italic().bold().format_sequence();
    assert_eq!(one, other);
    assert_eq!(one, "\x1B[1;3mx\x1B[0m");
}

#[test]
fn colour_and_flag_in_either_order() {
    let one = StyledText::new("x").fg(Color::Green).underline().bg(Color::Blue);
    let other = StyledText::new("x").bg(Color::Blue).fg(Color::Green).underline();
    assert_eq!(one.format_sequence(), other.format_sequence());
    assert_eq!(one.format_sequence(), "\x1B[32;44;4mx\x1B[0m");
}

#[test]
fn a_flag_set_twice_is_set_once() {
    assert_eq!(
        StyledText::new("x").bold().bold().format_sequence(),
        "\x1B[1mx\x1B[0m"
    );
}

#[test]
fn the_last_colour_wins() {
    assert_eq!(
        StyledText::new("x").fg(Color::Red).fg(Color::Blue).format_sequence(),
        "\x1B[34mx\x1B[0m"
    );
}

#[test]
fn style_from_a_spec() {
    let spec = StyleSpec {
        fg: Some(Color::Magenta),
        bg: None,
        bold: false,
        italic: true,
        underline: false,
        blink: false,
        reverse: true,
        strikethrough: false,
    };
    assert_eq!(style("text", &spec), "\x1B[35;3;7mtext\x1B[0m");
}

#[test]
fn a_background_code_must_fit_a_byte() {
    assert!(StyledText::new("x").is_renderable());
    assert!(StyledText::new("x").fg(Color::ANSI(255)).is_renderable());
    assert!(StyledText::new("x").bg(Color::BrightWhite).is_renderable());
    assert!(StyledText::new("x").bg(Color::ANSI(245)).is_renderable());
    assert!(!StyledText::new("x").bg(Color::ANSI(246)).is_renderable());
    assert!(!StyledText::new("x").bg(Color::ANSI(255)).is_renderable());
    assert!(StyleSpec::new().is_renderable());
}
