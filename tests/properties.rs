use pretty_console::{Attribute, Color, Console, Style};

#[test]
fn palette_codes_cover_every_width_of_index() {
    assert_eq!(Color::Named(0).to_fg_code(), "38;5;0");
    assert_eq!(Color::Named(9).to_bg_code(), "48;5;9");
    assert_eq!(Color::Named(10).to_fg_code(), "38;5;10");
    assert_eq!(Color::Named(99).to_bg_code(), "48;5;99");
    assert_eq!(Color::Named(100).to_fg_code(), "38;5;100");
    assert_eq!(Color::Named(208).to_bg_code(), "48;5;208");
    assert_eq!(Color::Named(255).to_fg_code(), "38;5;255");
    assert_eq!(Color::Named(255).to_bg_code(), "48;5;255");
}

#[test]
fn palette_codes_match_decimal_for_all_indices() {
    for n in 0..=255u8 {
        assert_eq!(Color::Named(n).to_fg_code(), format!("38;5;{}", n));
        assert_eq!(Color::Named(n).to_bg_code(), format!("48;5;{}", n));
    }
}

#[test]
fn rgb_codes_list_each_channel() {
    assert_eq!(Color::RGB(0, 0, 0).to_fg_code(), "38;2;0;0;0");
    assert_eq!(Color::RGB(255, 255, 255).to_bg_code(), "48;2;255;255;255");
    assert_eq!(Color::RGB(7, 42, 199).to_fg_code(), "38;2;7;42;199");
    assert_eq!(Color::RGB(7, 42, 199).to_bg_code(), "48;2;7;42;199");
}

#[test]
fn attribute_table_skips_six() {
    let all = [
        Attribute::Bold,
        Attribute::Dim,
        Attribute::Italic,
        Attribute::Underline,
        Attribute::Blink,
        Attribute::Reverse,
        Attribute::Hidden,
        Attribute::Strikethrough,
    ];
    let codes: Vec<&str> = all.iter().map(|a| a.to_code()).collect();
    assert_eq!(codes, vec!["1", "2", "3", "4", "5", "7", "8", "9"]);
}

#[test]
fn empty_style_renders_text_unchanged() {
    assert_eq!(Style::new().to_ansi_start(), "");
    assert_eq!(Console::new("plain").to_string(), "plain");
    assert_eq!(Console::new("").to_string(), "");
}

#[test]
fn styled_output_is_framed_by_escape_and_reset() {
    let text = "some \x1b text; with m";
    let output = Console::new(text).on_cyan().to_string();
    assert!(output.starts_with("\x1b["));
    assert!(output.ends_with("\x1b[0m"));
    assert_eq!(output, format!("\x1b[48;5;6m{}\x1b[0m", text));
}

#[test]
fn repeated_attribute_is_kept_each_time() {
    let style = Style::new().bold().bold().bold();
    assert_eq!(style.attributes.len(), 3);
    assert_eq!(style.to_ansi_start(), "\x1b[1;1;1m");
    let console = Console::new("x").underline().attr(Attribute::Underline);
    assert_eq!(console.to_string(), "\x1b[4;4mx\x1b[0m");
}

#[test]
fn last_colour_set_wins() {
    let style = Style::new().fg(Color::red()).fg(Color::green()).bg(Color::blue()).bg(Color::RGB(1, 2, 3));
    assert_eq!(style.foreground, Some(Color::Named(2)));
    assert_eq!(style.background, Some(Color::RGB(1, 2, 3)));
    assert_eq!(style.to_ansi_start(), "\x1b[38;5;2;48;2;1;2;3m");
}

#[test]
fn with_text_keeps_whole_style() {
    let base = Console::new("a").fg_rgb(1, 2, 3).on_magenta().italic().italic();
    let derived = base.with_text("b");
    assert_eq!(derived.text, "b");
    assert_eq!(derived.style.foreground, base.style.foreground);
    assert_eq!(derived.style.background, base.style.background);
    assert_eq!(derived.style.attributes, base.style.attributes);
    assert_eq!(base.text, "a");
}

#[test]
fn red_bold_prefix_puts_attributes_first() {
    let style = Style::new().fg(Color::Named(1)).bold();
    assert_eq!(style.to_ansi_start(), "\x1b[1;38;5;1m");
    let console = Console::new_with_style("Hello", style);
    assert_eq!(console.to_string(), "\x1b[1;38;5;1mHello\x1b[0m");
}

#[test]
fn rgb_foreground_and_background_prefix() {
    let style = Style::new().fg(Color::RGB(255, 0, 0)).bg(Color::RGB(0, 255, 0));
    assert_eq!(style.to_ansi_start(), "\x1b[38;2;255;0;0;48;2;0;255;0m");
}

#[test]
fn disabled_styling_renders_plain_text() {
    let console = Console::new("quiet").red().on_white().bold().strikethrough();
    assert_eq!(console.render_in(false), "quiet");
    assert_eq!(console.style.ansi_start_in(false), "");
    assert_eq!(console.render_in(true), "\x1b[1;9;38;5;1;48;5;7mquiet\x1b[0m");
}

#[test]
fn every_attribute_method_appends_in_order() {
    let console = Console::new("t")
        .strikethrough()
        .hidden()
        .reverse()
        .blink()
        .underline()
        .italic()
        .dim()
        .bold();
    assert_eq!(console.to_string(), "\x1b[9;8;7;5;4;3;2;1mt\x1b[0m");
}
