use colored::Colorize;
use cprint::Color;
use cprint::DEFAULT_COLOR;
use cprint::DEFAULT_ERROR_COLOR;

#[test]
fn colorize_matches_colored_rendering() {
    let ours = cprint::colorize_string("Hello", &Color::Red);
    let right = "Hello".red().bold().to_string();
    assert_eq!(ours, right);
}

#[test]
fn colorize_emits_bold_red_escape() {
    colored::control::set_override(true);
    let ours = cprint::colorize_string("Hello", &Color::Red);
    colored::control::unset_override();
    assert_eq!(ours, "\u{1b}[1;31mHello\u{1b}[0m");
}

#[test]
fn cformat_exact_escape_sequence() {
    colored::control::set_override(true);
    let string = cprint::cformat("Compiling", "main.rs", &Color::Green);
    colored::control::unset_override();
    assert_eq!(string, "\u{1b}[1;32m   Compiling\u{1b}[0m main.rs");
}

#[test]
fn cformat_plain_when_colors_disabled() {
    colored::control::set_override(false);
    let string = cprint::cformat("Compiling", "main.rs", &Color::Green);
    colored::control::unset_override();
    assert_eq!(string, "   Compiling main.rs");
}

#[test]
fn color_names() {
    assert_eq!(Color::Red.name(), Some(String::from("red")));
    assert_eq!(Color::Green.name(), Some(String::from("green")));
    assert_eq!(Color::Yellow.name(), Some(String::from("yellow")));
    assert_eq!(Color::Blue.name(), Some(String::from("blue")));
    assert_eq!(Color::Magenta.name(), Some(String::from("magenta")));
    assert_eq!(Color::Cyan.name(), Some(String::from("cyan")));
    assert_eq!(Color::White.name(), Some(String::from("white")));
    assert_eq!(Color::TrueColor { r: 1, g: 2, b: 3 }.name(), None);
}

#[test]
fn default_colors() {
    assert_eq!(DEFAULT_COLOR, Color::Green);
    assert_eq!(DEFAULT_ERROR_COLOR, Color::Red);
}

#[test]
fn whitespace_char_classification() {
    assert!(cprint::is_whitespace_char(' '));
    assert!(cprint::is_whitespace_char('\t'));
    assert!(cprint::is_whitespace_char('\r'));
    assert!(cprint::is_whitespace_char('\u{a0}'));
    assert!(!cprint::is_whitespace_char('x'));
    assert!(!cprint::is_whitespace_char('-'));
    assert!(!cprint::is_whitespace_char('\u{1b}'));
}
