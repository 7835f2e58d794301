use colored::Colorize;
use cprint::Color;
use cprint::DEFAULT_COLOR;
use cprint::PAD_WIDTH;

#[test]
fn cformat_title_message_color() {
    let string = cprint::cformat("Cleaning up", "the mess", &Color::Green);
    let right = format!(
        "{} {}",
        format!("{}{}", " ".repeat(12 - "Cleaning up".len()), "Cleaning up")
            .green()
            .bold(),
        "the mess"
    );
    assert_eq!(string, right);
}

#[test]
fn cformat_title_message_rgb() {
    let string = cprint::cformat(
        "Cleaning up",
        "the mess",
        &Color::TrueColor {
            r: 255,
            g: 255,
            b: 0,
        },
    );
    let right = format!(
        "{} {}",
        format!("{}{}", " ".repeat(12 - "Cleaning up".len()), "Cleaning up")
            .color(colored::Color::TrueColor {
                r: 255,
                g: 255,
                b: 0,
            })
            .bold(),
        "the mess"
    );
    assert_eq!(string, right);
}

#[test]
fn cformat_title_message() {
    let string = cprint::cformat("Cleaning up", "the mess", &DEFAULT_COLOR);
    let right = format!(
        "{} {}",
        format!("{}{}", " ".repeat(12 - "Cleaning up".len()), "Cleaning up")
            .green()
            .bold(),
        "the mess"
    );
    assert_eq!(string, right);
}

#[test]
fn cformat_message_color() {
    let string = cprint::cformat_message("Testing cformat!", &Color::Green);
    let right = format!(
        "{} {}",
        format!("{}{}", " ".repeat(12 - "Testing".len()), "Testing")
            .green()
            .bold(),
        "cformat!"
    );
    assert_eq!(string, right);
}

#[test]
fn cformat_message_rgb() {
    let string = cprint::cformat_message(
        "Testing cformat!",
        &Color::TrueColor {
            r: 255,
            g: 255,
            b: 0,
        },
    );
    let right = format!(
        "{} {}",
        format!("{}{}", " ".repeat(12 - "Testing".len()), "Testing")
            .color(colored::Color::TrueColor {
                r: 255,
                g: 255,
                b: 0,
            })
            .bold(),
        "cformat!"
    );
    assert_eq!(string, right);
}

#[test]
fn cformat_message() {
    let string = cprint::cformat_message("Testing cformat!", &DEFAULT_COLOR);
    let right = format!(
        "{} {}",
        format!("{}{}", " ".repeat(12 - "Testing".len()), "Testing")
            .green()
            .bold(),
        "cformat!"
    );
    assert_eq!(string, right);
}

#[test]
fn cformat_green_equals_padded_colored_bold() {
    let string = cprint::cformat("Compiling", "main.rs", &Color::Green);
    let right = format!("{} {}", "   Compiling".green().bold(), "main.rs");
    assert_eq!(string, right);
}

#[test]
fn pad_title_pads_short_titles() {
    assert_eq!(cprint::pad_title("Compiling"), "   Compiling");
    assert_eq!(cprint::pad_title(""), " ".repeat(PAD_WIDTH));
    assert_eq!(cprint::pad_title("Compiling").chars().count(), PAD_WIDTH);
}

#[test]
fn pad_title_keeps_wide_titles() {
    assert_eq!(cprint::pad_title("AlreadyWide!"), "AlreadyWide!");
    assert_eq!(cprint::pad_title("Decompressing"), "Decompressing");
    assert_eq!(cprint::pad_title("Decompressing").chars().count(), 13);
}

#[test]
fn split_compiling_line() {
    let (leading, title, message) = cprint::split_title_message("Compiling main.rs");
    assert_eq!(leading, "");
    assert_eq!(title, "Compiling");
    assert_eq!(message, "main.rs");
}

#[test]
fn split_preserves_leading_carriage_return() {
    let (leading, title, message) = cprint::split_title_message("\rPre-Build parsing x");
    assert_eq!(leading, "\r");
    assert_eq!(title, "Pre-Build");
    assert_eq!(message, "parsing x");
}

#[test]
fn split_round_trip_concrete() {
    let joined = format!("{} {}", "Linking", "libfoo.so v2");
    let (leading, title, message) = cprint::split_title_message(&joined);
    assert_eq!(leading, "");
    assert_eq!(title, "Linking");
    assert_eq!(message, "libfoo.so v2");
}

#[test]
fn split_title_without_message() {
    let (leading, title, message) = cprint::split_title_message("Done");
    assert_eq!(leading, "");
    assert_eq!(title, "Done");
    assert_eq!(message, "");
}

#[test]
fn split_whitespace_only_input() {
    let (leading, title, message) = cprint::split_title_message("  ");
    assert_eq!(leading, "  ");
    assert_eq!(title, "");
    assert_eq!(message, "");

    let (leading, title, message) = cprint::split_title_message("");
    assert_eq!(leading, "");
    assert_eq!(title, "");
    assert_eq!(message, "");
}

#[test]
fn split_tab_separated() {
    let (leading, title, message) = cprint::split_title_message("Checking\tcrate a");
    assert_eq!(leading, "");
    assert_eq!(title, "Checking");
    assert_eq!(message, "crate a");
}

#[test]
fn leading_whitespace_is_verbatim() {
    assert_eq!(cprint::leading_whitespace(" \t\rx y"), " \t\r");
    assert_eq!(cprint::leading_whitespace("x"), "");
    assert_eq!(cprint::leading_whitespace("   "), "   ");
}
