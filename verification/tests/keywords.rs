use ansi_escape_sequences_cli::cli::{AnsiKeyword, EscEscapeStyle};
use ansi_escape_sequences_cli::text::str_eq;

/// Every keyword with its code, its name, and its variant's name.
fn table() -> Vec<(AnsiKeyword, &'static str, &'static str, &'static str)> {
    vec![
        (AnsiKeyword::Black, "30", "black", "Black"),
        (AnsiKeyword::BgBlack, "40", "bg-black", "BgBlack"),
        (AnsiKeyword::Red, "31", "red", "Red"),
        (AnsiKeyword::BgRed, "41", "bg-red", "BgRed"),
        (AnsiKeyword::Green, "32", "green", "Green"),
        (AnsiKeyword::BgGreen, "42", "bg-green", "BgGreen"),
        (AnsiKeyword::Yellow, "33", "yellow", "Yellow"),
        (AnsiKeyword::BgYellow, "43", "bg-yellow", "BgYellow"),
        (AnsiKeyword::Blue, "34", "blue", "Blue"),
        (AnsiKeyword::BgBlue, "44", "bg-blue", "BgBlue"),
        (AnsiKeyword::Magenta, "35", "magenta", "Magenta"),
        (AnsiKeyword::BgMagenta, "45", "bg-magenta", "BgMagenta"),
        (AnsiKeyword::Cyan, "36", "cyan", "Cyan"),
        (AnsiKeyword::BgCyan, "46", "bg-cyan", "BgCyan"),
        (AnsiKeyword::White, "37", "white", "White"),
        (AnsiKeyword::BgWhite, "47", "bg-white", "BgWhite"),
        (AnsiKeyword::Gray, "90", "gray", "Gray"),
        (AnsiKeyword::BgGray, "100", "bg-gray", "BgGray"),
        (AnsiKeyword::BrightRed, "91", "bright-red", "BrightRed"),
        (AnsiKeyword::BgBrightRed, "101", "bg-bright-red", "BgBrightRed"),
        (AnsiKeyword::BrightGreen, "92", "bright-green", "BrightGreen"),
        (AnsiKeyword::BgBrightGreen, "102", "bg-bright-green", "BgBrightGreen"),
        (AnsiKeyword::BrightYellow, "93", "bright-yellow", "BrightYellow"),
        (AnsiKeyword::BgBrightYellow, "103", "bg-bright-yellow", "BgBrightYellow"),
        (AnsiKeyword::BrightBlue, "94", "bright-blue", "BrightBlue"),
        (AnsiKeyword::BgBrightBlue, "104", "bg-bright-blue", "BgBrightBlue"),
        (AnsiKeyword::BrightMagenta, "95", "bright-magenta", "BrightMagenta"),
        (AnsiKeyword::BgBrightMagenta, "105", "bg-bright-magenta", "BgBrightMagenta"),
        (AnsiKeyword::BrightCyan, "96", "bright-cyan", "BrightCyan"),
        (AnsiKeyword::BgBrightCyan, "106", "bg-bright-cyan", "BgBrightCyan"),
        (AnsiKeyword::BrightWhite, "97", "bright-white", "BrightWhite"),
        (AnsiKeyword::BgBrightWhite, "107", "bg-bright-white", "BgBrightWhite"),
        (AnsiKeyword::Clear, "0", "clear", "Clear"),
        (AnsiKeyword::Reset, "0", "reset", "Reset"),
        (AnsiKeyword::Bold, "1", "bold", "Bold"),
        (AnsiKeyword::Dimmed, "2", "dimmed", "Dimmed"),
        (AnsiKeyword::Italic, "3", "italic", "Italic"),
        (AnsiKeyword::Underline, "4", "underline", "Underline"),
        (AnsiKeyword::Blink, "5", "blink", "Blink"),
        (AnsiKeyword::Hidden, "8", "hidden", "Hidden"),
        (AnsiKeyword::Strike, "9", "strike", "Strike"),
        (AnsiKeyword::Strikethrough, "9", "strikethrough", "Strikethrough"),
    ]
}

#[test]
fn every_keyword_has_its_code() {
    let table = table();
    assert_eq!(table.len(), 42);
    for (keyword, code, _name, _variant) in table {
        assert_eq!(keyword.to_ansi_code(), code);
    }
}

#[test]
fn codes_are_plain_decimal_numerals() {
    for (keyword, _code, _name, _variant) in table() {
        let code = keyword.to_ansi_code();
        assert!(!code.is_empty());
        assert!(code.chars().all(|c| c.is_ascii_digit()));
        assert!(code == "0" || !code.starts_with('0'));
        let number: u32 = code.parse().unwrap();
        assert_eq!(number.to_string(), code);
    }
}

#[test]
fn color_codes_follow_their_families() {
    let colors = [
        (AnsiKeyword::Black, AnsiKeyword::BgBlack, AnsiKeyword::Gray, AnsiKeyword::BgGray),
        (AnsiKeyword::Red, AnsiKeyword::BgRed, AnsiKeyword::BrightRed, AnsiKeyword::BgBrightRed),
        (
            AnsiKeyword::Green,
            AnsiKeyword::BgGreen,
            AnsiKeyword::BrightGreen,
            AnsiKeyword::BgBrightGreen,
        ),
        (
            AnsiKeyword::Yellow,
            AnsiKeyword::BgYellow,
            AnsiKeyword::BrightYellow,
            AnsiKeyword::BgBrightYellow,
        ),
        (AnsiKeyword::Blue, AnsiKeyword::BgBlue, AnsiKeyword::BrightBlue, AnsiKeyword::BgBrightBlue),
        (
            AnsiKeyword::Magenta,
            AnsiKeyword::BgMagenta,
            AnsiKeyword::BrightMagenta,
            AnsiKeyword::BgBrightMagenta,
        ),
        (AnsiKeyword::Cyan, AnsiKeyword::BgCyan, AnsiKeyword::BrightCyan, AnsiKeyword::BgBrightCyan),
        (
            AnsiKeyword::White,
            AnsiKeyword::BgWhite,
            AnsiKeyword::BrightWhite,
            AnsiKeyword::BgBrightWhite,
        ),
    ];
    for (index, (fg, bg, bright_fg, bright_bg)) in colors.iter().enumerate() {
        let index: u32 = u32::try_from(index).unwrap();
        assert_eq!(fg.to_ansi_code(), (30 + index).to_string());
        assert_eq!(bg.to_ansi_code(), (40 + index).to_string());
        assert_eq!(bright_fg.to_ansi_code(), (90 + index).to_string());
        assert_eq!(bright_bg.to_ansi_code(), (100 + index).to_string());
    }
}

#[test]
fn synonyms_share_a_code() {
    assert_eq!(AnsiKeyword::Clear.to_ansi_code(), "0");
    assert_eq!(AnsiKeyword::Reset.to_ansi_code(), "0");
    assert_eq!(AnsiKeyword::Clear.to_ansi_code(), AnsiKeyword::Reset.to_ansi_code());
    assert_eq!(AnsiKeyword::Strike.to_ansi_code(), "9");
    assert_eq!(AnsiKeyword::Strikethrough.to_ansi_code(), "9");
    assert_eq!(
        AnsiKeyword::Strike.to_ansi_code(),
        AnsiKeyword::Strikethrough.to_ansi_code()
    );
    assert_ne!(AnsiKeyword::Clear, AnsiKeyword::Reset);
    assert_ne!(AnsiKeyword::Strike, AnsiKeyword::Strikethrough);
}

#[test]
fn every_keyword_has_its_name() {
    for (keyword, _code, name, _variant) in table() {
        assert_eq!(keyword.to_name(), name);
        assert_eq!(AnsiKeyword::from_name(name), Some(keyword));
    }
}

#[test]
fn names_are_distinct() {
    let table = table();
    for (i, (_, _, a, _)) in table.iter().enumerate() {
        for (j, (_, _, b, _)) in table.iter().enumerate() {
            assert_eq!(a == b, i == j);
        }
    }
}

#[test]
fn variant_names_are_what_debug_prints() {
    for (keyword, _code, _name, variant) in table() {
        assert_eq!(keyword.to_variant_name(), variant);
        assert_eq!(keyword.to_variant_name(), format!("{:?}", keyword));
    }
}

#[test]
fn unknown_names_are_no_keywords() {
    assert_eq!(AnsiKeyword::from_name("neonpink"), None);
    assert_eq!(AnsiKeyword::from_name(""), None);
    assert_eq!(AnsiKeyword::from_name("Red"), None);
    assert_eq!(AnsiKeyword::from_name("RED"), None);
    assert_eq!(AnsiKeyword::from_name("red "), None);
    assert_eq!(AnsiKeyword::from_name("bg_red"), None);
    assert_eq!(AnsiKeyword::from_name("BgRed"), None);
    assert_eq!(AnsiKeyword::from_name("normal"), None);
    assert_eq!(AnsiKeyword::from_name("purple"), None);
    assert_eq!(AnsiKeyword::from_name("bright-black"), None);
    assert_eq!(AnsiKeyword::from_name("31"), None);
}

#[test]
fn help_texts_show_the_keyword_in_its_style() {
    assert_eq!(
        AnsiKeyword::Red.to_help_text(),
        "\u{1b}[31mRed\u{1b}[0m foreground color"
    );
    assert_eq!(
        AnsiKeyword::BrightMagenta.to_help_text(),
        "\u{1b}[95mBrightMagenta\u{1b}[0m foreground color"
    );
    assert_eq!(
        AnsiKeyword::Gray.to_help_text(),
        "\u{1b}[90mGray\u{1b}[0m foreground color"
    );
    assert_eq!(
        AnsiKeyword::BgCyan.to_help_text(),
        "\u{1b}[46mBgCyan\u{1b}[0m background color"
    );
    assert_eq!(
        AnsiKeyword::BgBrightWhite.to_help_text(),
        "\u{1b}[107mBgBrightWhite\u{1b}[0m background color"
    );
    assert_eq!(AnsiKeyword::Bold.to_help_text(), "\u{1b}[1mBold\u{1b}[0m font");
    assert_eq!(
        AnsiKeyword::Strikethrough.to_help_text(),
        "\u{1b}[9mStrikethrough\u{1b}[0m font"
    );
}

#[test]
fn help_texts_name_the_kind_of_each_keyword() {
    for (keyword, code, _name, variant) in table() {
        if keyword == AnsiKeyword::Clear || keyword == AnsiKeyword::Reset {
            continue;
        }
        let number: u32 = code.parse().unwrap();
        let kind = if (30..=37).contains(&number) || (90..=97).contains(&number) {
            "foreground color"
        } else if (40..=47).contains(&number) || (100..=107).contains(&number) {
            "background color"
        } else {
            "font"
        };
        assert_eq!(
            keyword.to_help_text(),
            format!("\u{1b}[{}m{}\u{1b}[0m {}", code, variant, kind)
        );
    }
}

#[test]
fn every_style_spells_esc_its_way() {
    assert_eq!(EscEscapeStyle::Bash.escape_sequence(), "\\e");
    assert_eq!(EscEscapeStyle::Hex.escape_sequence(), "\\x1b");
    assert_eq!(EscEscapeStyle::Unicode.escape_sequence(), "\\u001b");
    assert_eq!(EscEscapeStyle::UnicodeRust.escape_sequence(), "\\u{1b}");
    assert_eq!(EscEscapeStyle::Direct.escape_sequence(), "\u{1b}");
    assert_eq!(EscEscapeStyle::Bash.escape_sequence().len(), 2);
    assert_eq!(EscEscapeStyle::Hex.escape_sequence().len(), 4);
    assert_eq!(EscEscapeStyle::Unicode.escape_sequence().len(), 6);
    assert_eq!(EscEscapeStyle::UnicodeRust.escape_sequence().len(), 6);
    assert_eq!(EscEscapeStyle::Direct.escape_sequence().as_bytes(), [0x1b]);
}

#[test]
fn the_default_style_is_bash() {
    assert_eq!(EscEscapeStyle::default(), EscEscapeStyle::Bash);
}

#[test]
fn every_style_has_its_name() {
    let styles = [
        (EscEscapeStyle::Bash, "bash"),
        (EscEscapeStyle::Hex, "hex"),
        (EscEscapeStyle::Unicode, "unicode"),
        (EscEscapeStyle::UnicodeRust, "unicode-rust"),
        (EscEscapeStyle::Direct, "direct"),
    ];
    for (style, name) in styles {
        assert_eq!(style.to_name(), name);
        assert_eq!(EscEscapeStyle::from_name(name), Some(style));
    }
    assert_eq!(EscEscapeStyle::from_name("octal"), None);
    assert_eq!(EscEscapeStyle::from_name(""), None);
    assert_eq!(EscEscapeStyle::from_name("Bash"), None);
    assert_eq!(EscEscapeStyle::from_name("unicode_rust"), None);
    assert_eq!(EscEscapeStyle::from_name("unicode-"), None);
}

#[test]
fn every_style_says_what_it_does() {
    assert_eq!(
        EscEscapeStyle::Bash.to_help_text(),
        "Use `\\e` (Bash style) for encoding."
    );
    assert_eq!(
        EscEscapeStyle::Hex.to_help_text(),
        "Use `\\x1b` (hex style) for encoding."
    );
    assert_eq!(
        EscEscapeStyle::Unicode.to_help_text(),
        "Use `\\u001b` (unicode style) for encoding."
    );
    assert_eq!(
        EscEscapeStyle::UnicodeRust.to_help_text(),
        "Use `\\u{1b}` (Rust unicode style) for encoding."
    );
    assert_eq!(
        EscEscapeStyle::Direct.to_help_text(),
        "Print the `ESC` symbol as is and not encoded."
    );
}

#[test]
fn strings_are_compared_by_their_characters() {
    assert!(str_eq("", ""));
    assert!(str_eq("red", "red"));
    assert!(!str_eq("red", "rad"));
    assert!(!str_eq("red", "re"));
    assert!(!str_eq("re", "red"));
    assert!(!str_eq("red", "Red"));
    assert!(!str_eq("", "x"));
    assert!(str_eq("gr\u{fc}n \u{1f7e2}", "gr\u{fc}n \u{1f7e2}"));
    assert!(!str_eq("gr\u{fc}n", "grun"));
    assert!(!str_eq("\u{e9}", "e\u{301}"));
}
