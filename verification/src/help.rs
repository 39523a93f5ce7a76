//! The help text of the command line, line by line.

use crate::cli::EscEscapeStyle;
use crate::paint::{paint_with_style, Decoration, Hue};
use crate::text::{ascii_upper, ascii_uppercase};
use vstd::prelude::*;
use vstd::string::*;

verus! {

/// What the lines hold, as sequences of characters.
pub open spec fn line_texts(lines: Seq<String>) -> Seq<Seq<char>> {
    lines.map_values(|line: String| line@)
}

/// An entry of a list: the text, decorated, behind four spaces.
pub open spec fn entry(decoration: Decoration, text: Seq<char>) -> Seq<char> {
    "    "@ + decoration.painted(text)
}

/// The head of the help text: the program's `name` in upper case with its
/// `version`, the author, and where the program is found.
pub open spec fn title_lines(name: Seq<char>, version: Seq<char>, url: Seq<char>) -> Seq<
    Seq<char>,
> {
    seq![
        Decoration::plain().fg(Hue::Green).bold().painted(
            name.map_values(|c: char| ascii_upper(c)) + " ('ansi') @ version "@ + version,
        ),
        "Made by Philipp Schuster <phip1611@gmail.com>"@,
        "See - https://crates.io/crates/"@ + name + " or"@,
        "      "@ + url,
        "----------------------------------------------------"@,
    ]
}

/// How the program is called.
pub open spec fn synopsis_lines() -> Seq<Seq<char>> {
    seq![
        Decoration::plain().bold().painted("SYNOPSIS:"@),
        " ansi "@ + Decoration::plain().fg(Hue::Red).painted("red"@) + "|"@
            + Decoration::plain().fg(Hue::Green).painted("green"@) + "|"@
            + Decoration::plain().bold().painted("bold"@) + "|"@
            + Decoration::plain().strikethrough().painted("strike"@) + "|"@
            + Decoration::plain().on(Hue::Cyan).painted("bg-cyan"@) + "|... "@,
        "      [-n|--new-line] [-e|--no-escape] [-h|--help]"@,
        "      [-s|--escape-style bash|unicode|unicode-rust|hex]"@,
    ]
}

/// What the options do.
pub open spec fn parameter_lines() -> Seq<Seq<char>> {
    seq![
        Decoration::plain().bold().painted("PARAMETERS:"@),
        "  -n: add new line character to output (default: false)"@,
        "  -e: don't escape 'ESC'-symbol, i.e. return the real ASCII value of `ESC` instead of `\\e`"@,
        "  -s: only useful if `-e` is NOT provided: style of the `ESC`-character-escaping"@,
    ]
}

/// The basic commands, each shown in the style that it selects.
pub open spec fn command_lines(name: Seq<char>) -> Seq<Seq<char>> {
    seq![
        Decoration::plain().bold().painted("COMMANDS:"@),
        "  For a full list visit: https://crates.io/crates/"@ + name,
        "  The most basic ones are all supported. For example:"@,
        "    reset"@,
        entry(Decoration::plain().fg(Hue::Black), "black"@),
        entry(Decoration::plain().on(Hue::Black), "bg-black"@),
        entry(Decoration::plain().fg(Hue::Red), "red"@),
        entry(Decoration::plain().on(Hue::Red), "bg-red"@),
        entry(Decoration::plain().fg(Hue::Green), "green"@),
        entry(Decoration::plain().on(Hue::Green), "bg-green"@),
        entry(Decoration::plain().fg(Hue::Yellow), "yellow"@),
        entry(Decoration::plain().on(Hue::Yellow), "bg-yellow"@),
        entry(Decoration::plain().fg(Hue::Blue), "blue"@),
        entry(Decoration::plain().on(Hue::Blue), "bg-blue"@),
        entry(Decoration::plain().fg(Hue::Purple), "purple"@),
        entry(Decoration::plain().on(Hue::Purple), "bg-purple"@),
        entry(Decoration::plain().fg(Hue::Cyan), "cyan"@),
        entry(Decoration::plain().on(Hue::Cyan), "bg-cyan"@),
        entry(Decoration::plain().fg(Hue::White), "white"@),
        entry(Decoration::plain().on(Hue::White), "bg-white"@),
        "    normal"@,
        entry(Decoration::plain().bold(), "bold"@),
        entry(Decoration::plain().dimmed(), "dimmed"@),
        entry(Decoration::plain().italic(), "italic"@),
        entry(Decoration::plain().underline(), "underline"@),
        entry(Decoration::plain().blink(), "blink"@),
        entry(Decoration::plain().hidden(), "hidden"@) + " (hidden)"@,
        entry(Decoration::plain().strikethrough(), "strike | strikethrough"@),
    ]
}

/// The escape styles that have a spelling of `ESC`, and what each does.
pub open spec fn escape_style_lines() -> Seq<Seq<char>> {
    seq![
        Decoration::plain().bold().painted("ESCAPE STYLES"@),
        "  bash:         "@ + EscEscapeStyle::Bash.help_text(),
        "  hex:          "@ + EscEscapeStyle::Hex.help_text(),
        "  unicode     : "@ + EscEscapeStyle::Unicode.help_text(),
        "  unicode-rust: "@ + EscEscapeStyle::UnicodeRust.help_text(),
    ]
}

/// The help text of the program `name` in `version`, which is found at `url`.
pub open spec fn help_lines_of(name: Seq<char>, version: Seq<char>, url: Seq<char>) -> Seq<
    Seq<char>,
> {
    title_lines(name, version, url) + synopsis_lines() + parameter_lines() + command_lines(name)
        + escape_style_lines()
}

/// Two texts, one behind the other.
fn joined(front: &str, back: &str) -> (text: String)
    ensures
        text@ == front@ + back@,
{
    let mut text = String::from_str(front);
    text.append(back);
    text
}

/// An entry of a list.
fn painted_entry(decoration: Decoration, text: &str) -> (line: String)
    ensures
        line@ == entry(decoration, text@),
{
    let painted = paint_with_style(&decoration, text);
    joined("    ", painted.as_str())
}

fn title(name: &str, version: &str, url: &str) -> (lines: Vec<String>)
    ensures
        line_texts(lines@) == title_lines(name@, version@, url@),
{
    let mut heading = ascii_uppercase(name);
    heading.append(" ('ansi') @ version ");
    heading.append(version);
    let mut found_at = joined("See - https://crates.io/crates/", name);
    found_at.append(" or");

    let mut lines: Vec<String> = Vec::new();
    lines.push(paint_with_style(&Decoration::plain().fg(Hue::Green).bold(), heading.as_str()));
    lines.push(String::from_str("Made by Philipp Schuster <phip1611@gmail.com>"));
    lines.push(found_at);
    lines.push(joined("      ", url));
    lines.push(String::from_str("----------------------------------------------------"));
    assert(line_texts(lines@) =~= title_lines(name@, version@, url@));
    lines
}

fn synopsis() -> (lines: Vec<String>)
    ensures
        line_texts(lines@) == synopsis_lines(),
{
    let plain = Decoration::plain();
    let red = paint_with_style(&plain.fg(Hue::Red), "red");
    let green = paint_with_style(&plain.fg(Hue::Green), "green");
    let bold = paint_with_style(&plain.bold(), "bold");
    let strike = paint_with_style(&plain.strikethrough(), "strike");
    let bg_cyan = paint_with_style(&plain.on(Hue::Cyan), "bg-cyan");
    let mut call = joined(" ansi ", red.as_str());
    call.append("|");
    call.append(green.as_str());
    call.append("|");
    call.append(bold.as_str());
    call.append("|");
    call.append(strike.as_str());
    call.append("|");
    call.append(bg_cyan.as_str());
    call.append("|... ");

    let mut lines: Vec<String> = Vec::new();
    lines.push(paint_with_style(&plain.bold(), "SYNOPSIS:"));
    lines.push(call);
    lines.push(String::from_str("      [-n|--new-line] [-e|--no-escape] [-h|--help]"));
    lines.push(String::from_str("      [-s|--escape-style bash|unicode|unicode-rust|hex]"));
    assert(line_texts(lines@) =~= synopsis_lines());
    lines
}

fn parameters() -> (lines: Vec<String>)
    ensures
        line_texts(lines@) == parameter_lines(),
{
    let mut lines: Vec<String> = Vec::new();
    lines.push(paint_with_style(&Decoration::plain().bold(), "PARAMETERS:"));
    lines.push(String::from_str("  -n: add new line character to output (default: false)"));
    lines.push(
        String::from_str(
            "  -e: don't escape 'ESC'-symbol, i.e. return the real ASCII value of `ESC` instead of `\\e`",
        ),
    );
    lines.push(
        String::from_str(
            "  -s: only useful if `-e` is NOT provided: style of the `ESC`-character-escaping",
        ),
    );
    assert(line_texts(lines@) =~= parameter_lines());
    lines
}

fn commands(name: &str) -> (lines: Vec<String>)
    ensures
        line_texts(lines@) == command_lines(name@),
{
    let plain = Decoration::plain();
    let mut hidden = painted_entry(plain.hidden(), "hidden");
    hidden.append(" (hidden)");

    let mut lines: Vec<String> = Vec::new();
    lines.push(paint_with_style(&plain.bold(), "COMMANDS:"));
    lines.push(joined("  For a full list visit: https://crates.io/crates/", name));
    lines.push(String::from_str("  The most basic ones are all supported. For example:"));
    lines.push(String::from_str("    reset"));
    lines.push(painted_entry(plain.fg(Hue::Black), "black"));
    lines.push(painted_entry(plain.on(Hue::Black), "bg-black"));
    lines.push(painted_entry(plain.fg(Hue::Red), "red"));
    lines.push(painted_entry(plain.on(Hue::Red), "bg-red"));
    lines.push(painted_entry(plain.fg(Hue::Green), "green"));
    lines.push(painted_entry(plain.on(Hue::Green), "bg-green"));
    lines.push(painted_entry(plain.fg(Hue::Yellow), "yellow"));
    lines.push(painted_entry(plain.on(Hue::Yellow), "bg-yellow"));
    lines.push(painted_entry(plain.fg(Hue::Blue), "blue"));
    lines.push(painted_entry(plain.on(Hue::Blue), "bg-blue"));
    lines.push(painted_entry(plain.fg(Hue::Purple), "purple"));
    lines.push(painted_entry(plain.on(Hue::Purple), "bg-purple"));
    lines.push(painted_entry(plain.fg(Hue::Cyan), "cyan"));
    lines.push(painted_entry(plain.on(Hue::Cyan), "bg-cyan"));
    lines.push(painted_entry(plain.fg(Hue::White), "white"));
    lines.push(painted_entry(plain.on(Hue::White), "bg-white"));
    lines.push(String::from_str("    normal"));
    lines.push(painted_entry(plain.bold(), "bold"));
    lines.push(painted_entry(plain.dimmed(), "dimmed"));
    lines.push(painted_entry(plain.italic(), "italic"));
    lines.push(painted_entry(plain.underline(), "underline"));
    lines.push(painted_entry(plain.blink(), "blink"));
    lines.push(hidden);
    lines.push(painted_entry(plain.strikethrough(), "strike | strikethrough"));
    assert(line_texts(lines@) =~= command_lines(name@));
    lines
}

fn escape_styles() -> (lines: Vec<String>)
    ensures
        line_texts(lines@) == escape_style_lines(),
{
    let mut lines: Vec<String> = Vec::new();
    lines.push(paint_with_style(&Decoration::plain().bold(), "ESCAPE STYLES"));
    lines.push(joined("  bash:         ", EscEscapeStyle::Bash.to_help_text()));
    lines.push(joined("  hex:          ", EscEscapeStyle::Hex.to_help_text()));
    lines.push(joined("  unicode     : ", EscEscapeStyle::Unicode.to_help_text()));
    lines.push(joined("  unicode-rust: ", EscEscapeStyle::UnicodeRust.to_help_text()));
    assert(line_texts(lines@) =~= escape_style_lines());
    lines
}

/// Returns the lines of the help text of the program `name` in `version`,
/// which is found at `url`.
pub fn help_lines(name: &str, version: &str, url: &str) -> (lines: Vec<String>)
    ensures
        line_texts(lines@) == help_lines_of(name@, version@, url@),
{
    let mut lines = title(name, version, url);
    let mut section = synopsis();
    lines.append(&mut section);
    let mut section = parameters();
    lines.append(&mut section);
    let mut section = commands(name);
    lines.append(&mut section);
    let mut section = escape_styles();
    lines.append(&mut section);
    assert(line_texts(lines@) =~= help_lines_of(name@, version@, url@));
    lines
}

} // verus!
