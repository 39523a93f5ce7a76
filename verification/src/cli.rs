//! The closed vocabularies: the ways to write `ESC`, and the keywords with
//! their codes. A request puts keywords and a way to write `ESC` together.

use crate::text::{
    decimal, is_digit, lemma_decimal_digits, lemma_decimal_len, lemma_decimal_value, numeral_value,
};
use crate::{escape_sequence_of, to_ansi_escape_sequence};
use vstd::prelude::*;
use vstd::string::*;

verus! {

/// Determines how the special `ESC` symbol (character) is escaped in normal
/// ASCII characters before being printed.
#[derive(Clone, Copy, Debug, PartialEq, Eq, Structural)]
pub enum EscEscapeStyle {
    /// Use `\e` (Bash style) for encoding.
    Bash,
    /// Use `\x1b` (hex style) for encoding.
    Hex,
    /// Use `\u001b` (unicode style) for encoding.
    Unicode,
    /// Use `\u{1b}` (Rust unicode style) for encoding.
    UnicodeRust,
    /// Print the `ESC` symbol as is and not encoded.
    Direct,
}

impl EscEscapeStyle {
    /// The characters that stand for `ESC` in this style.
    pub open spec fn esc_repr(self) -> Seq<char> {
        match self {
            EscEscapeStyle::Bash => seq!['\\', 'e'],
            EscEscapeStyle::Hex => seq!['\\', 'x', '1', 'b'],
            EscEscapeStyle::Unicode => seq!['\\', 'u', '0', '0', '1', 'b'],
            EscEscapeStyle::UnicodeRust => seq!['\\', 'u', '{', '1', 'b', '}'],
            EscEscapeStyle::Direct => seq!['\x1b'],
        }
    }

    /// Returns the (encoded) `ESC` escape sequence.
    pub fn escape_sequence(&self) -> (esc: &'static str)
        ensures
            esc@ == self.esc_repr(),
    {
        proof {
            reveal_strlit("\\e");
            reveal_strlit("\\x1b");
            reveal_strlit("\\u001b");
            reveal_strlit("\\u{1b}");
            reveal_strlit("\u{1b}");
        }
        match self {
            EscEscapeStyle::Bash => "\\e",
            EscEscapeStyle::Hex => "\\x1b",
            EscEscapeStyle::Unicode => "\\u001b",
            EscEscapeStyle::UnicodeRust => "\\u{1b}",
            EscEscapeStyle::Direct => "\u{1b}",
        }
    }
}

impl Default for EscEscapeStyle {
    /// The Bash style.
    fn default() -> (style: EscEscapeStyle)
        ensures
            style == EscEscapeStyle::Bash,
    {
        EscEscapeStyle::Bash
    }
}

/// A keyword that names a color or a font style.
#[derive(Clone, Copy, Debug, PartialEq, Eq, Structural)]
pub enum AnsiKeyword {
    /// Black foreground color.
    Black,
    /// Black background color.
    BgBlack,
    /// Red foreground color.
    Red,
    /// Red background color.
    BgRed,
    /// Green foreground color.
    Green,
    /// Green background color.
    BgGreen,
    /// Yellow foreground color.
    Yellow,
    /// Yellow background color.
    BgYellow,
    /// Blue foreground color.
    Blue,
    /// Blue background color.
    BgBlue,
    /// Magenta foreground color.
    Magenta,
    /// Magenta background color.
    BgMagenta,
    /// Cyan foreground color.
    Cyan,
    /// Cyan background color.
    BgCyan,
    /// White foreground color.
    White,
    /// White background color.
    BgWhite,
    /// Gray foreground color: bright black.
    Gray,
    /// Gray background color: bright black.
    BgGray,
    /// Bright red foreground color.
    BrightRed,
    /// Bright red background color.
    BgBrightRed,
    /// Bright green foreground color.
    BrightGreen,
    /// Bright green background color.
    BgBrightGreen,
    /// Bright yellow foreground color.
    BrightYellow,
    /// Bright yellow background color.
    BgBrightYellow,
    /// Bright blue foreground color.
    BrightBlue,
    /// Bright blue background color.
    BgBrightBlue,
    /// Bright magenta foreground color.
    BrightMagenta,
    /// Bright magenta background color.
    BgBrightMagenta,
    /// Bright cyan foreground color.
    BrightCyan,
    /// Bright cyan background color.
    BgBrightCyan,
    /// Bright white foreground color.
    BrightWhite,
    /// Bright white background color.
    BgBrightWhite,
    /// Reset/Clear all style.
    Clear,
    /// Reset/Clear all style.
    Reset,
    /// Bold font.
    Bold,
    /// Dimmed font.
    Dimmed,
    /// Italic font.
    Italic,
    /// Underlined font.
    Underline,
    /// Blinking font.
    Blink,
    /// Hidden font.
    Hidden,
    /// Strikethrough font.
    Strike,
    /// Strikethrough font.
    Strikethrough,
}

impl AnsiKeyword {
    /// The Select Graphic Rendition parameter that the keyword stands for.
    pub open spec fn sgr_parameter(self) -> nat {
        match self {
            AnsiKeyword::Black => 30,
            AnsiKeyword::BgBlack => 40,
            AnsiKeyword::Red => 31,
            AnsiKeyword::BgRed => 41,
            AnsiKeyword::Green => 32,
            AnsiKeyword::BgGreen => 42,
            AnsiKeyword::Yellow => 33,
            AnsiKeyword::BgYellow => 43,
            AnsiKeyword::Blue => 34,
            AnsiKeyword::BgBlue => 44,
            AnsiKeyword::Magenta => 35,
            AnsiKeyword::BgMagenta => 45,
            AnsiKeyword::Cyan => 36,
            AnsiKeyword::BgCyan => 46,
            AnsiKeyword::White => 37,
            AnsiKeyword::BgWhite => 47,
            AnsiKeyword::Gray => 90,
            AnsiKeyword::BgGray => 100,
            AnsiKeyword::BrightRed => 91,
            AnsiKeyword::BgBrightRed => 101,
            AnsiKeyword::BrightGreen => 92,
            AnsiKeyword::BgBrightGreen => 102,
            AnsiKeyword::BrightYellow => 93,
            AnsiKeyword::BgBrightYellow => 103,
            AnsiKeyword::BrightBlue => 94,
            AnsiKeyword::BgBrightBlue => 104,
            AnsiKeyword::BrightMagenta => 95,
            AnsiKeyword::BgBrightMagenta => 105,
            AnsiKeyword::BrightCyan => 96,
            AnsiKeyword::BgBrightCyan => 106,
            AnsiKeyword::BrightWhite => 97,
            AnsiKeyword::BgBrightWhite => 107,
            AnsiKeyword::Clear => 0,
            AnsiKeyword::Reset => 0,
            AnsiKeyword::Bold => 1,
            AnsiKeyword::Dimmed => 2,
            AnsiKeyword::Italic => 3,
            AnsiKeyword::Underline => 4,
            AnsiKeyword::Blink => 5,
            AnsiKeyword::Hidden => 8,
            AnsiKeyword::Strike => 9,
            AnsiKeyword::Strikethrough => 9,
        }
    }

    /// The keyword's code as text: the decimal numeral of its parameter.
    pub open spec fn ansi_code(self) -> Seq<char> {
        decimal(self.sgr_parameter())
    }

    /// Whether the keyword sets the color of the text.
    pub open spec fn is_foreground_color(self) -> bool {
        30 <= self.sgr_parameter() <= 37 || 90 <= self.sgr_parameter() <= 97
    }

    /// Whether the keyword sets the color behind the text.
    pub open spec fn is_background_color(self) -> bool {
        40 <= self.sgr_parameter() <= 47 || 100 <= self.sgr_parameter() <= 107
    }

    /// Whether the keyword sets a font style.
    pub open spec fn is_font_style(self) -> bool {
        1 <= self.sgr_parameter() <= 9
    }

    /// Whether the keyword takes every style back.
    pub open spec fn is_reset(self) -> bool {
        self.sgr_parameter() == 0
    }

    /// What a keyword of this kind is called in its help text.
    pub open spec fn kind_label(self) -> Seq<char> {
        if self.is_foreground_color() {
            " foreground color"@
        } else if self.is_background_color() {
            " background color"@
        } else {
            " font"@
        }
    }

    /// The help text of a keyword: the variant's name, shown in the style that
    /// the keyword selects, and the kind of the keyword.
    pub open spec fn help_text(self) -> Seq<char> {
        escape_sequence_of(EscEscapeStyle::Direct, seq![self]) + self.variant_name()
            + escape_sequence_of(EscEscapeStyle::Direct, seq![AnsiKeyword::Clear])
            + self.kind_label()
    }

    /// Every keyword is of exactly one kind.
    pub proof fn lemma_one_kind(self)
        ensures
            self.is_foreground_color() || self.is_background_color() || self.is_font_style()
                || self.is_reset(),
            !(self.is_foreground_color() && self.is_background_color()),
            !(self.is_foreground_color() && self.is_font_style()),
            !(self.is_background_color() && self.is_font_style()),
            self.is_reset() ==> !self.is_foreground_color() && !self.is_background_color()
                && !self.is_font_style(),
    {
    }

    /// A code is a decimal numeral of one to three digits, without framing and
    /// without a leading zero, but for the code `0` itself.
    pub proof fn lemma_ansi_code_is_numeral(self)
        ensures
            1 <= self.ansi_code().len() <= 3,
            forall|i: int| 0 <= i < self.ansi_code().len() ==> is_digit(#[trigger] self.ansi_code()[i]),
            self.ansi_code()[0] == '0' <==> self.is_reset(),
    {
        lemma_decimal_len(self.sgr_parameter());
        lemma_decimal_digits(self.sgr_parameter());
    }

    /// Synonyms share a code: `clear` and `reset` have `0`, `strike` and
    /// `strikethrough` have `9`.
    pub proof fn lemma_synonyms()
        ensures
            AnsiKeyword::Clear.ansi_code() == seq!['0'],
            AnsiKeyword::Reset.ansi_code() == seq!['0'],
            AnsiKeyword::Strike.ansi_code() == seq!['9'],
            AnsiKeyword::Strikethrough.ansi_code() == seq!['9'],
    {
    }

    /// Read as a decimal numeral, a code is the keyword's parameter.
    pub proof fn lemma_ansi_code_value(self)
        ensures
            numeral_value(self.ansi_code()) == self.sgr_parameter(),
    {
        lemma_decimal_value(self.sgr_parameter());
    }

    /// Returns the ANSI code of the style.
    pub fn to_ansi_code(self) -> (code: &'static str)
        ensures
            code@ == self.ansi_code(),
    {
        proof {
            reveal_with_fuel(decimal, 3);
            reveal_strlit("0");
            reveal_strlit("1");
            reveal_strlit("2");
            reveal_strlit("3");
            reveal_strlit("4");
            reveal_strlit("5");
            reveal_strlit("8");
            reveal_strlit("9");
            reveal_strlit("30");
            reveal_strlit("31");
            reveal_strlit("32");
            reveal_strlit("33");
            reveal_strlit("34");
            reveal_strlit("35");
            reveal_strlit("36");
            reveal_strlit("37");
            reveal_strlit("40");
            reveal_strlit("41");
            reveal_strlit("42");
            reveal_strlit("43");
            reveal_strlit("44");
            reveal_strlit("45");
            reveal_strlit("46");
            reveal_strlit("47");
            reveal_strlit("90");
            reveal_strlit("91");
            reveal_strlit("92");
            reveal_strlit("93");
            reveal_strlit("94");
            reveal_strlit("95");
            reveal_strlit("96");
            reveal_strlit("97");
            reveal_strlit("100");
            reveal_strlit("101");
            reveal_strlit("102");
            reveal_strlit("103");
            reveal_strlit("104");
            reveal_strlit("105");
            reveal_strlit("106");
            reveal_strlit("107");
        }
        match self {
            AnsiKeyword::Black => "30",
            AnsiKeyword::BgBlack => "40",
            AnsiKeyword::Red => "31",
            AnsiKeyword::BgRed => "41",
            AnsiKeyword::Green => "32",
            AnsiKeyword::BgGreen => "42",
            AnsiKeyword::Yellow => "33",
            AnsiKeyword::BgYellow => "43",
            AnsiKeyword::Blue => "34",
            AnsiKeyword::BgBlue => "44",
            AnsiKeyword::Magenta => "35",
            AnsiKeyword::BgMagenta => "45",
            AnsiKeyword::Cyan => "36",
            AnsiKeyword::BgCyan => "46",
            AnsiKeyword::White => "37",
            AnsiKeyword::BgWhite => "47",
            AnsiKeyword::Gray => "90",
            AnsiKeyword::BgGray => "100",
            AnsiKeyword::BrightRed => "91",
            AnsiKeyword::BgBrightRed => "101",
            AnsiKeyword::BrightGreen => "92",
            AnsiKeyword::BgBrightGreen => "102",
            AnsiKeyword::BrightYellow => "93",
            AnsiKeyword::BgBrightYellow => "103",
            AnsiKeyword::BrightBlue => "94",
            AnsiKeyword::BgBrightBlue => "104",
            AnsiKeyword::BrightMagenta => "95",
            AnsiKeyword::BgBrightMagenta => "105",
            AnsiKeyword::BrightCyan => "96",
            AnsiKeyword::BgBrightCyan => "106",
            AnsiKeyword::BrightWhite => "97",
            AnsiKeyword::BgBrightWhite => "107",
            AnsiKeyword::Bold => "1",
            AnsiKeyword::Dimmed => "2",
            AnsiKeyword::Italic => "3",
            AnsiKeyword::Underline => "4",
            AnsiKeyword::Blink => "5",
            AnsiKeyword::Hidden => "8",
            AnsiKeyword::Clear | AnsiKeyword::Reset => "0",
            AnsiKeyword::Strike | AnsiKeyword::Strikethrough => "9",
        }
    }

    /// Returns the help text of the keyword.
    pub fn to_help_text(self) -> (text: String)
        requires
            !self.is_reset(),
        ensures
            text@ == self.help_text(),
    {
        let begin_sequence = to_ansi_escape_sequence(EscEscapeStyle::Direct, &[self]);
        let end_sequence = to_ansi_escape_sequence(EscEscapeStyle::Direct, &[AnsiKeyword::Clear]);
        let label = match self {
            AnsiKeyword::Black
            | AnsiKeyword::Red
            | AnsiKeyword::Green
            | AnsiKeyword::Yellow
            | AnsiKeyword::Blue
            | AnsiKeyword::Magenta
            | AnsiKeyword::Cyan
            | AnsiKeyword::White
            | AnsiKeyword::Gray
            | AnsiKeyword::BrightRed
            | AnsiKeyword::BrightGreen
            | AnsiKeyword::BrightYellow
            | AnsiKeyword::BrightBlue
            | AnsiKeyword::BrightMagenta
            | AnsiKeyword::BrightCyan
            | AnsiKeyword::BrightWhite => " foreground color",
            AnsiKeyword::BgBlack
            | AnsiKeyword::BgRed
            | AnsiKeyword::BgGreen
            | AnsiKeyword::BgYellow
            | AnsiKeyword::BgBlue
            | AnsiKeyword::BgMagenta
            | AnsiKeyword::BgCyan
            | AnsiKeyword::BgWhite
            | AnsiKeyword::BgGray
            | AnsiKeyword::BgBrightRed
            | AnsiKeyword::BgBrightGreen
            | AnsiKeyword::BgBrightYellow
            | AnsiKeyword::BgBrightBlue
            | AnsiKeyword::BgBrightMagenta
            | AnsiKeyword::BgBrightCyan
            | AnsiKeyword::BgBrightWhite => " background color",
            _ => " font",
        };
        let mut text = begin_sequence;
        text.append(self.to_variant_name());
        text.append(end_sequence.as_str());
        text.append(label);
        text
    }
}

/// One request: the keywords to select, how to write `ESC`, and whether a line
/// break follows the sequence.
#[derive(Clone, Debug)]
pub struct Cli {
    /// Add a trailing new-line character (`\n`) to the output.
    pub new_line: bool,
    /// Determines the style to encode the `ESC` symbol.
    pub escape_style: EscEscapeStyle,
    /// The keywords, in the order in which their codes appear.
    pub keywords: Vec<AnsiKeyword>,
}

impl Cli {
    /// What the request writes: the escape sequence, and a line break where
    /// one was asked for.
    pub open spec fn output_text(&self) -> Seq<char> {
        if self.new_line {
            escape_sequence_of(self.escape_style, self.keywords@) + seq!['\n']
        } else {
            escape_sequence_of(self.escape_style, self.keywords@)
        }
    }

    /// Returns what the request writes.
    pub fn output(&self) -> (text: String)
        ensures
            text@ == self.output_text(),
    {
        let mut text = to_ansi_escape_sequence(self.escape_style, self.keywords.as_slice());
        if self.new_line {
            proof {
                reveal_strlit("\n");
            }
            text.append("\n");
        }
        text
    }
}

} // verus!
