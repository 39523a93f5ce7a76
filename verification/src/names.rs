//! Names: of the escape styles, of the keywords and of their variants, and
//! the way back from a name to what it names.

use crate::cli::{AnsiKeyword, EscEscapeStyle};
use crate::text::{str_eq, tokens};
use vstd::prelude::*;

verus! {

impl EscEscapeStyle {
    /// The name by which the style is chosen.
    pub open spec fn name(self) -> Seq<char> {
        match self {
            EscEscapeStyle::Bash => "bash"@,
            EscEscapeStyle::Hex => "hex"@,
            EscEscapeStyle::Unicode => "unicode"@,
            EscEscapeStyle::UnicodeRust => "unicode-rust"@,
            EscEscapeStyle::Direct => "direct"@,
        }
    }

    /// The style with the given name, if there is one.
    pub open spec fn named(name: Seq<char>) -> Option<EscEscapeStyle> {
        if exists|style: EscEscapeStyle| style.name() == name {
            Some(choose|style: EscEscapeStyle| style.name() == name)
        } else {
            None
        }
    }

    /// What the style does, in a sentence.
    pub open spec fn help_text(self) -> Seq<char> {
        match self {
            EscEscapeStyle::Bash => "Use `\\e` (Bash style) for encoding."@,
            EscEscapeStyle::Hex => "Use `\\x1b` (hex style) for encoding."@,
            EscEscapeStyle::Unicode => "Use `\\u001b` (unicode style) for encoding."@,
            EscEscapeStyle::UnicodeRust => "Use `\\u{1b}` (Rust unicode style) for encoding."@,
            EscEscapeStyle::Direct => "Print the `ESC` symbol as is and not encoded."@,
        }
    }

    /// The length of each name.
    proof fn lemma_name_len(self)
        ensures
            self.name().len() == match self {
                EscEscapeStyle::Bash => 4nat,
                EscEscapeStyle::Hex => 3nat,
                EscEscapeStyle::Unicode => 7nat,
                EscEscapeStyle::UnicodeRust => 12nat,
                EscEscapeStyle::Direct => 6nat,
            },
    {
        reveal_strlit("bash");
        reveal_strlit("hex");
        reveal_strlit("unicode");
        reveal_strlit("unicode-rust");
        reveal_strlit("direct");
    }

    /// No two styles share a name.
    pub proof fn lemma_names_distinct(a: EscEscapeStyle, b: EscEscapeStyle)
        requires
            a.name() == b.name(),
        ensures
            a == b,
    {
        a.lemma_name_len();
        b.lemma_name_len();
    }

    /// A style is found again by its name.
    pub proof fn lemma_named_of_name(style: EscEscapeStyle)
        ensures
            EscEscapeStyle::named(style.name()) == Some(style),
    {
        let found = choose|other: EscEscapeStyle| other.name() == style.name();
        EscEscapeStyle::lemma_names_distinct(found, style);
    }

    /// Returns the name by which the style is chosen.
    pub fn to_name(&self) -> (name: &'static str)
        ensures
            name@ == self.name(),
    {
        match self {
            EscEscapeStyle::Bash => "bash",
            EscEscapeStyle::Hex => "hex",
            EscEscapeStyle::Unicode => "unicode",
            EscEscapeStyle::UnicodeRust => "unicode-rust",
            EscEscapeStyle::Direct => "direct",
        }
    }

    /// Finds the style that `name` names. Names are matched exactly.
    pub fn from_name(name: &str) -> (found: Option<EscEscapeStyle>)
        ensures
            found == EscEscapeStyle::named(name@),
            match found {
                Some(style) => style.name() == name@,
                None => forall|style: EscEscapeStyle| style.name() != name@,
            },
    {
        let found = if str_eq(name, "bash") {
            Some(EscEscapeStyle::Bash)
        } else if str_eq(name, "hex") {
            Some(EscEscapeStyle::Hex)
        } else if str_eq(name, "unicode") {
            Some(EscEscapeStyle::Unicode)
        } else if str_eq(name, "unicode-rust") {
            Some(EscEscapeStyle::UnicodeRust)
        } else if str_eq(name, "direct") {
            Some(EscEscapeStyle::Direct)
        } else {
            None
        };
        proof {
            match found {
                Some(style) => {
                    EscEscapeStyle::lemma_named_of_name(style);
                },
                None => {
                    assert forall|style: EscEscapeStyle| style.name() != name@ by {}
                },
            }
        }
        found
    }

    /// Returns what the style does, in a sentence.
    pub fn to_help_text(&self) -> (text: &'static str)
        ensures
            text@ == self.help_text(),
    {
        match self {
            EscEscapeStyle::Bash => "Use `\\e` (Bash style) for encoding.",
            EscEscapeStyle::Hex => "Use `\\x1b` (hex style) for encoding.",
            EscEscapeStyle::Unicode => "Use `\\u001b` (unicode style) for encoding.",
            EscEscapeStyle::UnicodeRust => "Use `\\u{1b}` (Rust unicode style) for encoding.",
            EscEscapeStyle::Direct => "Print the `ESC` symbol as is and not encoded.",
        }
    }
}

/// What tells the names of the keywords apart: the length, the last character
/// and the last but two.
spec fn name_mark(name: Seq<char>) -> (nat, char, char) {
    (name.len(), name[name.len() - 1], name[name.len() - 3])
}

impl AnsiKeyword {
    /// The name of the variant, as `Debug` prints it.
    pub open spec fn variant_name(self) -> Seq<char> {
        match self {
            AnsiKeyword::Black => "Black"@,
            AnsiKeyword::BgBlack => "BgBlack"@,
            AnsiKeyword::Red => "Red"@,
            AnsiKeyword::BgRed => "BgRed"@,
            AnsiKeyword::Green => "Green"@,
            AnsiKeyword::BgGreen => "BgGreen"@,
            AnsiKeyword::Yellow => "Yellow"@,
            AnsiKeyword::BgYellow => "BgYellow"@,
            AnsiKeyword::Blue => "Blue"@,
            AnsiKeyword::BgBlue => "BgBlue"@,
            AnsiKeyword::Magenta => "Magenta"@,
            AnsiKeyword::BgMagenta => "BgMagenta"@,
            AnsiKeyword::Cyan => "Cyan"@,
            AnsiKeyword::BgCyan => "BgCyan"@,
            AnsiKeyword::White => "White"@,
            AnsiKeyword::BgWhite => "BgWhite"@,
            AnsiKeyword::Gray => "Gray"@,
            AnsiKeyword::BgGray => "BgGray"@,
            AnsiKeyword::BrightRed => "BrightRed"@,
            AnsiKeyword::BgBrightRed => "BgBrightRed"@,
            AnsiKeyword::BrightGreen => "BrightGreen"@,
            AnsiKeyword::BgBrightGreen => "BgBrightGreen"@,
            AnsiKeyword::BrightYellow => "BrightYellow"@,
            AnsiKeyword::BgBrightYellow => "BgBrightYellow"@,
            AnsiKeyword::BrightBlue => "BrightBlue"@,
            AnsiKeyword::BgBrightBlue => "BgBrightBlue"@,
            AnsiKeyword::BrightMagenta => "BrightMagenta"@,
            AnsiKeyword::BgBrightMagenta => "BgBrightMagenta"@,
            AnsiKeyword::BrightCyan => "BrightCyan"@,
            AnsiKeyword::BgBrightCyan => "BgBrightCyan"@,
            AnsiKeyword::BrightWhite => "BrightWhite"@,
            AnsiKeyword::BgBrightWhite => "BgBrightWhite"@,
            AnsiKeyword::Clear => "Clear"@,
            AnsiKeyword::Reset => "Reset"@,
            AnsiKeyword::Bold => "Bold"@,
            AnsiKeyword::Dimmed => "Dimmed"@,
            AnsiKeyword::Italic => "Italic"@,
            AnsiKeyword::Underline => "Underline"@,
            AnsiKeyword::Blink => "Blink"@,
            AnsiKeyword::Hidden => "Hidden"@,
            AnsiKeyword::Strike => "Strike"@,
            AnsiKeyword::Strikethrough => "Strikethrough"@,
        }
    }

    /// The name by which the keyword is chosen: the variant's name in kebab case.
    pub open spec fn name(self) -> Seq<char> {
        match self {
            AnsiKeyword::Black => "black"@,
            AnsiKeyword::BgBlack => "bg-black"@,
            AnsiKeyword::Red => "red"@,
            AnsiKeyword::BgRed => "bg-red"@,
            AnsiKeyword::Green => "green"@,
            AnsiKeyword::BgGreen => "bg-green"@,
            AnsiKeyword::Yellow => "yellow"@,
            AnsiKeyword::BgYellow => "bg-yellow"@,
            AnsiKeyword::Blue => "blue"@,
            AnsiKeyword::BgBlue => "bg-blue"@,
            AnsiKeyword::Magenta => "magenta"@,
            AnsiKeyword::BgMagenta => "bg-magenta"@,
            AnsiKeyword::Cyan => "cyan"@,
            AnsiKeyword::BgCyan => "bg-cyan"@,
            AnsiKeyword::White => "white"@,
            AnsiKeyword::BgWhite => "bg-white"@,
            AnsiKeyword::Gray => "gray"@,
            AnsiKeyword::BgGray => "bg-gray"@,
            AnsiKeyword::BrightRed => "bright-red"@,
            AnsiKeyword::BgBrightRed => "bg-bright-red"@,
            AnsiKeyword::BrightGreen => "bright-green"@,
            AnsiKeyword::BgBrightGreen => "bg-bright-green"@,
            AnsiKeyword::BrightYellow => "bright-yellow"@,
            AnsiKeyword::BgBrightYellow => "bg-bright-yellow"@,
            AnsiKeyword::BrightBlue => "bright-blue"@,
            AnsiKeyword::BgBrightBlue => "bg-bright-blue"@,
            AnsiKeyword::BrightMagenta => "bright-magenta"@,
            AnsiKeyword::BgBrightMagenta => "bg-bright-magenta"@,
            AnsiKeyword::BrightCyan => "bright-cyan"@,
            AnsiKeyword::BgBrightCyan => "bg-bright-cyan"@,
            AnsiKeyword::BrightWhite => "bright-white"@,
            AnsiKeyword::BgBrightWhite => "bg-bright-white"@,
            AnsiKeyword::Clear => "clear"@,
            AnsiKeyword::Reset => "reset"@,
            AnsiKeyword::Bold => "bold"@,
            AnsiKeyword::Dimmed => "dimmed"@,
            AnsiKeyword::Italic => "italic"@,
            AnsiKeyword::Underline => "underline"@,
            AnsiKeyword::Blink => "blink"@,
            AnsiKeyword::Hidden => "hidden"@,
            AnsiKeyword::Strike => "strike"@,
            AnsiKeyword::Strikethrough => "strikethrough"@,
        }
    }

    /// The keyword with the given name, if there is one.
    pub open spec fn named(name: Seq<char>) -> Option<AnsiKeyword> {
        if exists|keyword: AnsiKeyword| keyword.name() == name {
            Some(choose|keyword: AnsiKeyword| keyword.name() == name)
        } else {
            None
        }
    }

    /// The length, the last character and the last but two of each name.
    proof fn lemma_name_mark(self)
        ensures
            name_mark(self.name()) == match self {
                AnsiKeyword::Black => (5nat, 'k', 'a'),
                AnsiKeyword::BgBlack => (8nat, 'k', 'a'),
                AnsiKeyword::Red => (3nat, 'd', 'r'),
                AnsiKeyword::BgRed => (6nat, 'd', 'r'),
                AnsiKeyword::Green => (5nat, 'n', 'e'),
                AnsiKeyword::BgGreen => (8nat, 'n', 'e'),
                AnsiKeyword::Yellow => (6nat, 'w', 'l'),
                AnsiKeyword::BgYellow => (9nat, 'w', 'l'),
                AnsiKeyword::Blue => (4nat, 'e', 'l'),
                AnsiKeyword::BgBlue => (7nat, 'e', 'l'),
                AnsiKeyword::Magenta => (7nat, 'a', 'n'),
                AnsiKeyword::BgMagenta => (10nat, 'a', 'n'),
                AnsiKeyword::Cyan => (4nat, 'n', 'y'),
                AnsiKeyword::BgCyan => (7nat, 'n', 'y'),
                AnsiKeyword::White => (5nat, 'e', 'i'),
                AnsiKeyword::BgWhite => (8nat, 'e', 'i'),
                AnsiKeyword::Gray => (4nat, 'y', 'r'),
                AnsiKeyword::BgGray => (7nat, 'y', 'r'),
                AnsiKeyword::BrightRed => (10nat, 'd', 'r'),
                AnsiKeyword::BgBrightRed => (13nat, 'd', 'r'),
                AnsiKeyword::BrightGreen => (12nat, 'n', 'e'),
                AnsiKeyword::BgBrightGreen => (15nat, 'n', 'e'),
                AnsiKeyword::BrightYellow => (13nat, 'w', 'l'),
                AnsiKeyword::BgBrightYellow => (16nat, 'w', 'l'),
                AnsiKeyword::BrightBlue => (11nat, 'e', 'l'),
                AnsiKeyword::BgBrightBlue => (14nat, 'e', 'l'),
                AnsiKeyword::BrightMagenta => (14nat, 'a', 'n'),
                AnsiKeyword::BgBrightMagenta => (17nat, 'a', 'n'),
                AnsiKeyword::BrightCyan => (11nat, 'n', 'y'),
                AnsiKeyword::BgBrightCyan => (14nat, 'n', 'y'),
                AnsiKeyword::BrightWhite => (12nat, 'e', 'i'),
                AnsiKeyword::BgBrightWhite => (15nat, 'e', 'i'),
                AnsiKeyword::Clear => (5nat, 'r', 'e'),
                AnsiKeyword::Reset => (5nat, 't', 's'),
                AnsiKeyword::Bold => (4nat, 'd', 'o'),
                AnsiKeyword::Dimmed => (6nat, 'd', 'm'),
                AnsiKeyword::Italic => (6nat, 'c', 'l'),
                AnsiKeyword::Underline => (9nat, 'e', 'i'),
                AnsiKeyword::Blink => (5nat, 'k', 'i'),
                AnsiKeyword::Hidden => (6nat, 'n', 'd'),
                AnsiKeyword::Strike => (6nat, 'e', 'i'),
                AnsiKeyword::Strikethrough => (13nat, 'h', 'u'),
            },
    {
        reveal_strlit("black");
        reveal_strlit("bg-black");
        reveal_strlit("red");
        reveal_strlit("bg-red");
        reveal_strlit("green");
        reveal_strlit("bg-green");
        reveal_strlit("yellow");
        reveal_strlit("bg-yellow");
        reveal_strlit("blue");
        reveal_strlit("bg-blue");
        reveal_strlit("magenta");
        reveal_strlit("bg-magenta");
        reveal_strlit("cyan");
        reveal_strlit("bg-cyan");
        reveal_strlit("white");
        reveal_strlit("bg-white");
        reveal_strlit("gray");
        reveal_strlit("bg-gray");
        reveal_strlit("bright-red");
        reveal_strlit("bg-bright-red");
        reveal_strlit("bright-green");
        reveal_strlit("bg-bright-green");
        reveal_strlit("bright-yellow");
        reveal_strlit("bg-bright-yellow");
        reveal_strlit("bright-blue");
        reveal_strlit("bg-bright-blue");
        reveal_strlit("bright-magenta");
        reveal_strlit("bg-bright-magenta");
        reveal_strlit("bright-cyan");
        reveal_strlit("bg-bright-cyan");
        reveal_strlit("bright-white");
        reveal_strlit("bg-bright-white");
        reveal_strlit("clear");
        reveal_strlit("reset");
        reveal_strlit("bold");
        reveal_strlit("dimmed");
        reveal_strlit("italic");
        reveal_strlit("underline");
        reveal_strlit("blink");
        reveal_strlit("hidden");
        reveal_strlit("strike");
        reveal_strlit("strikethrough");
    }

    /// No two keywords share a name.
    pub proof fn lemma_names_distinct(a: AnsiKeyword, b: AnsiKeyword)
        requires
            a.name() == b.name(),
        ensures
            a == b,
    {
        a.lemma_name_mark();
        b.lemma_name_mark();
    }

    /// A keyword is found again by its name.
    pub proof fn lemma_named_of_name(keyword: AnsiKeyword)
        ensures
            AnsiKeyword::named(keyword.name()) == Some(keyword),
    {
        let found = choose|other: AnsiKeyword| other.name() == keyword.name();
        AnsiKeyword::lemma_names_distinct(found, keyword);
    }

    /// Returns the name of the variant, as `Debug` prints it.
    pub fn to_variant_name(self) -> (name: &'static str)
        ensures
            name@ == self.variant_name(),
    {
        match self {
            AnsiKeyword::Black => "Black",
            AnsiKeyword::BgBlack => "BgBlack",
            AnsiKeyword::Red => "Red",
            AnsiKeyword::BgRed => "BgRed",
            AnsiKeyword::Green => "Green",
            AnsiKeyword::BgGreen => "BgGreen",
            AnsiKeyword::Yellow => "Yellow",
            AnsiKeyword::BgYellow => "BgYellow",
            AnsiKeyword::Blue => "Blue",
            AnsiKeyword::BgBlue => "BgBlue",
            AnsiKeyword::Magenta => "Magenta",
            AnsiKeyword::BgMagenta => "BgMagenta",
            AnsiKeyword::Cyan => "Cyan",
            AnsiKeyword::BgCyan => "BgCyan",
            AnsiKeyword::White => "White",
            AnsiKeyword::BgWhite => "BgWhite",
            AnsiKeyword::Gray => "Gray",
            AnsiKeyword::BgGray => "BgGray",
            AnsiKeyword::BrightRed => "BrightRed",
            AnsiKeyword::BgBrightRed => "BgBrightRed",
            AnsiKeyword::BrightGreen => "BrightGreen",
            AnsiKeyword::BgBrightGreen => "BgBrightGreen",
            AnsiKeyword::BrightYellow => "BrightYellow",
            AnsiKeyword::BgBrightYellow => "BgBrightYellow",
            AnsiKeyword::BrightBlue => "BrightBlue",
            AnsiKeyword::BgBrightBlue => "BgBrightBlue",
            AnsiKeyword::BrightMagenta => "BrightMagenta",
            AnsiKeyword::BgBrightMagenta => "BgBrightMagenta",
            AnsiKeyword::BrightCyan => "BrightCyan",
            AnsiKeyword::BgBrightCyan => "BgBrightCyan",
            AnsiKeyword::BrightWhite => "BrightWhite",
            AnsiKeyword::BgBrightWhite => "BgBrightWhite",
            AnsiKeyword::Clear => "Clear",
            AnsiKeyword::Reset => "Reset",
            AnsiKeyword::Bold => "Bold",
            AnsiKeyword::Dimmed => "Dimmed",
            AnsiKeyword::Italic => "Italic",
            AnsiKeyword::Underline => "Underline",
            AnsiKeyword::Blink => "Blink",
            AnsiKeyword::Hidden => "Hidden",
            AnsiKeyword::Strike => "Strike",
            AnsiKeyword::Strikethrough => "Strikethrough",
        }
    }

    /// Returns the name by which the keyword is chosen.
    pub fn to_name(self) -> (name: &'static str)
        ensures
            name@ == self.name(),
    {
        match self {
            AnsiKeyword::Black => "black",
            AnsiKeyword::BgBlack => "bg-black",
            AnsiKeyword::Red => "red",
            AnsiKeyword::BgRed => "bg-red",
            AnsiKeyword::Green => "green",
            AnsiKeyword::BgGreen => "bg-green",
            AnsiKeyword::Yellow => "yellow",
            AnsiKeyword::BgYellow => "bg-yellow",
            AnsiKeyword::Blue => "blue",
            AnsiKeyword::BgBlue => "bg-blue",
            AnsiKeyword::Magenta => "magenta",
            AnsiKeyword::BgMagenta => "bg-magenta",
            AnsiKeyword::Cyan => "cyan",
            AnsiKeyword::BgCyan => "bg-cyan",
            AnsiKeyword::White => "white",
            AnsiKeyword::BgWhite => "bg-white",
            AnsiKeyword::Gray => "gray",
            AnsiKeyword::BgGray => "bg-gray",
            AnsiKeyword::BrightRed => "bright-red",
            AnsiKeyword::BgBrightRed => "bg-bright-red",
            AnsiKeyword::BrightGreen => "bright-green",
            AnsiKeyword::BgBrightGreen => "bg-bright-green",
            AnsiKeyword::BrightYellow => "bright-yellow",
            AnsiKeyword::BgBrightYellow => "bg-bright-yellow",
            AnsiKeyword::BrightBlue => "bright-blue",
            AnsiKeyword::BgBrightBlue => "bg-bright-blue",
            AnsiKeyword::BrightMagenta => "bright-magenta",
            AnsiKeyword::BgBrightMagenta => "bg-bright-magenta",
            AnsiKeyword::BrightCyan => "bright-cyan",
            AnsiKeyword::BgBrightCyan => "bg-bright-cyan",
            AnsiKeyword::BrightWhite => "bright-white",
            AnsiKeyword::BgBrightWhite => "bg-bright-white",
            AnsiKeyword::Clear => "clear",
            AnsiKeyword::Reset => "reset",
            AnsiKeyword::Bold => "bold",
            AnsiKeyword::Dimmed => "dimmed",
            AnsiKeyword::Italic => "italic",
            AnsiKeyword::Underline => "underline",
            AnsiKeyword::Blink => "blink",
            AnsiKeyword::Hidden => "hidden",
            AnsiKeyword::Strike => "strike",
            AnsiKeyword::Strikethrough => "strikethrough",
        }
    }

    /// Finds the keyword that `name` names. Names are matched exactly.
    pub fn from_name(name: &str) -> (found: Option<AnsiKeyword>)
        ensures
            found == AnsiKeyword::named(name@),
            match found {
                Some(keyword) => keyword.name() == name@,
                None => forall|keyword: AnsiKeyword| keyword.name() != name@,
            },
    {
        let found = if str_eq(name, "black") {
            Some(AnsiKeyword::Black)
        } else if str_eq(name, "bg-black") {
            Some(AnsiKeyword::BgBlack)
        } else if str_eq(name, "red") {
            Some(AnsiKeyword::Red)
        } else if str_eq(name, "bg-red") {
            Some(AnsiKeyword::BgRed)
        } else if str_eq(name, "green") {
            Some(AnsiKeyword::Green)
        } else if str_eq(name, "bg-green") {
            Some(AnsiKeyword::BgGreen)
        } else if str_eq(name, "yellow") {
            Some(AnsiKeyword::Yellow)
        } else if str_eq(name, "bg-yellow") {
            Some(AnsiKeyword::BgYellow)
        } else if str_eq(name, "blue") {
            Some(AnsiKeyword::Blue)
        } else if str_eq(name, "bg-blue") {
            Some(AnsiKeyword::BgBlue)
        } else if str_eq(name, "magenta") {
            Some(AnsiKeyword::Magenta)
        } else if str_eq(name, "bg-magenta") {
            Some(AnsiKeyword::BgMagenta)
        } else if str_eq(name, "cyan") {
            Some(AnsiKeyword::Cyan)
        } else if str_eq(name, "bg-cyan") {
            Some(AnsiKeyword::BgCyan)
        } else if str_eq(name, "white") {
            Some(AnsiKeyword::White)
        } else if str_eq(name, "bg-white") {
            Some(AnsiKeyword::BgWhite)
        } else if str_eq(name, "gray") {
            Some(AnsiKeyword::Gray)
        } else if str_eq(name, "bg-gray") {
            Some(AnsiKeyword::BgGray)
        } else if str_eq(name, "bright-red") {
            Some(AnsiKeyword::BrightRed)
        } else if str_eq(name, "bg-bright-red") {
            Some(AnsiKeyword::BgBrightRed)
        } else if str_eq(name, "bright-green") {
            Some(AnsiKeyword::BrightGreen)
        } else if str_eq(name, "bg-bright-green") {
            Some(AnsiKeyword::BgBrightGreen)
        } else if str_eq(name, "bright-yellow") {
            Some(AnsiKeyword::BrightYellow)
        } else if str_eq(name, "bg-bright-yellow") {
            Some(AnsiKeyword::BgBrightYellow)
        } else if str_eq(name, "bright-blue") {
            Some(AnsiKeyword::BrightBlue)
        } else if str_eq(name, "bg-bright-blue") {
            Some(AnsiKeyword::BgBrightBlue)
        } else if str_eq(name, "bright-magenta") {
            Some(AnsiKeyword::BrightMagenta)
        } else if str_eq(name, "bg-bright-magenta") {
            Some(AnsiKeyword::BgBrightMagenta)
        } else if str_eq(name, "bright-cyan") {
            Some(AnsiKeyword::BrightCyan)
        } else if str_eq(name, "bg-bright-cyan") {
            Some(AnsiKeyword::BgBrightCyan)
        } else if str_eq(name, "bright-white") {
            Some(AnsiKeyword::BrightWhite)
        } else if str_eq(name, "bg-bright-white") {
            Some(AnsiKeyword::BgBrightWhite)
        } else if str_eq(name, "clear") {
            Some(AnsiKeyword::Clear)
        } else if str_eq(name, "reset") {
            Some(AnsiKeyword::Reset)
        } else if str_eq(name, "bold") {
            Some(AnsiKeyword::Bold)
        } else if str_eq(name, "dimmed") {
            Some(AnsiKeyword::Dimmed)
        } else if str_eq(name, "italic") {
            Some(AnsiKeyword::Italic)
        } else if str_eq(name, "underline") {
            Some(AnsiKeyword::Underline)
        } else if str_eq(name, "blink") {
            Some(AnsiKeyword::Blink)
        } else if str_eq(name, "hidden") {
            Some(AnsiKeyword::Hidden)
        } else if str_eq(name, "strike") {
            Some(AnsiKeyword::Strike)
        } else if str_eq(name, "strikethrough") {
            Some(AnsiKeyword::Strikethrough)
        } else {
            None
        };
        proof {
            match found {
                Some(keyword) => {
                    AnsiKeyword::lemma_named_of_name(keyword);
                },
                None => {
                    assert forall|keyword: AnsiKeyword| keyword.name() != name@ by {}
                },
            }
        }
        found
    }
}

/// Why a list of names gives no keywords. An index is that of the name at
/// fault.
#[derive(Clone, Copy, Debug, PartialEq, Eq, Structural)]
pub enum KeywordError {
    /// The list is empty.
    MissingKeywords,
    /// The name at this index is no keyword, and those before it are.
    UnknownKeyword(usize),
}

/// Finds the keywords that `names` name, in their order. A list without names
/// is turned down, and so is a list with a name that is no keyword: the first
/// such name is reported.
pub fn keywords_from_names(names: &[&str]) -> (found: Result<Vec<AnsiKeyword>, KeywordError>)
    ensures
        match found {
            Ok(keywords) => {
                &&& names@.len() > 0
                &&& keywords@.len() == names@.len()
                &&& forall|i: int|
                    0 <= i < names@.len() ==> AnsiKeyword::named(#[trigger] tokens(names)[i])
                        == Some(keywords@[i])
            },
            Err(KeywordError::MissingKeywords) => names@.len() == 0,
            Err(KeywordError::UnknownKeyword(at)) => {
                &&& at < names@.len()
                &&& AnsiKeyword::named(tokens(names)[at as int]) is None
                &&& forall|i: int|
                    0 <= i < at ==> AnsiKeyword::named(#[trigger] tokens(names)[i]) is Some
            },
        },
{
    if names.len() == 0 {
        return Err(KeywordError::MissingKeywords);
    }
    let mut keywords: Vec<AnsiKeyword> = Vec::new();
    let mut i: usize = 0;
    while i < names.len()
        invariant
            i <= names.len(),
            keywords@.len() == i,
            forall|j: int|
                0 <= j < i ==> AnsiKeyword::named(#[trigger] tokens(names)[j]) == Some(
                    keywords@[j],
                ),
        decreases names.len() - i,
    {
        assert(tokens(names)[i as int] == names[i as int]@);
        match AnsiKeyword::from_name(names[i]) {
            Some(keyword) => {
                keywords.push(keyword);
            },
            None => {
                return Err(KeywordError::UnknownKeyword(i));
            },
        }
        i += 1;
    }
    Ok(keywords)
}

} // verus!
