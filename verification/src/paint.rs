//! Text in color and in font styles, painted by `ansi_term`.

use crate::cli::{AnsiKeyword, EscEscapeStyle};
use crate::escape_sequence_of;
use ansi_term::Colour::{Black, Blue, Cyan, Green, Purple, Red, White, Yellow};
use ansi_term::Style;
use vstd::prelude::*;

verus! {

/// One of the eight colors that have a name, in the order of their numbers
/// from 0 to 7.
#[derive(Clone, Copy, Debug, PartialEq, Eq, Structural)]
pub enum Hue {
    Black,
    Red,
    Green,
    Yellow,
    Blue,
    Purple,
    Cyan,
    White,
}

impl Hue {
    /// The keyword that gives text this color.
    pub open spec fn foreground(self) -> AnsiKeyword {
        match self {
            Hue::Black => AnsiKeyword::Black,
            Hue::Red => AnsiKeyword::Red,
            Hue::Green => AnsiKeyword::Green,
            Hue::Yellow => AnsiKeyword::Yellow,
            Hue::Blue => AnsiKeyword::Blue,
            Hue::Purple => AnsiKeyword::Magenta,
            Hue::Cyan => AnsiKeyword::Cyan,
            Hue::White => AnsiKeyword::White,
        }
    }

    /// The keyword that puts this color behind text.
    pub open spec fn background(self) -> AnsiKeyword {
        match self {
            Hue::Black => AnsiKeyword::BgBlack,
            Hue::Red => AnsiKeyword::BgRed,
            Hue::Green => AnsiKeyword::BgGreen,
            Hue::Yellow => AnsiKeyword::BgYellow,
            Hue::Blue => AnsiKeyword::BgBlue,
            Hue::Purple => AnsiKeyword::BgMagenta,
            Hue::Cyan => AnsiKeyword::BgCyan,
            Hue::White => AnsiKeyword::BgWhite,
        }
    }
}

/// How a piece of text is shown: its colors and its font styles.
#[derive(Clone, Copy, Debug, PartialEq, Eq, Structural)]
pub struct Decoration {
    /// The color of the text, if one is set.
    pub foreground: Option<Hue>,
    /// The color behind the text, if one is set.
    pub background: Option<Hue>,
    /// Whether the text is bold.
    pub bold: bool,
    /// Whether the text is dimmed.
    pub dimmed: bool,
    /// Whether the text is in italics.
    pub italic: bool,
    /// Whether the text is underlined.
    pub underline: bool,
    /// Whether the text blinks.
    pub blink: bool,
    /// Whether the text is hidden.
    pub hidden: bool,
    /// Whether the text is struck through.
    pub strikethrough: bool,
}

/// The keyword alone where `on` holds, and nothing where it does not.
pub open spec fn keyword_if(on: bool, keyword: AnsiKeyword) -> Seq<AnsiKeyword> {
    if on {
        seq![keyword]
    } else {
        Seq::empty()
    }
}

impl Decoration {
    /// The keywords that select the decoration: the font styles by rising
    /// code, then the color behind the text, then the color of the text.
    pub open spec fn keywords(self) -> Seq<AnsiKeyword> {
        keyword_if(self.bold, AnsiKeyword::Bold) + keyword_if(self.dimmed, AnsiKeyword::Dimmed)
            + keyword_if(self.italic, AnsiKeyword::Italic) + keyword_if(
            self.underline,
            AnsiKeyword::Underline,
        ) + keyword_if(self.blink, AnsiKeyword::Blink) + keyword_if(
            self.hidden,
            AnsiKeyword::Hidden,
        ) + keyword_if(self.strikethrough, AnsiKeyword::Strike) + match self.background {
            Some(hue) => seq![hue.background()],
            None => Seq::empty(),
        } + match self.foreground {
            Some(hue) => seq![hue.foreground()],
            None => Seq::empty(),
        }
    }

    /// The text in this decoration: the sequence that selects the decoration,
    /// the text, and the sequence that takes every style back. Text without
    /// any decoration stays as it is.
    pub open spec fn painted(self, text: Seq<char>) -> Seq<char> {
        if self.keywords().len() == 0 {
            text
        } else {
            escape_sequence_of(EscEscapeStyle::Direct, self.keywords()) + text
                + escape_sequence_of(EscEscapeStyle::Direct, seq![AnsiKeyword::Reset])
        }
    }

    /// One font style or one color takes one keyword, bold text in a color
    /// takes `bold` and then the color, and plain text takes none.
    pub proof fn lemma_keywords_of_one(hue: Hue)
        ensures
            Decoration::plain().keywords() == Seq::<AnsiKeyword>::empty(),
            Decoration::plain().bold().keywords() == seq![AnsiKeyword::Bold],
            Decoration::plain().dimmed().keywords() == seq![AnsiKeyword::Dimmed],
            Decoration::plain().italic().keywords() == seq![AnsiKeyword::Italic],
            Decoration::plain().underline().keywords() == seq![AnsiKeyword::Underline],
            Decoration::plain().blink().keywords() == seq![AnsiKeyword::Blink],
            Decoration::plain().hidden().keywords() == seq![AnsiKeyword::Hidden],
            Decoration::plain().strikethrough().keywords() == seq![AnsiKeyword::Strike],
            Decoration::plain().fg(hue).keywords() == seq![hue.foreground()],
            Decoration::plain().on(hue).keywords() == seq![hue.background()],
            Decoration::plain().fg(hue).bold().keywords() == seq![
                AnsiKeyword::Bold,
                hue.foreground(),
            ],
    {
    }

    /// A color as foreground and as background: the codes are the color's
    /// number from 0 to 7 behind a 3 and behind a 4.
    pub proof fn lemma_color_codes(hue: Hue)
        ensures
            30 <= hue.foreground().sgr_parameter() <= 37,
            hue.background().sgr_parameter() == hue.foreground().sgr_parameter() + 10,
            hue.foreground().is_foreground_color(),
            hue.background().is_background_color(),
    {
    }

    /// No color and no font style.
    #[verifier::allow_in_spec]
    pub fn plain() -> Decoration
        returns
            (Decoration {
                foreground: None,
                background: None,
                bold: false,
                dimmed: false,
                italic: false,
                underline: false,
                blink: false,
                hidden: false,
                strikethrough: false,
            }),
    {
        Decoration {
            foreground: None,
            background: None,
            bold: false,
            dimmed: false,
            italic: false,
            underline: false,
            blink: false,
            hidden: false,
            strikethrough: false,
        }
    }

    /// The same, in bold.
    #[verifier::allow_in_spec]
    pub fn bold(self) -> Decoration
        returns
            (Decoration { bold: true, ..self }),
    {
        Decoration { bold: true, ..self }
    }

    /// The same, dimmed.
    #[verifier::allow_in_spec]
    pub fn dimmed(self) -> Decoration
        returns
            (Decoration { dimmed: true, ..self }),
    {
        Decoration { dimmed: true, ..self }
    }

    /// The same, in italics.
    #[verifier::allow_in_spec]
    pub fn italic(self) -> Decoration
        returns
            (Decoration { italic: true, ..self }),
    {
        Decoration { italic: true, ..self }
    }

    /// The same, underlined.
    #[verifier::allow_in_spec]
    pub fn underline(self) -> Decoration
        returns
            (Decoration { underline: true, ..self }),
    {
        Decoration { underline: true, ..self }
    }

    /// The same, blinking.
    #[verifier::allow_in_spec]
    pub fn blink(self) -> Decoration
        returns
            (Decoration { blink: true, ..self }),
    {
        Decoration { blink: true, ..self }
    }

    /// The same, hidden.
    #[verifier::allow_in_spec]
    pub fn hidden(self) -> Decoration
        returns
            (Decoration { hidden: true, ..self }),
    {
        Decoration { hidden: true, ..self }
    }

    /// The same, struck through.
    #[verifier::allow_in_spec]
    pub fn strikethrough(self) -> Decoration
        returns
            (Decoration { strikethrough: true, ..self }),
    {
        Decoration { strikethrough: true, ..self }
    }

    /// The same, with the text in the color `hue`.
    #[verifier::allow_in_spec]
    pub fn fg(self, hue: Hue) -> Decoration
        returns
            (Decoration { foreground: Some(hue), ..self }),
    {
        Decoration { foreground: Some(hue), ..self }
    }

    /// The same, with the color `hue` behind the text.
    #[verifier::allow_in_spec]
    pub fn on(self, hue: Hue) -> Decoration
        returns
            (Decoration { background: Some(hue), ..self }),
    {
        Decoration { background: Some(hue), ..self }
    }
}

/// `ansi_term::Style::paint`, and the text that the painted string displays.
/// The style is written as `ESC[`, the codes of what is set, separated by `;`
/// (bold 1, dimmed 2, italic 3, underline 4, blink 5, hidden 8, strikethrough
/// 9, then the background as 40 and the color's number, then the foreground
/// as 30 and the color's number) and `m`; after the text comes `ESC[0m`. A
/// style with nothing set writes the text alone. The colors are numbered in
/// the order in which [`Hue`] declares them.
#[verifier::external_body]
pub(crate) fn paint_with_style(decoration: &Decoration, text: &str) -> (painted: String)
    ensures
        painted@ == decoration.painted(text@),
{
    let colours = [Black, Red, Green, Yellow, Blue, Purple, Cyan, White];
    let style = Style {
        foreground: decoration.foreground.map(|hue| colours[hue as usize]),
        background: decoration.background.map(|hue| colours[hue as usize]),
        is_bold: decoration.bold,
        is_dimmed: decoration.dimmed,
        is_italic: decoration.italic,
        is_underline: decoration.underline,
        is_blink: decoration.blink,
        is_hidden: decoration.hidden,
        is_strikethrough: decoration.strikethrough,
        ..Style::default()
    };
    style.paint(text).to_string()
}

} // verus!
