/*
MIT License

Copyright (c) 2021 Philipp Schuster

Permission is hereby granted, free of charge, to any person obtaining a copy
of this software and associated documentation files (the "Software"), to deal
in the Software without restriction, including without limitation the rights
to use, copy, modify, merge, publish, distribute, sublicense, and/or sell
copies of the Software, and to permit persons to whom the Software is
furnished to do so, subject to the following conditions:

The above copyright notice and this permission notice shall be included in all
copies or substantial portions of the Software.

THE SOFTWARE IS PROVIDED "AS IS", WITHOUT WARRANTY OF ANY KIND, EXPRESS OR
IMPLIED, INCLUDING BUT NOT LIMITED TO THE WARRANTIES OF MERCHANTABILITY,
FITNESS FOR A PARTICULAR PURPOSE AND NONINFRINGEMENT. IN NO EVENT SHALL THE
AUTHORS OR COPYRIGHT HOLDERS BE LIABLE FOR ANY CLAIM, DAMAGES OR OTHER
LIABILITY, WHETHER IN AN ACTION OF CONTRACT, TORT OR OTHERWISE, ARISING FROM,
OUT OF OR IN CONNECTION WITH THE SOFTWARE OR THE USE OR OTHER DEALINGS IN THE
SOFTWARE.
*/
//! Turns color and style keywords into ANSI/VT100 escape sequences.
//!
//! A sequence is the `ESC` character in the chosen spelling, `[`, the codes of
//! the keywords separated by `;`, and `m`.

pub mod cli;
pub mod help;
pub mod input;
pub mod names;
pub mod paint;
pub mod text;

use crate::cli::{AnsiKeyword, EscEscapeStyle};
use crate::text::lemma_decimal_len;
use vstd::prelude::*;
use vstd::string::*;

verus! {

/// The codes of `keywords`, in their order, with a `;` between neighbours.
pub open spec fn joined_codes(keywords: Seq<AnsiKeyword>) -> Seq<char>
    decreases keywords.len(),
{
    if keywords.len() == 0 {
        Seq::empty()
    } else if keywords.len() == 1 {
        keywords[0].ansi_code()
    } else {
        joined_codes(keywords.drop_last()) + seq![';'] + keywords.last().ansi_code()
    }
}

/// The escape sequence that selects `keywords`, with `ESC` written in `style`.
pub open spec fn escape_sequence_of(style: EscEscapeStyle, keywords: Seq<AnsiKeyword>) -> Seq<char> {
    style.esc_repr() + seq!['['] + joined_codes(keywords) + seq!['m']
}

/// Joined codes are empty only when there is no keyword.
pub proof fn lemma_joined_codes_empty(keywords: Seq<AnsiKeyword>)
    ensures
        joined_codes(keywords).len() == 0 <==> keywords.len() == 0,
    decreases keywords.len(),
{
    if keywords.len() == 1 {
        lemma_decimal_len(keywords[0].sgr_parameter());
    } else if keywords.len() > 1 {
        lemma_decimal_len(keywords.last().sgr_parameter());
    }
}

/// Joining keeps the order of the keywords: the codes of `front` followed by
/// `back` are the codes of `front`, a `;`, and the codes of `back`.
pub proof fn lemma_joined_codes_concat(front: Seq<AnsiKeyword>, back: Seq<AnsiKeyword>)
    requires
        front.len() > 0,
        back.len() > 0,
    ensures
        joined_codes(front + back) == joined_codes(front) + seq![';'] + joined_codes(back),
    decreases back.len(),
{
    let all = front + back;
    assert(all.last() == back.last());
    if back.len() == 1 {
        assert(all.drop_last() =~= front);
    } else {
        assert(all.drop_last() =~= front + back.drop_last());
        lemma_joined_codes_concat(front, back.drop_last());
        assert(joined_codes(all) =~= joined_codes(front) + seq![';'] + joined_codes(back));
    }
}

/// A single keyword gives the style's spelling of `ESC`, `[`, the keyword's
/// code, and `m`: in Bash style `\e[`, the code, and `m`.
pub proof fn lemma_single_keyword(style: EscEscapeStyle, keyword: AnsiKeyword)
    ensures
        escape_sequence_of(style, seq![keyword]) == style.esc_repr() + seq!['[']
            + keyword.ansi_code() + seq!['m'],
        escape_sequence_of(EscEscapeStyle::Bash, seq![keyword]) == seq!['\\', 'e', '[']
            + keyword.ansi_code() + seq!['m'],
{
    assert(seq!['\\', 'e'] + seq!['['] =~= seq!['\\', 'e', '[']);
}

/// The style decides how `ESC` is written and nothing else: a sequence starts
/// with the style's spelling of `ESC`, and what follows is the same in every
/// style.
pub proof fn lemma_style_changes_only_esc(
    style: EscEscapeStyle,
    other: EscEscapeStyle,
    keywords: Seq<AnsiKeyword>,
)
    ensures
        escape_sequence_of(style, keywords).take(style.esc_repr().len() as int)
            == style.esc_repr(),
        escape_sequence_of(style, keywords).skip(style.esc_repr().len() as int) == seq!['[']
            + joined_codes(keywords) + seq!['m'],
        escape_sequence_of(style, keywords).skip(style.esc_repr().len() as int)
            == escape_sequence_of(other, keywords).skip(other.esc_repr().len() as int),
{
    let rest = seq!['['] + joined_codes(keywords) + seq!['m'];
    assert(escape_sequence_of(style, keywords) =~= style.esc_repr() + rest);
    assert(escape_sequence_of(other, keywords) =~= other.esc_repr() + rest);
    assert((style.esc_repr() + rest).take(style.esc_repr().len() as int) =~= style.esc_repr());
    assert((style.esc_repr() + rest).skip(style.esc_repr().len() as int) =~= rest);
    assert((other.esc_repr() + rest).skip(other.esc_repr().len() as int) =~= rest);
}

/// Builds the escape sequence for `ansi_keywords`, in their order, with `ESC`
/// written as `esc_encode_style` says.
pub fn to_ansi_escape_sequence(
    esc_encode_style: EscEscapeStyle,
    ansi_keywords: &[AnsiKeyword],
) -> (sequence: String)
    ensures
        sequence@ == escape_sequence_of(esc_encode_style, ansi_keywords@),
{
    let mut sequence = String::from_str(esc_encode_style.escape_sequence());
    proof {
        reveal_strlit("[");
        reveal_strlit("m");
        assert("["@ =~= seq!['[']);
        assert("m"@ =~= seq!['m']);
    }
    sequence.append("[");

    let mut codes = String::new();
    let mut i: usize = 0;
    while i < ansi_keywords.len()
        invariant
            i <= ansi_keywords.len(),
            codes@ == joined_codes(ansi_keywords@.take(i as int)),
        decreases ansi_keywords.len() - i,
    {
        let next = ansi_keywords[i].to_ansi_code();
        proof {
            let before = ansi_keywords@.take(i as int);
            let after = ansi_keywords@.take(i + 1);
            lemma_joined_codes_empty(before);
            assert(after.drop_last() =~= before);
            assert(after.last() == ansi_keywords@[i as int]);
        }
        if codes.as_str().is_empty() {
            codes.append(next);
        } else {
            codes.append(";");
            codes.append(next);
        }
        proof {
            reveal_strlit(";");
            assert(";"@ =~= seq![';']);
            assert(codes@ =~= joined_codes(ansi_keywords@.take(i + 1)));
        }
        i += 1;
    }
    assert(ansi_keywords@.take(i as int) =~= ansi_keywords@);
    sequence.append(codes.as_str());
    sequence.append("m");
    sequence
}

} // verus!
