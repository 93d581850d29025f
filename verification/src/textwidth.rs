//! Unicode-aware text measurement for the terminal: display widths in
//! columns, truncation, padding, and alignment. The widths themselves come
//! from the `unicode-width` crate; everything built on them is verified.

use vstd::prelude::*;

use crate::textfmt::push_char;
use unicode_width::{UnicodeWidthChar, UnicodeWidthStr};

verus! {

/// The display width of one character in terminal columns, or nothing for a
/// control character. Names the result of `UnicodeWidthChar::width`, which
/// depends on the character alone.
pub uninterp spec fn char_cols_opt(c: char) -> Option<usize>;

/// The display width of a string in terminal columns. Names the result of
/// `UnicodeWidthStr::width`, which depends on the characters alone.
pub uninterp spec fn text_cols(s: Seq<char>) -> nat;

/// The display width of one character, counting control characters as zero.
pub open spec fn char_cols(c: char) -> nat {
    match char_cols_opt(c) {
        None => 0,
        Some(w) => w as nat,
    }
}

/// Relies on unicode_width's UnicodeWidthChar::width: the displayed width of
/// the character in columns, `None` for a control character.
#[verifier::external_body]
fn char_width_raw(ch: char) -> (r: Option<usize>)
    ensures
        r == char_cols_opt(ch),
{
    UnicodeWidthChar::width(ch)
}

/// Relies on unicode_width's UnicodeWidthStr::width: the displayed width of
/// the string in columns; an empty string has width zero.
#[verifier::external_body]
fn str_width_raw(text: &str) -> (r: usize)
    ensures
        r as nat == text_cols(text@),
        text@.len() == 0 ==> r == 0,
{
    UnicodeWidthStr::width(text)
}

/// The length of the longest prefix whose characters, counted one at a time,
/// keep their accumulated width within `budget` columns.
pub open spec fn col_prefix_len(s: Seq<char>, budget: nat) -> nat
    decreases s.len(),
{
    if s.len() == 0 {
        0
    } else if char_cols(s.first()) <= budget {
        (1 + col_prefix_len(s.drop_first(), (budget - char_cols(s.first())) as nat)) as nat
    } else {
        0
    }
}

/// A sequence of `n` copies of one character.
pub open spec fn char_run(c: char, n: nat) -> Seq<char> {
    Seq::new(n, |i: int| c)
}

/// A string truncated to fit `max_width` columns: unchanged when it fits;
/// else the longest character prefix within `max_width - 3` columns, with a
/// trailing ellipsis when any characters were dropped.
pub open spec fn spec_truncate_to_width(s: Seq<char>, max_width: nat) -> Seq<char> {
    if text_cols(s) <= max_width {
        s
    } else {
        let budget = if max_width >= 3 {
            (max_width - 3) as nat
        } else {
            0
        };
        let k = col_prefix_len(s, budget);
        if k < s.len() {
            s.take(k as int) + "..."@
        } else {
            s.take(k as int)
        }
    }
}

/// A string padded with spaces on the right up to `target_width` columns;
/// unchanged when it is already that wide.
pub open spec fn spec_pad_to_width(s: Seq<char>, target_width: nat) -> Seq<char> {
    if text_cols(s) >= target_width {
        s
    } else {
        s + char_run(' ', (target_width - text_cols(s)) as nat)
    }
}

/// Text alignment options for box formatting.
#[derive(Debug, Clone, Copy, PartialEq, Eq, Structural)]
pub enum Alignment {
    Left,
    Center,
    Right,
}

/// A string aligned within `box_width` columns: truncated when it does not
/// fit, else padded with spaces on the side(s) the alignment dictates.
pub open spec fn spec_align_in_box(s: Seq<char>, box_width: nat, alignment: Alignment) -> Seq<
    char,
> {
    if text_cols(s) >= box_width {
        spec_truncate_to_width(s, box_width)
    } else {
        let padding = (box_width - text_cols(s)) as nat;
        match alignment {
            Alignment::Left => s + char_run(' ', padding),
            Alignment::Center => char_run(' ', padding / 2) + s + char_run(
                ' ',
                (padding - padding / 2) as nat,
            ),
            Alignment::Right => char_run(' ', padding) + s,
        }
    }
}

/// Utility for measuring and shaping text by its displayed width, with
/// multi-byte characters handled correctly.
#[derive(Debug)]
pub struct TextWidthCalculator;

impl TextWidthCalculator {
    /// The display width of a string in terminal columns.
    pub fn display_width(text: &str) -> (r: usize)
        ensures
            r as nat == text_cols(text@),
            text@.len() == 0 ==> r == 0,
    {
        str_width_raw(text)
    }

    /// The display width of a single character, zero for control characters.
    pub fn char_width(ch: char) -> (r: usize)
        ensures
            r as nat == char_cols(ch),
    {
        match char_width_raw(ch) {
            None => 0,
            Some(w) => w,
        }
    }

    /// Truncates text to fit within `max_width` columns, never splitting a
    /// character, appending an ellipsis when anything was dropped.
    pub fn truncate_to_width(text: &str, max_width: usize) -> (r: String)
        ensures
            r@ == spec_truncate_to_width(text@, max_width as nat),
    {
        let total = Self::display_width(text);
        if total <= max_width {
            return text.to_owned();
        }
        let budget: usize = if max_width >= 3 {
            max_width - 3
        } else {
            0
        };
        let n = text.unicode_len();
        let i = col_prefix_exec(text, budget);
        let prefix = text.substring_char(0, i);
        let mut r = prefix.to_owned();
        if i < n {
            r.append("...");
        }
        proof {
            assert(text@.subrange(0, i as int) =~= text@.take(i as int));
            assert(r@ =~= spec_truncate_to_width(text@, max_width as nat));
        }
        r
    }

    /// Pads text with spaces to `target_width` columns.
    pub fn pad_to_width(text: &str, target_width: usize) -> (r: String)
        ensures
            r@ == spec_pad_to_width(text@, target_width as nat),
    {
        let current = Self::display_width(text);
        let mut r = text.to_owned();
        if current >= target_width {
            return r;
        }
        let padding: usize = target_width - current;
        push_spaces(&mut r, padding);
        proof {
            assert(r@ =~= spec_pad_to_width(text@, target_width as nat));
        }
        r
    }

    /// A horizontal line of `width` copies of the given character.
    pub fn horizontal_line(width: usize, ch: char) -> (r: String)
        ensures
            r@ == char_run(ch, width as nat),
    {
        let mut r = String::new();
        let mut i: usize = 0;
        while i < width
            invariant
                i <= width,
                r@ =~= char_run(ch, i as nat),
            decreases width - i,
        {
            push_char(&mut r, ch);
            proof {
                assert(r@ =~= char_run(ch, (i + 1) as nat));
            }
            i = i + 1;
        }
        proof {
            assert(r@ =~= char_run(ch, width as nat));
        }
        r
    }

    /// Aligns text within a box of `box_width` columns.
    pub fn align_in_box(text: &str, box_width: usize, alignment: Alignment) -> (r: String)
        ensures
            r@ == spec_align_in_box(text@, box_width as nat, alignment),
    {
        let text_width = Self::display_width(text);
        if text_width >= box_width {
            return Self::truncate_to_width(text, box_width);
        }
        let padding: usize = box_width - text_width;
        match alignment {
            Alignment::Left => {
                let mut r = text.to_owned();
                push_spaces(&mut r, padding);
                proof {
                    assert(r@ =~= spec_align_in_box(text@, box_width as nat, alignment));
                }
                r
            },
            Alignment::Center => {
                let left_padding: usize = padding / 2;
                let right_padding: usize = padding - left_padding;
                let mut r = String::new();
                push_spaces(&mut r, left_padding);
                r.append(text);
                push_spaces(&mut r, right_padding);
                proof {
                    assert(r@ =~= spec_align_in_box(text@, box_width as nat, alignment));
                }
                r
            },
            Alignment::Right => {
                let mut r = String::new();
                push_spaces(&mut r, padding);
                r.append(text);
                proof {
                    assert(r@ =~= spec_align_in_box(text@, box_width as nat, alignment));
                }
                r
            },
        }
    }
}

/// The length of the longest character prefix of `text` whose accumulated
/// width stays within `budget` columns.
fn col_prefix_exec(text: &str, budget: usize) -> (k: usize)
    ensures
        k as nat == col_prefix_len(text@, budget as nat),
        k <= text@.len(),
{
    let n = text.unicode_len();
    let mut i: usize = 0;
    let mut rem: usize = budget;
    proof {
        assert(text@.skip(0) =~= text@);
    }
    while i < n
        invariant
            i <= n,
            n == text@.len(),
            rem <= budget,
            col_prefix_len(text@, budget as nat) == i + col_prefix_len(
                text@.skip(i as int),
                rem as nat,
            ),
        decreases n - i,
    {
        let w = TextWidthCalculator::char_width(text.get_char(i));
        proof {
            assert(text@.skip(i as int).first() == text@[i as int]);
            assert(text@.skip(i as int).drop_first() =~= text@.skip(i as int + 1));
        }
        if w > rem {
            proof {
                assert(col_prefix_len(text@.skip(i as int), rem as nat) == 0);
            }
            return i;
        }
        rem = rem - w;
        i = i + 1;
    }
    proof {
        assert(text@.skip(n as int).len() == 0);
        assert(col_prefix_len(text@.skip(n as int), rem as nat) == 0);
    }
    i
}

/// Appends `n` spaces to a string.
fn push_spaces(s: &mut String, n: usize)
    ensures
        final(s)@ == old(s)@ + char_run(' ', n as nat),
{
    let mut i: usize = 0;
    proof {
        assert(old(s)@ + char_run(' ', 0) =~= old(s)@);
    }
    while i < n
        invariant
            i <= n,
            s@ == old(s)@ + char_run(' ', i as nat),
        decreases n - i,
    {
        push_char(s, ' ');
        proof {
            assert(s@ =~= old(s)@ + char_run(' ', (i + 1) as nat));
        }
        i = i + 1;
    }
}

} // verus!
