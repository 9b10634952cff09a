//! UI state the interaction loop writes and a renderer reads, and the
//! text-wrapping step the renderer uses for the output pane.

use vstd::prelude::*;

use unicode_width::{UnicodeWidthChar, UnicodeWidthStr};

use crate::text::{clear_string, push_char};

verus! {

/// One engine candidate as shown to the user.
#[derive(Debug)]
pub struct Candidate {
    pub text: String,
    pub comment: String,
    pub highlighted: bool,
}

impl Default for Candidate {
    fn default() -> (c: Self)
        ensures
            c.text@ == Seq::<char>::empty(),
            c.comment@ == Seq::<char>::empty(),
            !c.highlighted,
    {
        Candidate { text: String::new(), comment: String::new(), highlighted: false }
    }
}

/// The mutable UI state: composition preedit, candidate list, accumulated
/// output, and diagnostic log lines.
#[derive(Debug)]
pub struct UiData {
    pub preedit: String,
    pub candidates: Vec<Candidate>,
    pub output: String,
    pub log: Vec<String>,
    pub select_labels: Option<Vec<String>>,
}

impl Default for UiData {
    fn default() -> (d: Self)
        ensures
            d.preedit@ == Seq::<char>::empty(),
            d.candidates@ == Seq::<Candidate>::empty(),
            d.output@ == Seq::<char>::empty(),
            d.log@ == Seq::<String>::empty(),
            d.select_labels is None,
    {
        UiData {
            preedit: String::new(),
            candidates: Vec::new(),
            output: String::new(),
            log: Vec::new(),
            select_labels: None,
        }
    }
}

/// The displayed width in columns of a character; control characters
/// have none. The value depends on the character alone.
pub uninterp spec fn char_width_of(c: char) -> Option<usize>;

/// The displayed width in columns of a string. The value depends on the
/// characters alone (some character sequences, such as emoji built from
/// several code points, count differently than their characters' sum).
pub uninterp spec fn str_width_of(s: Seq<char>) -> nat;

/// Relies on `UnicodeWidthChar::width` of the unicode-width crate: the
/// character's displayed width in columns, or `None` for a control
/// character, determined by the character alone.
#[verifier::external_body]
fn char_width(c: char) -> (r: Option<usize>)
    ensures
        r == char_width_of(c),
{
    UnicodeWidthChar::width(c)
}

/// Relies on `UnicodeWidthStr::width` of the unicode-width crate: the
/// string's displayed width in columns, determined by its characters
/// alone.
#[verifier::external_body]
fn str_width(s: &str) -> (r: usize)
    ensures
        r as nat == str_width_of(s@),
{
    UnicodeWidthStr::width(s)
}

/// The columns one more character adds when deciding where to break a
/// line: its displayed width, counting a control character as one.
pub open spec fn spec_char_columns(c: char) -> nat {
    match char_width_of(c) {
        Some(w) => w as nat,
        None => 1,
    }
}

/// One step of the wrapping fold. The accumulator is (finished lines,
/// line count, current line). A newline always finishes the current
/// line; any other character joins it and finishes it when the line has
/// grown too wide for the pane.
pub open spec fn spec_wrap_step(
    acc: (Seq<char>, nat, Seq<char>),
    c: char,
    width: u16,
) -> (Seq<char>, nat, Seq<char>) {
    if c == '\n' {
        (acc.0 + acc.2 + seq!['\n'], acc.1 + 1, Seq::<char>::empty())
    } else {
        let cur = acc.2.push(c);
        if str_width_of(cur) + spec_char_columns(c) > width as nat {
            (acc.0 + cur + seq!['\n'], acc.1 + 1, Seq::<char>::empty())
        } else {
            (acc.0, acc.1, cur)
        }
    }
}

/// The wrapping fold over a whole text.
pub open spec fn spec_wrap_fold(text: Seq<char>, width: u16) -> (Seq<char>, nat, Seq<char>)
    decreases text.len(),
{
    if text.len() == 0 {
        (Seq::<char>::empty(), 0 as nat, Seq::<char>::empty())
    } else {
        spec_wrap_step(spec_wrap_fold(text.drop_last(), width), text.last(), width)
    }
}

/// The wrapped text and its line count: the fold's finished lines, plus
/// the unfinished last line (without a trailing newline) if one is left.
pub open spec fn spec_wrap_text(text: Seq<char>, width: u16) -> (nat, Seq<char>) {
    let acc = spec_wrap_fold(text, width);
    if acc.2.len() > 0 {
        (acc.1 + 1, acc.0 + acc.2)
    } else {
        (acc.1, acc.0)
    }
}

/// Breaks a text into display lines no wider than the pane and counts
/// them, so the renderer can scroll to the bottom of the output.
pub fn wrap_text(text: &str, width: u16) -> (r: (u16, String))
    requires
        text@.len() < 65535,
    ensures
        r.0 as nat == spec_wrap_text(text@, width).0,
        r.1@ == spec_wrap_text(text@, width).1,
{
    let n = text.unicode_len();
    let mut wrapped_lines = String::new();
    let mut line_count: u16 = 0;
    let mut line = String::new();
    let mut i: usize = 0;
    while i < n
        invariant
            n as nat == text@.len(),
            text@.len() < 65535,
            i <= n,
            line_count as nat <= i as nat,
            wrapped_lines@ == spec_wrap_fold(text@.take(i as int), width).0,
            line_count as nat == spec_wrap_fold(text@.take(i as int), width).1,
            line@ == spec_wrap_fold(text@.take(i as int), width).2,
        decreases n - i,
    {
        let c = text.get_char(i);
        let ghost prev = spec_wrap_fold(text@.take(i as int), width);
        proof {
            assert(text@.take(i + 1).drop_last() =~= text@.take(i as int));
            assert(text@.take(i + 1).last() == text@[i as int]);
        }
        if c == '\n' {
            wrapped_lines.append(line.as_str());
            push_char(&mut wrapped_lines, '\n');
            clear_string(&mut line);
            line_count = line_count + 1;
            proof {
                assert(wrapped_lines@ =~= prev.0 + prev.2 + seq!['\n']);
            }
        } else {
            push_char(&mut line, c);
            let lw = str_width(line.as_str());
            let cw = match char_width(c) {
                Some(w) => w,
                None => 1,
            };
            let w = width as usize;
            let over = if lw > w {
                true
            } else {
                cw > w - lw
            };
            if over {
                wrapped_lines.append(line.as_str());
                push_char(&mut wrapped_lines, '\n');
                clear_string(&mut line);
                line_count = line_count + 1;
                proof {
                    assert(wrapped_lines@ =~= prev.0 + prev.2.push(c) + seq!['\n']);
                }
            }
        }
        i = i + 1;
    }
    proof {
        assert(text@.take(n as int) =~= text@);
    }
    if !line.as_str().is_empty() {
        wrapped_lines.append(line.as_str());
        line_count = line_count + 1;
    }
    (line_count, wrapped_lines)
}

} // verus!
