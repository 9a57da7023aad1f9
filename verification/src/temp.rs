//! Scratch storage that the encoder reuses from call to call.

use crate::barrier::Barrier;
use vstd::prelude::*;

verus! {

/// The UTF-16 code units of one character: the character's code if it is
/// below 0x10000, else a high and a low surrogate that share the 20 bits of
/// the code less 0x10000.
pub open spec fn utf16_of_char(c: char) -> Seq<u16> {
    let code = c as u32;
    if code < 0x1_0000 {
        seq![code as u16]
    } else {
        seq![
            (0xD800 + (code - 0x1_0000) / 0x400) as u16,
            (0xDC00 + (code - 0x1_0000) % 0x400) as u16,
        ]
    }
}

/// The UTF-16 encoding of a text.
pub open spec fn utf16_units(text: Seq<char>) -> Seq<u16>
    decreases text.len(),
{
    if text.len() == 0 {
        seq![]
    } else {
        utf16_units(text.drop_last()) + utf16_of_char(text.last())
    }
}

/// A text as the native debug calls take it: UTF-16, ended by a zero.
pub open spec fn wide_text(text: Seq<char>) -> Seq<u16> {
    utf16_units(text).push(0u16)
}

/// The size of that form in bytes.
pub open spec fn wide_text_size(text: Seq<char>) -> nat {
    wide_text(text).len() * 2
}

/// A text has at most two UTF-16 code units for each character.
pub proof fn lemma_utf16_len(text: Seq<char>)
    ensures
        utf16_units(text).len() <= 2 * text.len(),
        wide_text_size(text) <= 4 * text.len() + 2,
    decreases text.len(),
{
    if text.len() > 0 {
        lemma_utf16_len(text.drop_last());
    }
}

/// The UTF-16 code units of `text`, as `str::encode_utf16` of the standard
/// library yields them. The contract spells out what UTF-16 is: one unit for
/// a character of the basic plane, a surrogate pair for any other, in the
/// order of the characters and with nothing before or after.
#[verifier::external_body]
fn encode_utf16(text: &str) -> (units: Vec<u16>)
    ensures
        units@ == utf16_units(text@),
{
    text.encode_utf16().collect()
}

/// Gives a text the form that the native debug calls take.
pub fn wide_string(text: &str) -> (wide: Vec<u16>)
    ensures
        wide@ == wide_text(text@),
{
    let mut wide = encode_utf16(text);
    wide.push(0);
    wide
}

/// Scratch storage of one encoder: the barriers of the batch that is being
/// put together, and the text of the debug marker that was staged last.
#[derive(Debug)]
pub struct Temp {
    pub marker: Vec<u16>,
    pub barriers: Vec<Barrier>,
}

/// The scratch storage as a mathematical value.
#[verifier::ext_equal]
pub ghost struct TempView {
    pub marker: Seq<u16>,
    pub barriers: Seq<Barrier>,
}

impl View for Temp {
    type V = TempView;

    open spec fn view(&self) -> TempView {
        TempView { marker: self.marker@, barriers: self.barriers@ }
    }
}

impl Temp {
    pub fn new() -> (temp: Temp)
        ensures
            temp@ == (TempView { marker: seq![], barriers: seq![] }),
    {
        Temp { marker: Vec::new(), barriers: Vec::new() }
    }

    /// Empties both buffers.
    pub fn clear(&mut self)
        ensures
            final(self)@ == (TempView { marker: seq![], barriers: seq![] }),
    {
        self.marker.clear();
        self.barriers.clear();
    }

    /// Stages `marker` for a native debug call: afterwards the marker buffer
    /// holds the text as UTF-16 with a zero at its end. Returns the staged
    /// text and its size in bytes.
    pub fn prepare_marker(&mut self, marker: &str) -> (staged: (&[u16], u32))
        requires
            wide_text_size(marker@) <= u32::MAX,
        ensures
            final(self)@ == (TempView { marker: wide_text(marker@), ..old(self)@ }),
            staged.0@ == wide_text(marker@),
            staged.1 == wide_text_size(marker@),
    {
        self.marker.clear();
        let mut units = encode_utf16(marker);
        self.marker.append(&mut units);
        self.marker.push(0);
        let size = self.marker.len() as u32 * 2;
        (self.marker.as_slice(), size)
    }
}

} // verus!
