//! One read of a line from the child's output: from the bytes that reading
//! up to the next line feed gave, to the text of the line.

use vstd::prelude::*;
use vstd::utf8::{
    decode_first_scalar, decode_utf8, decode_utf8_split, encode_utf8, encode_utf8_decode_utf8,
    encode_utf8_valid_utf8, is_char_boundary_iff_is_leading_byte, is_leading_byte_width_1,
    pop_first_scalar, valid_utf8,
};

verus! {

/// The byte that ends a line.
pub const LINE_FEED: u8 = 0x0A;

/// The byte that may stand before the line feed and then belongs to the
/// line ending.
pub const CARRIAGE_RETURN: u8 = 0x0D;

/// What one attempt to read the next line of the stream gave.
#[derive(Debug)]
pub enum LineRead {
    /// A line, decoded, without its line ending.
    Line(String),
    /// A line was read but its bytes do not decode as text.
    Undecodable,
    /// The read itself failed.
    Failed,
    /// The stream is at its end.
    Closed,
}

/// A read as the contracts speak of it.
pub enum LineReadView {
    Line(Seq<char>),
    Undecodable,
    Failed,
    Closed,
}

impl View for LineRead {
    type V = LineReadView;

    open spec fn view(&self) -> LineReadView {
        match self {
            LineRead::Line(text) => LineReadView::Line(text@),
            LineRead::Undecodable => LineReadView::Undecodable,
            LineRead::Failed => LineReadView::Failed,
            LineRead::Closed => LineReadView::Closed,
        }
    }
}

/// The bytes of a line without its ending: a final line feed is left out,
/// and with it a carriage return that stands right before it.
pub open spec fn without_line_ending(raw: Seq<u8>) -> Seq<u8> {
    if raw.len() > 0 && raw.last() == LINE_FEED {
        let cut = raw.drop_last();
        if cut.len() > 0 && cut.last() == CARRIAGE_RETURN {
            cut.drop_last()
        } else {
            cut
        }
    } else {
        raw
    }
}

/// What a read that did not fail gave, from its bytes: no bytes at all are
/// the end of the stream. Any other bytes are a line, which is its text
/// without the line ending where that decodes as UTF-8.
pub open spec fn read_of(raw: Seq<u8>) -> LineReadView {
    if raw.len() == 0 {
        LineReadView::Closed
    } else if valid_utf8(without_line_ending(raw)) {
        LineReadView::Line(decode_utf8(without_line_ending(raw)))
    } else {
        LineReadView::Undecodable
    }
}

/// Takes the line ending off the bytes of a line.
pub fn strip_line_ending(raw: Vec<u8>) -> (body: Vec<u8>)
    ensures
        body@ == without_line_ending(raw@),
{
    let mut body = raw;
    let len = body.len();
    if len > 0 && body[len - 1] == LINE_FEED {
        body.pop();
        let cut = body.len();
        if cut > 0 && body[cut - 1] == CARRIAGE_RETURN {
            body.pop();
        }
    }
    body
}

/// `String::from_utf8` of the standard library, with its error left out.
/// Believed and not proved: it gives a string exactly when the bytes are
/// well-formed UTF-8, and the string then holds the characters that the
/// bytes encode.
#[verifier::external_body]
fn text_of_utf8(bytes: Vec<u8>) -> (text: Option<String>)
    ensures
        text is Some <==> valid_utf8(bytes@),
        text is Some ==> text->Some_0@ == decode_utf8(bytes@),
{
    String::from_utf8(bytes).ok()
}

impl LineRead {
    /// Tells what a read that did not fail gave, from the bytes that were
    /// read up to and including the next line feed. They are none at the end
    /// of the stream, and lack the line feed where the stream ended within a
    /// line.
    pub fn from_bytes(raw: Vec<u8>) -> (read: LineRead)
        ensures
            read@ == read_of(raw@),
    {
        if raw.len() == 0 {
            LineRead::Closed
        } else {
            match text_of_utf8(strip_line_ending(raw)) {
                Some(text) => LineRead::Line(text),
                None => LineRead::Undecodable,
            }
        }
    }
}

/// A text that can stand on a line of its own: it holds no line feed and
/// does not end in a carriage return.
pub open spec fn is_line(text: Seq<char>) -> bool {
    &&& !text.contains('\n')
    &&& text.len() > 0 ==> text.last() != '\r'
}

/// The line ending: a line feed, after a carriage return if `crlf`.
pub open spec fn line_ending(crlf: bool) -> Seq<u8> {
    if crlf {
        seq![CARRIAGE_RETURN, LINE_FEED]
    } else {
        seq![LINE_FEED]
    }
}

/// The encoding of a text that does not end in a carriage return does not
/// end in the byte of one.
proof fn lemma_encoding_keeps_last_char(text: Seq<char>)
    requires
        text.len() > 0 ==> text.last() != '\r',
    ensures
        encode_utf8(text).len() > 0 ==> encode_utf8(text).last() != CARRIAGE_RETURN,
{
    let bytes = encode_utf8(text);
    encode_utf8_valid_utf8(text);
    encode_utf8_decode_utf8(text);
    if bytes.len() > 0 && bytes.last() == CARRIAGE_RETURN {
        let cut = bytes.len() - 1;
        let tail = bytes.subrange(cut, bytes.len() as int);
        assert(is_leading_byte_width_1(bytes[cut]));
        is_char_boundary_iff_is_leading_byte(bytes, cut);
        decode_utf8_split(bytes, cut);
        assert(tail == seq![CARRIAGE_RETURN]);
        assert(decode_utf8(tail) == seq!['\r']) by {
            reveal_with_fuel(valid_utf8, 2);
            reveal_with_fuel(decode_utf8, 2);
            assert(pop_first_scalar(tail).len() == 0);
            assert(0x0Du8 & 0x7F == 0x0D) by (bit_vector);
            assert(decode_first_scalar(tail) == 0x0Du32);
        }
        assert(text.last() == '\r');
    }
}

/// A line that was written with its ending reads back as itself: what is
/// read is the text, without the ending.
pub proof fn lemma_written_line_reads_back(text: Seq<char>, crlf: bool)
    requires
        is_line(text),
    ensures
        read_of(encode_utf8(text) + line_ending(crlf)) == LineReadView::Line(text),
{
    let body = encode_utf8(text);
    let raw = body + line_ending(crlf);
    lemma_encoding_keeps_last_char(text);
    encode_utf8_valid_utf8(text);
    encode_utf8_decode_utf8(text);
    if crlf {
        assert(raw.drop_last() == body + seq![CARRIAGE_RETURN]);
        assert(raw.drop_last().drop_last() == body);
    } else {
        assert(raw.drop_last() == body);
    }
    assert(without_line_ending(raw) == body);
}

} // verus!
