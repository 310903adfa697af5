//! Styled text.

use vstd::prelude::*;
use vstd::string::StringSliceAdditionalSpecFns;
use vstd::utf8::encode_utf8;

use crate::style::Style;

verus! {

/// Appends every byte of a slice to a byte buffer, in order.
fn push_bytes(writer: &mut Vec<u8>, bytes: &[u8])
    ensures
        final(writer)@ == old(writer)@ + bytes@,
{
    let ghost start = writer@;
    let mut i: usize = 0;
    while i < bytes.len()
        invariant
            i <= bytes@.len(),
            writer@ == start + bytes@.subrange(0, i as int),
        decreases bytes@.len() - i,
    {
        writer.push(bytes[i]);
        proof {
            assert(start + bytes@.subrange(0, i as int) + seq![bytes@[i as int]] =~= start
                + bytes@.subrange(0, i + 1));
        }
        i = i + 1;
    }
    proof {
        assert(start + bytes@.subrange(0, bytes@.len() as int) =~= start + bytes@);
    }
}

/// Text that may have associated styling information.
pub trait StyledText {
    /// The bytes that [`write_unstyled`](Self::write_unstyled) appends: the
    /// UTF-8 encoding of the text alone.
    spec fn spec_unstyled(&self) -> Seq<u8>;

    /// The bytes that [`write_styled`](Self::write_styled) appends.
    spec fn spec_styled(&self) -> Seq<u8>;

    /// Writes the text without its styling information.
    fn write_unstyled(&self, writer: &mut Vec<u8>)
        ensures
            final(writer)@ == old(writer)@ + self.spec_unstyled(),
    ;

    /// Writes the styled text.
    fn write_styled(&self, writer: &mut Vec<u8>)
        ensures
            final(writer)@ == old(writer)@ + self.spec_styled(),
    ;
}

impl StyledText for str {
    /// A bare string slice carries no styling: its unstyled bytes are its
    /// UTF-8 encoding.
    open spec fn spec_unstyled(&self) -> Seq<u8> {
        encode_utf8(self@)
    }

    /// A bare string slice writes no control sequences even when styled.
    open spec fn spec_styled(&self) -> Seq<u8> {
        encode_utf8(self@)
    }

    fn write_unstyled(&self, writer: &mut Vec<u8>) {
        push_bytes(writer, self.as_bytes());
    }

    fn write_styled(&self, writer: &mut Vec<u8>) {
        self.write_unstyled(writer);
    }
}

/// Owned text and styling information.
#[derive(Debug)]
pub struct StyledString {
    /// The text style.
    pub style: Style,
    /// The text.
    pub text: String,
}

impl StyledText for StyledString {
    open spec fn spec_unstyled(&self) -> Seq<u8> {
        encode_utf8(self.text@)
    }

    /// Styled output surrounds the text with this style's set sequence and
    /// the fixed reset sequence.
    open spec fn spec_styled(&self) -> Seq<u8> {
        self.style.spec_set_style() + encode_utf8(self.text@) + Style::spec_reset_style()
    }

    fn write_unstyled(&self, writer: &mut Vec<u8>) {
        push_bytes(writer, self.text.as_str().as_bytes());
    }

    fn write_styled(&self, writer: &mut Vec<u8>) {
        self.style.write_set_style(writer);
        self.write_unstyled(writer);
        Style::write_reset_style(writer);
        proof {
            assert(writer@ =~= old(writer)@ + self.spec_styled());
        }
    }
}

/// Styled text that borrows a string slice.
#[derive(Debug)]
pub struct StyledStr<'a> {
    /// The text style.
    pub style: Style,
    /// The text.
    pub text: &'a str,
}

impl<'a> StyledText for StyledStr<'a> {
    open spec fn spec_unstyled(&self) -> Seq<u8> {
        encode_utf8(self.text@)
    }

    /// Styled output surrounds the text with this style's set sequence and
    /// the fixed reset sequence.
    open spec fn spec_styled(&self) -> Seq<u8> {
        self.style.spec_set_style() + encode_utf8(self.text@) + Style::spec_reset_style()
    }

    fn write_unstyled(&self, writer: &mut Vec<u8>) {
        push_bytes(writer, self.text.as_bytes());
    }

    fn write_styled(&self, writer: &mut Vec<u8>) {
        self.style.write_set_style(writer);
        self.write_unstyled(writer);
        Style::write_reset_style(writer);
        proof {
            assert(writer@ =~= old(writer)@ + self.spec_styled());
        }
    }
}

} // verus!
