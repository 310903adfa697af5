//! Text color and style, and the ANSI encoding of both.

use vstd::prelude::*;

verus! {

/// The escape byte (`ESC`) that opens every emitted control sequence.
pub const ESC: u8 = 27;

/// The `[` byte; `ESC [` together form the Control Sequence Introducer.
pub const CSI_OPEN: u8 = 91;

/// The `;` byte that separates two parameters of one control sequence.
pub const SEMICOLON: u8 = 59;

/// The `m` byte that closes a Select Graphic Rendition sequence.
pub const SGR_END: u8 = 109;

/// The `0` byte; the lone parameter of the reset sequence.
pub const DIGIT_ZERO: u8 = 48;

/// Text color.
#[derive(Debug, Clone, Copy, PartialEq, Eq, Hash, Structural)]
pub enum Color {
    /// The color that the terminal displays by default.
    Default,
    /// Black.
    ///
    /// This color may be indistinguishable from [`DarkGray`](Self::DarkGray)
    /// in some terminal emulators.
    Black,
    /// Red.
    Red,
    /// Green.
    Green,
    /// Yellow.
    ///
    /// The actual color is implemented inconsistently in different terminal
    /// emulators, and may be a variant of brown, orange, yellow, olive, or
    /// greenish yellow. If it is important that the color is actually yellow,
    /// [`LightYellow`](Self::LightYellow) should be preferred.
    Yellow,
    /// Blue.
    Blue,
    /// Magenta.
    Magena,
    /// Cyan.
    Cyan,
    /// Gray.
    ///
    /// A light gray color, lighter than [`DarkGray`](Self::DarkGray).
    ///
    /// This color may be indistinguishable from [`White`](Self::White) in some
    /// terminal emulators.
    LightGray,
    /// Dark gray.
    ///
    /// A medium or dark gray color, darker than [`LightGray`](Self::LightGray).
    ///
    /// This color may be indistinguishable from [`Black`](Self::Black) in some
    /// terminal emulators.
    DarkGray,
    /// Light red.
    LightRed,
    /// Light green.
    LightGreen,
    /// Light yellow.
    LightYellow,
    /// Light blue.
    LightBlue,
    /// Light magenta.
    LightMagenta,
    /// Light cyan.
    LightCyan,
    /// White.
    ///
    /// This color may be indistinguishable from [`LightGray`](Self::LightGray)
    /// in some terminal emulators.
    White,
}

impl Default for Color {
    /// The default color is the terminal's own.
    fn default() -> (color: Self)
        ensures
            color == Color::Default,
    {
        Color::Default
    }
}

impl Color {
    /// The numeric ANSI code that selects this color for the foreground.
    pub open spec fn spec_foreground_code(self) -> u8 {
        match self {
            Color::Default => 39,
            Color::Black => 30,
            Color::Red => 31,
            Color::Green => 32,
            Color::Yellow => 33,
            Color::Blue => 34,
            Color::Magena => 35,
            Color::Cyan => 36,
            Color::LightGray => 37,
            Color::DarkGray => 90,
            Color::LightRed => 91,
            Color::LightGreen => 92,
            Color::LightYellow => 93,
            Color::LightBlue => 94,
            Color::LightMagenta => 95,
            Color::LightCyan => 96,
            Color::White => 97,
        }
    }

    /// The numeric ANSI code that selects this color for the background.
    pub open spec fn spec_background_code(self) -> u8 {
        match self {
            Color::Default => 49,
            Color::Black => 40,
            Color::Red => 41,
            Color::Green => 42,
            Color::Yellow => 43,
            Color::Blue => 44,
            Color::Magena => 45,
            Color::Cyan => 46,
            Color::LightGray => 47,
            Color::DarkGray => 100,
            Color::LightRed => 101,
            Color::LightGreen => 102,
            Color::LightYellow => 103,
            Color::LightBlue => 104,
            Color::LightMagenta => 105,
            Color::LightCyan => 106,
            Color::White => 107,
        }
    }

    /// Returns the numeric ANSI color code if the color is used for the
    /// foreground.
    pub fn foreground_code(&self) -> (code: u8)
        ensures
            code == self.spec_foreground_code(),
    {
        match self {
            Color::Default => 39,
            Color::Black => 30,
            Color::Red => 31,
            Color::Green => 32,
            Color::Yellow => 33,
            Color::Blue => 34,
            Color::Magena => 35,
            Color::Cyan => 36,
            Color::LightGray => 37,
            Color::DarkGray => 90,
            Color::LightRed => 91,
            Color::LightGreen => 92,
            Color::LightYellow => 93,
            Color::LightBlue => 94,
            Color::LightMagenta => 95,
            Color::LightCyan => 96,
            Color::White => 97,
        }
    }

    /// Returns the numeric ANSI color code if the color is used for the
    /// background.
    pub fn background_code(&self) -> (code: u8)
        ensures
            code == self.spec_background_code(),
    {
        match self {
            Color::Default => 49,
            Color::Black => 40,
            Color::Red => 41,
            Color::Green => 42,
            Color::Yellow => 43,
            Color::Blue => 44,
            Color::Magena => 45,
            Color::Cyan => 46,
            Color::LightGray => 47,
            Color::DarkGray => 100,
            Color::LightRed => 101,
            Color::LightGreen => 102,
            Color::LightYellow => 103,
            Color::LightBlue => 104,
            Color::LightMagenta => 105,
            Color::LightCyan => 106,
            Color::White => 107,
        }
    }
}

/// The decimal digit bytes of an ANSI parameter code.
///
/// Every code emitted by this library lies below 200, so at most three digits
/// are needed.
pub open spec fn spec_code_digits(code: u8) -> Seq<u8> {
    if code < 10 {
        seq![(DIGIT_ZERO + code) as u8]
    } else if code < 100 {
        seq![(DIGIT_ZERO + code / 10) as u8, (DIGIT_ZERO + code % 10) as u8]
    } else {
        seq![
            (DIGIT_ZERO + code / 100) as u8,
            (DIGIT_ZERO + (code / 10) % 10) as u8,
            (DIGIT_ZERO + code % 10) as u8,
        ]
    }
}

/// The parameter codes of a control sequence, joined with `;` separators.
pub open spec fn spec_join_params(params: Seq<Seq<u8>>) -> Seq<u8>
    decreases params.len(),
{
    if params.len() == 0 {
        Seq::empty()
    } else if params.len() == 1 {
        params[0]
    } else {
        spec_join_params(params.drop_last()) + seq![SEMICOLON] + params.last()
    }
}

/// The bytes emitted for a (possibly empty) run of parameters: nothing at all
/// for no parameters, otherwise the Control Sequence Introducer followed by
/// the joined parameters, still missing the final `m`.
pub open spec fn spec_open_sequence(params: Seq<Seq<u8>>) -> Seq<u8> {
    if params.len() == 0 {
        Seq::empty()
    } else {
        seq![ESC, CSI_OPEN] + spec_join_params(params)
    }
}

/// Text color and style.
#[derive(Debug, Clone, Copy, PartialEq, Eq, Hash, Structural)]
pub struct Style {
    /// Foreground color.
    pub foreground_color: Color,
    /// Background color.
    pub background_color: Color,
    /// Bold text.
    pub bold: bool,
    /// Underlined text.
    pub underlined: bool,
    /// Blinking text.
    pub blinking: bool,
}

impl Default for Style {
    /// The default style: default colors and no attribute set.
    fn default() -> (style: Self)
        ensures
            style == Style::spec_default(),
    {
        Style {
            foreground_color: Color::Default,
            background_color: Color::Default,
            bold: false,
            underlined: false,
            blinking: false,
        }
    }
}

impl Style {
    /// The style with every field at its default.
    pub open spec fn spec_default() -> Style {
        Style {
            foreground_color: Color::Default,
            background_color: Color::Default,
            bold: false,
            underlined: false,
            blinking: false,
        }
    }

    /// The parameter codes of this style's set-style sequence: the digit
    /// bytes of each part that differs from the "no styling" baseline, in
    /// the fixed order foreground, background, bold, underline, blink.
    pub open spec fn spec_params(self) -> Seq<Seq<u8>> {
        let params: Seq<Seq<u8>> = Seq::empty();
        let params = if self.foreground_color != Color::Default {
            params.push(spec_code_digits(self.foreground_color.spec_foreground_code()))
        } else {
            params
        };
        let params = if self.background_color != Color::Default {
            params.push(spec_code_digits(self.background_color.spec_background_code()))
        } else {
            params
        };
        let params = if self.bold {
            params.push(spec_code_digits(1))
        } else {
            params
        };
        let params = if self.underlined {
            params.push(spec_code_digits(4))
        } else {
            params
        };
        if self.blinking {
            params.push(spec_code_digits(5))
        } else {
            params
        }
    }

    /// How many fields of this style differ from the default.
    pub open spec fn spec_styled_field_count(self) -> int {
        (if self.foreground_color != Color::Default { 1int } else { 0 })
        + (if self.background_color != Color::Default { 1int } else { 0 })
        + (if self.bold { 1int } else { 0 })
        + (if self.underlined { 1int } else { 0 })
        + (if self.blinking { 1int } else { 0 })
    }

    /// The ANSI control sequence that sets this color and style: empty for
    /// the default style, otherwise `ESC [`, the `;`-separated parameter
    /// codes, and a final `m`.
    pub open spec fn spec_set_style(self) -> Seq<u8> {
        if self.spec_params().len() == 0 {
            Seq::empty()
        } else {
            spec_open_sequence(self.spec_params()) + seq![SGR_END]
        }
    }

    /// The fixed ANSI control sequence that resets coloring and styling.
    pub open spec fn spec_reset_style() -> Seq<u8> {
        seq![ESC, CSI_OPEN, DIGIT_ZERO, SGR_END]
    }

    /// Appends the ANSI control sequence that sets this color and style.
    ///
    /// The default style appends nothing at all, not a bare `ESC [ m`:
    /// callers rely on an empty result to skip writing any escape sequence.
    pub fn write_set_style(&self, writer: &mut Vec<u8>)
        ensures
            final(writer)@ == old(writer)@ + self.spec_set_style(),
    {
        let mut have_written = false;
        let ghost mut params: Seq<Seq<u8>> = Seq::empty();
        proof {
            assert(writer@ =~= old(writer)@ + spec_open_sequence(params));
        }

        if self.foreground_color != Color::Default {
            let code = self.foreground_color.foreground_code();
            let ghost w_before = writer@;
            Self::write_ansi_code(writer, code, &mut have_written);
            proof {
                lemma_extend_encoding(
                    old(writer)@, w_before, params, spec_code_digits(code), writer@);
                params = params.push(spec_code_digits(code));
            }
        }

        if self.background_color != Color::Default {
            let code = self.background_color.background_code();
            let ghost w_before = writer@;
            Self::write_ansi_code(writer, code, &mut have_written);
            proof {
                lemma_extend_encoding(
                    old(writer)@, w_before, params, spec_code_digits(code), writer@);
                params = params.push(spec_code_digits(code));
            }
        }

        if self.bold {
            let ghost w_before = writer@;
            Self::write_ansi_code(writer, 1, &mut have_written);
            proof {
                lemma_extend_encoding(
                    old(writer)@, w_before, params, spec_code_digits(1), writer@);
                params = params.push(spec_code_digits(1));
            }
        }

        if self.underlined {
            let ghost w_before = writer@;
            Self::write_ansi_code(writer, 4, &mut have_written);
            proof {
                lemma_extend_encoding(
                    old(writer)@, w_before, params, spec_code_digits(4), writer@);
                params = params.push(spec_code_digits(4));
            }
        }

        if self.blinking {
            let ghost w_before = writer@;
            Self::write_ansi_code(writer, 5, &mut have_written);
            proof {
                lemma_extend_encoding(
                    old(writer)@, w_before, params, spec_code_digits(5), writer@);
                params = params.push(spec_code_digits(5));
            }
        }

        proof {
            assert(params == self.spec_params());
        }

        if have_written {
            let ghost w_before = writer@;
            writer.push(SGR_END);
            proof {
                lemma_close_encoding(old(writer)@, w_before, params, writer@);
            }
        } else {
            proof {
                assert(writer@ =~= old(writer)@ + Seq::<u8>::empty());
            }
        }
    }

    /// Appends the fixed ANSI control sequence that resets coloring and
    /// styling.
    pub fn write_reset_style(writer: &mut Vec<u8>)
        ensures
            final(writer)@ == old(writer)@ + Style::spec_reset_style(),
    {
        writer.push(ESC);
        writer.push(CSI_OPEN);
        writer.push(DIGIT_ZERO);
        writer.push(SGR_END);
        assert(writer@ =~= old(writer)@ + Style::spec_reset_style());
    }

    /// Appends one ANSI parameter code in decimal, preceded by the Control
    /// Sequence Introducer or a semicolon, depending on whether a previous
    /// part of the control sequence has been written.
    pub fn write_ansi_code(writer: &mut Vec<u8>, code: u8, have_written: &mut bool)
        requires
            code < 200,
        ensures
            final(writer)@ == old(writer)@ + (if *old(have_written) {
                seq![SEMICOLON]
            } else {
                seq![ESC, CSI_OPEN]
            }) + spec_code_digits(code),
            *final(have_written),
    {
        if *have_written {
            writer.push(SEMICOLON);
        } else {
            writer.push(ESC);
            writer.push(CSI_OPEN);
        }
        *have_written = true;
        if code < 10 {
            writer.push(DIGIT_ZERO + code);
        } else if code < 100 {
            writer.push(DIGIT_ZERO + code / 10);
            writer.push(DIGIT_ZERO + code % 10);
        } else {
            writer.push(DIGIT_ZERO + code / 100);
            writer.push(DIGIT_ZERO + (code / 10) % 10);
            writer.push(DIGIT_ZERO + code % 10);
        }
        assert(writer@ =~= old(writer)@ + (if *old(have_written) {
            seq![SEMICOLON]
        } else {
            seq![ESC, CSI_OPEN]
        }) + spec_code_digits(code));
    }
}

/// Joining one more parameter appends a separator exactly when some
/// parameter was already present.
proof fn lemma_join_params_push(params: Seq<Seq<u8>>, param: Seq<u8>)
    ensures
        params.len() == 0 ==> spec_join_params(params.push(param)) == param,
        params.len() > 0 ==> spec_join_params(params.push(param)) == spec_join_params(params)
            + seq![SEMICOLON] + param,
{
    let pushed = params.push(param);
    assert(pushed.drop_last() =~= params);
    assert(pushed.last() == param);
}

/// Appending a separator (or the opening `ESC [`) and one more parameter
/// code to an emitted prefix yields the emitted prefix of the extended
/// parameter list.
proof fn lemma_extend_encoding(
    w0: Seq<u8>,
    w1: Seq<u8>,
    params: Seq<Seq<u8>>,
    param: Seq<u8>,
    w2: Seq<u8>,
)
    requires
        w1 == w0 + spec_open_sequence(params),
        w2 == w1 + (if params.len() > 0 {
            seq![SEMICOLON]
        } else {
            seq![ESC, CSI_OPEN]
        }) + param,
    ensures
        w2 == w0 + spec_open_sequence(params.push(param)),
{
    lemma_join_params_push(params, param);
    assert(w2 =~= w0 + spec_open_sequence(params.push(param)));
}

/// Closing a non-empty emitted prefix with the final `m` yields the whole
/// set-style sequence for its parameter list.
proof fn lemma_close_encoding(w0: Seq<u8>, w1: Seq<u8>, params: Seq<Seq<u8>>, w2: Seq<u8>)
    requires
        params.len() > 0,
        w1 == w0 + spec_open_sequence(params),
        w2 == w1.push(SGR_END),
    ensures
        w2 == w0 + (spec_open_sequence(params) + seq![SGR_END]),
{
    assert(w2 =~= w0 + (spec_open_sequence(params) + seq![SGR_END]));
}

/// How many times a byte occurs in a sequence.
pub open spec fn spec_count_byte(bytes: Seq<u8>, byte: u8) -> int
    decreases bytes.len(),
{
    if bytes.len() == 0 {
        0
    } else {
        spec_count_byte(bytes.drop_last(), byte) + if bytes.last() == byte {
            1int
        } else {
            0int
        }
    }
}

/// Occurrence counts add up over concatenation.
proof fn lemma_count_byte_concat(a: Seq<u8>, b: Seq<u8>, byte: u8)
    ensures
        spec_count_byte(a + b, byte) == spec_count_byte(a, byte) + spec_count_byte(b, byte),
    decreases b.len(),
{
    if b.len() == 0 {
        assert(a + b =~= a);
    } else {
        lemma_count_byte_concat(a, b.drop_last(), byte);
        assert((a + b).drop_last() =~= a + b.drop_last());
        assert((a + b).last() == b.last());
    }
}

/// The count in a one-byte sequence is one or zero, by a byte comparison.
proof fn lemma_count_byte_single(x: u8, byte: u8)
    ensures
        spec_count_byte(seq![x], byte) == if x == byte {
            1int
        } else {
            0int
        },
{
    assert(seq![x].drop_last() =~= Seq::<u8>::empty());
    assert(spec_count_byte(Seq::<u8>::empty(), byte) == 0);
}

/// A byte that occurs at no position has count zero.
proof fn lemma_count_byte_absent(bytes: Seq<u8>, byte: u8)
    requires
        forall|i: int| 0 <= i < bytes.len() ==> bytes[i] != byte,
    ensures
        spec_count_byte(bytes, byte) == 0,
    decreases bytes.len(),
{
    if bytes.len() > 0 {
        assert(forall|i: int| 0 <= i < bytes.drop_last().len() ==> bytes.drop_last()[i]
            != byte);
        lemma_count_byte_absent(bytes.drop_last(), byte);
    }
}

/// The decimal rendering of a parameter code consists of one to three
/// decimal digit bytes only.
proof fn lemma_code_digits_are_digits(code: u8)
    ensures
        1 <= spec_code_digits(code).len() <= 3,
        code < 10 ==> spec_code_digits(code).len() == 1,
        code < 100 ==> spec_code_digits(code).len() <= 2,
        forall|i: int| 0 <= i < spec_code_digits(code).len() ==> DIGIT_ZERO
            <= #[trigger] spec_code_digits(code)[i] <= 57,
        spec_count_byte(spec_code_digits(code), SEMICOLON) == 0,
{
    lemma_count_byte_absent(spec_code_digits(code), SEMICOLON);
}

/// Joining parameters that hold no separator byte themselves yields exactly
/// one separator fewer than there are parameters.
proof fn lemma_join_params_count(params: Seq<Seq<u8>>)
    requires
        params.len() > 0,
        forall|j: int| 0 <= j < params.len() ==> spec_count_byte(
            #[trigger] params[j], SEMICOLON) == 0,
    ensures
        spec_count_byte(spec_join_params(params), SEMICOLON) == params.len() - 1,
    decreases params.len(),
{
    if params.len() > 1 {
        assert(forall|j: int| 0 <= j < params.drop_last().len() ==> spec_count_byte(
            #[trigger] params.drop_last()[j], SEMICOLON) == 0);
        lemma_join_params_count(params.drop_last());
        lemma_count_byte_concat(spec_join_params(params.drop_last()), seq![SEMICOLON], SEMICOLON);
        lemma_count_byte_concat(
            spec_join_params(params.drop_last()) + seq![SEMICOLON],
            params.last(),
            SEMICOLON,
        );
        lemma_count_byte_single(SEMICOLON, SEMICOLON);
    }
}

/// Every parameter of a style's set-style sequence is a non-empty run of
/// decimal digit bytes.
proof fn lemma_style_params_wf(style: Style)
    ensures
        forall|j: int| 0 <= j < style.spec_params().len() ==> spec_count_byte(
            #[trigger] style.spec_params()[j], SEMICOLON) == 0,
        forall|j: int| 0 <= j < style.spec_params().len()
            ==> 1 <= #[trigger] style.spec_params()[j].len() <= 3,
{
    lemma_code_digits_are_digits(style.foreground_color.spec_foreground_code());
    lemma_code_digits_are_digits(style.background_color.spec_background_code());
    lemma_code_digits_are_digits(1);
    lemma_code_digits_are_digits(4);
    lemma_code_digits_are_digits(5);
}

/// The parameter count of a style's sequence equals the number of its
/// non-default fields.
pub proof fn lemma_params_len(style: Style)
    ensures
        style.spec_params().len() == style.spec_styled_field_count(),
{
}

/// An all-default style encodes to nothing at all, not to a bare `ESC [ m`.
pub proof fn lemma_default_style_encodes_empty(style: Style)
    requires
        style == Style::spec_default(),
    ensures
        style.spec_set_style() == Seq::<u8>::empty(),
{
}

/// A style with exactly one non-default field encodes to `ESC [`, that
/// field's parameter code, and `m`, with no separator anywhere.
pub proof fn lemma_single_field_encoding(style: Style)
    requires
        style.spec_styled_field_count() == 1,
    ensures
        style.spec_set_style() == seq![ESC, CSI_OPEN] + style.spec_params()[0] + seq![SGR_END],
        spec_count_byte(style.spec_set_style(), SEMICOLON) == 0,
{
    lemma_params_len(style);
    lemma_style_params_wf(style);
    let params = style.spec_params();
    assert(spec_join_params(params) == params[0]);
    assert(style.spec_set_style() == seq![ESC, CSI_OPEN] + params[0] + seq![SGR_END]);
    lemma_count_byte_concat(seq![ESC, CSI_OPEN], params[0], SEMICOLON);
    lemma_count_byte_concat(seq![ESC, CSI_OPEN] + params[0], seq![SGR_END], SEMICOLON);
    lemma_count_byte_absent(seq![ESC, CSI_OPEN], SEMICOLON);
    lemma_count_byte_single(SGR_END, SEMICOLON);
}

/// With `N` non-default fields the encoding holds exactly `N - 1` separator
/// bytes, and begins with `ESC [` and ends with `m`, if and only if `N > 0`.
pub proof fn lemma_encoding_shape(style: Style)
    ensures
        style.spec_styled_field_count() == 0 ==> style.spec_set_style()
            == Seq::<u8>::empty(),
        style.spec_styled_field_count() > 0 ==> {
            &&& spec_count_byte(style.spec_set_style(), SEMICOLON)
                == style.spec_styled_field_count() - 1
            &&& style.spec_set_style().len() >= 4
            &&& style.spec_set_style()[0] == ESC
            &&& style.spec_set_style()[1] == CSI_OPEN
            &&& style.spec_set_style().last() == SGR_END
        },
{
    lemma_params_len(style);
    lemma_style_params_wf(style);
    let params = style.spec_params();
    if style.spec_styled_field_count() > 0 {
        lemma_join_params_count(params);
        lemma_join_params_len(params);
        lemma_count_byte_concat(seq![ESC, CSI_OPEN], spec_join_params(params), SEMICOLON);
        lemma_count_byte_concat(
            seq![ESC, CSI_OPEN] + spec_join_params(params),
            seq![SGR_END],
            SEMICOLON,
        );
        lemma_count_byte_absent(seq![ESC, CSI_OPEN], SEMICOLON);
        lemma_count_byte_single(SGR_END, SEMICOLON);
        assert(style.spec_set_style().last() == SGR_END);
    }
}

/// Joined parameters are at least as long as each parameter.
proof fn lemma_join_params_len(params: Seq<Seq<u8>>)
    requires
        forall|j: int| 0 <= j < params.len() ==> 1 <= #[trigger] params[j].len(),
    ensures
        params.len() > 0 ==> spec_join_params(params).len() >= 1,
    decreases params.len(),
{
    if params.len() > 1 {
        assert(forall|j: int| 0 <= j < params.drop_last().len()
            ==> 1 <= #[trigger] params.drop_last()[j].len());
        lemma_join_params_len(params.drop_last());
    } else if params.len() == 1 {
        assert(spec_join_params(params) == params[0]);
    }
}

/// The summed length of a run of parameter codes.
pub open spec fn spec_params_total_len(params: Seq<Seq<u8>>) -> int
    decreases params.len(),
{
    if params.len() == 0 {
        0
    } else {
        spec_params_total_len(params.drop_last()) + params.last().len()
    }
}

/// Pushing one parameter grows the summed length by that parameter's length.
proof fn lemma_total_len_push(params: Seq<Seq<u8>>, param: Seq<u8>)
    ensures
        spec_params_total_len(params.push(param)) == spec_params_total_len(params)
            + param.len(),
{
    assert(params.push(param).drop_last() =~= params);
}

/// Joined parameters take their summed length plus one separator between
/// each neighboring pair.
proof fn lemma_join_params_total_len(params: Seq<Seq<u8>>)
    requires
        params.len() > 0,
    ensures
        spec_join_params(params).len() == spec_params_total_len(params) + params.len() - 1,
    decreases params.len(),
{
    if params.len() > 1 {
        lemma_join_params_total_len(params.drop_last());
    } else {
        assert(spec_params_total_len(params.drop_last()) == 0);
        assert(spec_join_params(params) == params[0]);
        assert(params.last() == params[0]);
    }
}

/// No set-style sequence is longer than 15 bytes: a caller-supplied buffer of
/// that capacity always suffices.
pub proof fn lemma_set_style_len(style: Style)
    ensures
        style.spec_set_style().len() <= 15,
{
    let fg_code = style.foreground_color.spec_foreground_code();
    let bg_code = style.background_color.spec_background_code();
    lemma_code_digits_are_digits(fg_code);
    lemma_code_digits_are_digits(bg_code);
    lemma_code_digits_are_digits(1);
    lemma_code_digits_are_digits(4);
    lemma_code_digits_are_digits(5);
    assert(fg_code < 100);

    let p0: Seq<Seq<u8>> = Seq::empty();
    let p1 = if style.foreground_color != Color::Default {
        lemma_total_len_push(p0, spec_code_digits(fg_code));
        p0.push(spec_code_digits(fg_code))
    } else {
        p0
    };
    assert(spec_params_total_len(p1) <= 2);
    let p2 = if style.background_color != Color::Default {
        lemma_total_len_push(p1, spec_code_digits(bg_code));
        p1.push(spec_code_digits(bg_code))
    } else {
        p1
    };
    assert(spec_params_total_len(p2) <= 5);
    let p3 = if style.bold {
        lemma_total_len_push(p2, spec_code_digits(1));
        p2.push(spec_code_digits(1))
    } else {
        p2
    };
    assert(spec_params_total_len(p3) <= 6);
    let p4 = if style.underlined {
        lemma_total_len_push(p3, spec_code_digits(4));
        p3.push(spec_code_digits(4))
    } else {
        p3
    };
    assert(spec_params_total_len(p4) <= 7);
    let p5 = if style.blinking {
        lemma_total_len_push(p4, spec_code_digits(5));
        p4.push(spec_code_digits(5))
    } else {
        p4
    };
    assert(spec_params_total_len(p5) <= 8);
    assert(p5 == style.spec_params());

    if p5.len() > 0 {
        lemma_join_params_total_len(p5);
        assert(spec_join_params(p5).len() <= 12);
    }
}

} // verus!
