//! Information about standard output and standard error.

use vstd::prelude::*;

verus! {

/// Default line width.
///
/// This value is returned by [`StreamInfo::line_width`] if the stream does not
/// refer to a terminal, or the terminal width cannot be determined.
pub const DEFAULT_LINE_WIDTH: u16 = 80;

/// Whether to use colors and other styling.
#[derive(Debug, Clone, Copy, PartialEq, Eq, Hash, Structural)]
pub enum ColorMode {
    /// Determine automatically whether to use colors and other styling.
    ///
    /// Colors and styling are used if the stream refers to a terminal, unless
    /// the `NO_COLOR` environment flag is set.
    ///
    /// See [`StreamInfo::use_color`] for the exact rules that determine color
    /// usage.
    Auto,
    /// Do not use colors and other styling, irrespective of whether the
    /// stream refers to a terminal or whether the `NO_COLOR` environment flag
    /// is set.
    Never,
    /// Use colors and other styling, irrespective of whether the stream
    /// refers to a terminal or whether the `NO_COLOR` environment flag is
    /// set.
    Always,
}

impl Default for ColorMode {
    /// The default mode defers the decision to the environment and the
    /// stream.
    fn default() -> (mode: Self)
        ensures
            mode == ColorMode::Auto,
    {
        ColorMode::Auto
    }
}

/// The cached outcome of probing a stream for its terminal width.
#[derive(Debug, Clone, Copy, PartialEq, Eq, Hash, Structural)]
pub enum RawLineWidth {
    /// The stream has not been probed yet.
    Unknown,
    /// The stream was probed: it is not a terminal, or its width cannot be
    /// determined.
    Absent,
    /// The stream was probed: it is a terminal of this width.
    Columns(u16),
}

/// Returns the terminal size of a stream.
///
/// This is the only seam that touches the operating system; substituting it
/// makes [`StreamInfo`] testable against any pretended stream.
pub trait TerminalSize {
    /// Returns the width and height of the terminal the stream refers to, or
    /// `None` if the stream is not a terminal or its size cannot be
    /// determined.
    fn terminal_size(&self) -> Option<(u16, u16)>;
}

/// The abstract state of a [`StreamInfo`]: its cached color decision, its
/// cached width probe outcome, and the environment flag it was built with.
pub struct StreamInfoState {
    /// The cached color mode.
    pub color_mode: ColorMode,
    /// The cached width probe outcome.
    pub raw_line_width: RawLineWidth,
    /// Whether the `NO_COLOR` environment variable was set to a non-empty
    /// value when the instance was created.
    pub no_color: bool,
}

/// The probe outcome folded into a cacheable width.
pub open spec fn probed_width(probed: Option<(u16, u16)>) -> RawLineWidth {
    match probed {
        Some(size) => RawLineWidth::Columns(size.0),
        None => RawLineWidth::Absent,
    }
}

/// How one call that needs the width moves the cached width: an unknown
/// width is resolved from the probe outcome, a resolved width stays as it
/// is.
pub open spec fn width_step(raw: RawLineWidth, probed: Option<(u16, u16)>) -> RawLineWidth {
    if raw == RawLineWidth::Unknown {
        probed_width(probed)
    } else {
        raw
    }
}

/// The line width reported for a resolved probe outcome: the terminal's own
/// width, or the default.
pub open spec fn effective_width(raw: RawLineWidth) -> u16 {
    match raw {
        RawLineWidth::Columns(width) => width,
        _ => DEFAULT_LINE_WIDTH,
    }
}

/// How one `use_color` call moves the state and what it returns, given the
/// outcome the terminal probe would report:
/// - an explicit `Never` or `Always` decides alone and changes nothing;
/// - under `Auto` with the `NO_COLOR` flag set, the answer is `false`,
///   cached as `Never`, and the stream is not probed;
/// - otherwise the answer is whether the stream is a terminal, cached as
///   `Always` or `Never` together with the probed width.
pub open spec fn use_color_step(
    state: StreamInfoState,
    probed: Option<(u16, u16)>,
) -> (bool, StreamInfoState) {
    match state.color_mode {
        ColorMode::Never => (false, state),
        ColorMode::Always => (true, state),
        ColorMode::Auto => if state.no_color {
            (false, StreamInfoState { color_mode: ColorMode::Never, ..state })
        } else {
            let raw = width_step(state.raw_line_width, probed);
            let use_color = raw is Columns;
            (
                use_color,
                StreamInfoState {
                    color_mode: if use_color {
                        ColorMode::Always
                    } else {
                        ColorMode::Never
                    },
                    raw_line_width: raw,
                    ..state
                },
            )
        },
    }
}

/// Information about a stream.
///
/// An instance holds two independently memoized fields, the color decision
/// and the probed line width, beside the terminal probe it consults at most
/// once per field.
pub struct StreamInfo<T: TerminalSize> {
    /// Returns the terminal size of the stream.
    terminal_size: T,
    /// Whether to use colors and other styling.
    color_mode: ColorMode,
    /// The cached width probe outcome.
    raw_line_width: RawLineWidth,
    /// Whether the `NO_COLOR` environment variable was set to a non-empty
    /// value when this instance was created.
    no_color: bool,
}

impl<T: TerminalSize> View for StreamInfo<T> {
    type V = StreamInfoState;

    closed spec fn view(&self) -> StreamInfoState {
        StreamInfoState {
            color_mode: self.color_mode,
            raw_line_width: self.raw_line_width,
            no_color: self.no_color,
        }
    }
}

impl<T: TerminalSize> StreamInfo<T> {
    /// Returns an object that provides information about a stream, before
    /// anything has been probed or decided.
    ///
    /// `no_color` tells the instance whether the `NO_COLOR` environment
    /// variable is set to a non-empty value; the flag is read once per
    /// process, outside this library, since the environment is assumed
    /// stable for the program's lifetime.
    pub fn new(terminal_size: T, no_color: bool) -> (info: Self)
        ensures
            info@ == (StreamInfoState {
                color_mode: ColorMode::Auto,
                raw_line_width: RawLineWidth::Unknown,
                no_color: no_color,
            }),
    {
        StreamInfo {
            terminal_size,
            color_mode: ColorMode::Auto,
            raw_line_width: RawLineWidth::Unknown,
            no_color,
        }
    }

    /// Returns whether colors and other styling should be used when writing
    /// to the stream.
    ///
    /// The result is determined according to these rules:
    /// - If the color mode has been set to [`ColorMode::Never`] with
    ///   [`set_color_mode`](Self::set_color_mode), `false` is returned.
    /// - Otherwise, if the color mode has been set to [`ColorMode::Always`]
    ///   with [`set_color_mode`](Self::set_color_mode), `true` is returned.
    /// - Otherwise, if the `NO_COLOR` environment flag is set, `false` is
    ///   returned.
    /// - Otherwise, if the stream refers to a terminal, `true` is returned.
    /// - Otherwise, `false` is returned.
    ///
    /// Once resolved, the decision is cached as `Never` or `Always` and never
    /// re-evaluated, unless a fresh explicit override sets the mode back to
    /// [`ColorMode::Auto`].
    pub fn use_color(&mut self) -> (use_color: bool)
        ensures
            exists|probed: Option<(u16, u16)>| (use_color, final(self)@) == use_color_step(
                old(self)@,
                probed,
            ),
            final(self)@.no_color == old(self)@.no_color,
            final(self)@.color_mode != ColorMode::Auto,
            use_color == (final(self)@.color_mode == ColorMode::Always),
            old(self)@.color_mode == ColorMode::Never ==> use_color == false,
            old(self)@.color_mode == ColorMode::Always ==> use_color == true,
            old(self)@.color_mode != ColorMode::Auto ==> final(self)@ == old(self)@,
            old(self)@.raw_line_width != RawLineWidth::Unknown ==> final(self)@.raw_line_width
                == old(self)@.raw_line_width,
    {
        match self.color_mode {
            ColorMode::Never => {
                proof {
                    let witness: Option<(u16, u16)> = None;
                    assert((false, self@) == use_color_step(old(self)@, witness));
                }
                false
            },
            ColorMode::Always => {
                proof {
                    let witness: Option<(u16, u16)> = None;
                    assert((true, self@) == use_color_step(old(self)@, witness));
                }
                true
            },
            ColorMode::Auto => {
                if self.no_color {
                    self.color_mode = ColorMode::Never;
                    proof {
                        let witness: Option<(u16, u16)> = None;
                        assert((false, self@) == use_color_step(old(self)@, witness));
                    }
                    false
                } else {
                    let probed = self.probe_line_width();
                    let use_color = match self.raw_line_width {
                        RawLineWidth::Columns(_) => true,
                        _ => false,
                    };
                    self.color_mode = if use_color {
                        ColorMode::Always
                    } else {
                        ColorMode::Never
                    };
                    proof {
                        assert((use_color, self@) == use_color_step(old(self)@, probed@));
                    }
                    use_color
                }
            },
        }
    }

    /// Sets whether colors and other styling should be used when writing to
    /// the stream.
    ///
    /// [`ColorMode::Never`] disables color usage and [`ColorMode::Always`]
    /// enables it; [`ColorMode::Auto`] (the default) re-arms the automatic
    /// decision of [`use_color`](Self::use_color).
    pub fn set_color_mode(&mut self, color_mode: ColorMode)
        ensures
            final(self)@ == (StreamInfoState { color_mode: color_mode, ..old(self)@ }),
    {
        self.color_mode = color_mode;
    }

    /// Returns the line width that should be used for word wrapping when
    /// writing to the stream.
    ///
    /// Returns the terminal width if the stream refers to a terminal, or a
    /// default line width ([`DEFAULT_LINE_WIDTH`]) otherwise. The stream is
    /// probed at most once; the outcome, a missing terminal included, is
    /// cached for the life of the instance.
    pub fn line_width(&mut self) -> (line_width: u16)
        ensures
            exists|probed: Option<(u16, u16)>| final(self)@.raw_line_width == width_step(
                old(self)@.raw_line_width,
                probed,
            ),
            final(self)@.color_mode == old(self)@.color_mode,
            final(self)@.no_color == old(self)@.no_color,
            final(self)@.raw_line_width != RawLineWidth::Unknown,
            old(self)@.raw_line_width != RawLineWidth::Unknown ==> final(self)@ == old(self)@,
            line_width == effective_width(final(self)@.raw_line_width),
    {
        self.probe_line_width();
        match self.raw_line_width {
            RawLineWidth::Columns(width) => width,
            _ => DEFAULT_LINE_WIDTH,
        }
    }

    /// Resolves the cached width probe outcome, consulting the terminal
    /// probe only if no outcome is cached yet, and reports what the probe
    /// answered (or `None` if nothing had to be asked).
    fn probe_line_width(&mut self) -> (probed: Ghost<Option<(u16, u16)>>)
        ensures
            final(self)@.raw_line_width == width_step(old(self)@.raw_line_width, probed@),
            final(self)@.color_mode == old(self)@.color_mode,
            final(self)@.no_color == old(self)@.no_color,
            final(self)@.raw_line_width != RawLineWidth::Unknown,
            old(self)@.raw_line_width != RawLineWidth::Unknown ==> final(self)@ == old(self)@,
    {
        match self.raw_line_width {
            RawLineWidth::Unknown => {
                let size = self.terminal_size.terminal_size();
                self.raw_line_width = match size {
                    Some((width, _height)) => RawLineWidth::Columns(width),
                    None => RawLineWidth::Absent,
                };
                Ghost(size)
            },
            _ => Ghost(None),
        }
    }
}

/// Returns the terminal size of the standard output stream.
pub struct TerminalSizeStdout;

impl TerminalSize for TerminalSizeStdout {
    fn terminal_size(&self) -> Option<(u16, u16)> {
        probe_stdout_size()
    }
}

/// Returns the terminal size of the standard error stream.
pub struct TerminalSizeStderr;

impl TerminalSize for TerminalSizeStderr {
    fn terminal_size(&self) -> Option<(u16, u16)> {
        probe_stderr_size()
    }
}

/// Relies on `terminal_size::terminal_size_of`, applied to the standard
/// output handle: reports the width and height of the attached terminal, or
/// `None` if standard output is no terminal or its size cannot be
/// determined. The outcome depends on the process's environment, so nothing
/// is promised of it.
#[verifier::external_body]
pub(crate) fn probe_stdout_size() -> Option<(u16, u16)> {
    terminal_size::terminal_size_of(std::io::stdout())
        .map(|size| ((size.0).0, (size.1).0))
}

/// Relies on `terminal_size::terminal_size_of`, applied to the standard
/// error handle: reports the width and height of the attached terminal, or
/// `None` if standard error is no terminal or its size cannot be
/// determined. The outcome depends on the process's environment, so nothing
/// is promised of it.
#[verifier::external_body]
pub(crate) fn probe_stderr_size() -> Option<(u16, u16)> {
    terminal_size::terminal_size_of(std::io::stderr())
        .map(|size| ((size.0).0, (size.1).0))
}

/// An explicit `Never` override always answers "no color", and an explicit
/// `Always` override always answers "use color", whatever the environment
/// and the stream say.
pub proof fn lemma_use_color_override(state: StreamInfoState, probed: Option<(u16, u16)>)
    ensures
        state.color_mode == ColorMode::Never ==> use_color_step(state, probed).0 == false,
        state.color_mode == ColorMode::Always ==> use_color_step(state, probed).0 == true,
        state.color_mode != ColorMode::Auto ==> use_color_step(state, probed).1 == state,
{
}

/// Under automatic mode, an unprobed stream that turns out not to be a
/// terminal never gets color and falls back to the default line width,
/// whatever the `NO_COLOR` flag says.
pub proof fn lemma_auto_without_terminal(state: StreamInfoState)
    requires
        state.color_mode == ColorMode::Auto,
        state.raw_line_width == RawLineWidth::Unknown,
    ensures
        use_color_step(state, None).0 == false,
        effective_width(width_step(state.raw_line_width, None)) == DEFAULT_LINE_WIDTH,
{
}

/// Under automatic mode, an unprobed terminal of some width gets color
/// exactly when the `NO_COLOR` flag is not set, and reports that width.
pub proof fn lemma_auto_with_terminal(state: StreamInfoState, width: u16, height: u16)
    requires
        state.color_mode == ColorMode::Auto,
        state.raw_line_width == RawLineWidth::Unknown,
    ensures
        use_color_step(state, Some((width, height))).0 == !state.no_color,
        effective_width(width_step(state.raw_line_width, Some((width, height)))) == width,
{
}

/// Once one `use_color` call has resolved the decision, every later call
/// returns the same answer and leaves the state unchanged, whatever a fresh
/// probe would say.
pub proof fn lemma_use_color_memoized(
    state: StreamInfoState,
    first: Option<(u16, u16)>,
    second: Option<(u16, u16)>,
)
    ensures
        ({
            let (first_answer, resolved) = use_color_step(state, first);
            use_color_step(resolved, second) == (first_answer, resolved)
        }),
{
}

/// Once one `line_width` call has resolved the width, every later call sees
/// the same cached outcome, whatever a fresh probe would say.
pub proof fn lemma_line_width_memoized(
    raw: RawLineWidth,
    first: Option<(u16, u16)>,
    second: Option<(u16, u16)>,
)
    ensures
        width_step(width_step(raw, first), second) == width_step(raw, first),
{
}

} // verus!
