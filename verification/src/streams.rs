//! Information about output standard streams (standard output and standard
//! error).

use vstd::prelude::*;

use crate::stream_info::probe_stderr_size;
use crate::stream_info::probe_stdout_size;
use crate::stream_info::effective_width;
use crate::stream_info::width_step;
use crate::stream_info::RawLineWidth;

pub use crate::stream_info::DEFAULT_LINE_WIDTH;

verus! {

/// Whether to use colors and other styling.
#[derive(Debug, Clone, Copy, PartialEq, Eq, Hash, Structural)]
pub enum ColorMode {
    /// Determine automatically whether to use colors and other styling.
    ///
    /// Colors and styling are used if the output stream refers to a terminal,
    /// unless the `NO_COLOR` environment flag is set.
    Auto,
    /// Do not use colors and other styling, irrespective of whether the
    /// output stream refers to a terminal or whether the `NO_COLOR`
    /// environment flag is set.
    Never,
    /// Use colors and other styling, irrespective of whether the output
    /// stream refers to a terminal or whether the `NO_COLOR` environment
    /// flag is set.
    Always,
}

/// Provides the terminal size of a standard stream.
pub trait StdStream {
    /// Returns the width and height of the terminal the standard stream
    /// refers to, or `None` if it is not a terminal or its size cannot be
    /// determined.
    fn terminal_size(&self) -> Option<(u16, u16)>;
}

/// The abstract state of an [`OutputStreamInfo`]: its cached color decision,
/// its cached width probe outcome, and the environment flag it was built
/// with.
pub struct OutputStreamState {
    /// The cached color mode.
    pub color_mode: ColorMode,
    /// The cached width probe outcome.
    pub raw_line_width: RawLineWidth,
    /// Whether the `NO_COLOR` environment variable was set to a non-empty
    /// value when the instance was created.
    pub no_color: bool,
}

/// How one `use_color` call moves the state and what it returns, given the
/// outcome the terminal probe would report.
pub open spec fn use_color_step(
    state: OutputStreamState,
    probed: Option<(u16, u16)>,
) -> (bool, OutputStreamState) {
    match state.color_mode {
        ColorMode::Never => (false, state),
        ColorMode::Always => (true, state),
        ColorMode::Auto => if state.no_color {
            (false, OutputStreamState { color_mode: ColorMode::Never, ..state })
        } else {
            let raw = width_step(state.raw_line_width, probed);
            let use_color = raw is Columns;
            (
                use_color,
                OutputStreamState {
                    color_mode: if use_color {
                        ColorMode::Always
                    } else {
                        ColorMode::Never
                    },
                    raw_line_width: raw,
                    ..state
                },
            )
        },
    }
}

/// Information about an output standard stream (standard output or standard
/// error).
pub struct OutputStreamInfo<S: StdStream> {
    /// Provides the terminal size of the stream.
    stream: S,
    /// Whether to use colors and other styling.
    color_mode: ColorMode,
    /// The cached width probe outcome.
    raw_line_width: RawLineWidth,
    /// Whether the `NO_COLOR` environment variable was set to a non-empty
    /// value when this instance was created.
    no_color: bool,
}

impl<S: StdStream> View for OutputStreamInfo<S> {
    type V = OutputStreamState;

    closed spec fn view(&self) -> OutputStreamState {
        OutputStreamState {
            color_mode: self.color_mode,
            raw_line_width: self.raw_line_width,
            no_color: self.no_color,
        }
    }
}

impl<S: StdStream> OutputStreamInfo<S> {
    /// Returns information about an output standard stream for which no
    /// information has been determined yet.
    ///
    /// `no_color` tells the instance whether the `NO_COLOR` environment
    /// variable is set to a non-empty value; the flag is read once per
    /// process, outside this library.
    pub fn new(stream: S, no_color: bool) -> (info: Self)
        ensures
            info@ == (OutputStreamState {
                color_mode: ColorMode::Auto,
                raw_line_width: RawLineWidth::Unknown,
                no_color: no_color,
            }),
    {
        OutputStreamInfo {
            stream,
            color_mode: ColorMode::Auto,
            raw_line_width: RawLineWidth::Unknown,
            no_color,
        }
    }

    /// Returns whether colors and other styling should be used on the output
    /// stream.
    ///
    /// The result is determined according to these rules:
    /// - If the color mode has been set to [`ColorMode::Never`] with
    ///   [`set_color_mode`](Self::set_color_mode), `false` is returned.
    /// - Otherwise, if the color mode has been set to [`ColorMode::Always`]
    ///   with [`set_color_mode`](Self::set_color_mode), `true` is returned.
    /// - Otherwise, if the `NO_COLOR` environment flag is set, `false` is
    ///   returned.
    /// - Otherwise, if the output stream refers to a terminal, `true` is
    ///   returned.
    /// - Otherwise, `false` is returned.
    pub fn use_color(&mut self) -> (use_color: bool)
        ensures
            exists|probed: Option<(u16, u16)>| (use_color, final(self)@) == use_color_step(
                old(self)@,
                probed,
            ),
            final(self)@.no_color == old(self)@.no_color,
            final(self)@.color_mode != ColorMode::Auto,
            use_color == (final(self)@.color_mode == ColorMode::Always),
            old(self)@.color_mode == ColorMode::Never ==> use_color == false,
            old(self)@.color_mode == ColorMode::Always ==> use_color == true,
            old(self)@.color_mode != ColorMode::Auto ==> final(self)@ == old(self)@,
            old(self)@.raw_line_width != RawLineWidth::Unknown ==> final(self)@.raw_line_width
                == old(self)@.raw_line_width,
    {
        match self.color_mode {
            ColorMode::Never => {
                proof {
                    let witness: Option<(u16, u16)> = None;
                    assert((false, self@) == use_color_step(old(self)@, witness));
                }
                false
            },
            ColorMode::Always => {
                proof {
                    let witness: Option<(u16, u16)> = None;
                    assert((true, self@) == use_color_step(old(self)@, witness));
                }
                true
            },
            ColorMode::Auto => {
                if self.no_color {
                    self.color_mode = ColorMode::Never;
                    proof {
                        let witness: Option<(u16, u16)> = None;
                        assert((false, self@) == use_color_step(old(self)@, witness));
                    }
                    false
                } else {
                    let probed = self.probe_line_width();
                    let use_color = match self.raw_line_width {
                        RawLineWidth::Columns(_) => true,
                        _ => false,
                    };
                    self.color_mode = if use_color {
                        ColorMode::Always
                    } else {
                        ColorMode::Never
                    };
                    proof {
                        assert((use_color, self@) == use_color_step(old(self)@, probed@));
                    }
                    use_color
                }
            },
        }
    }

    /// Sets whether colors and other styling should be used on the output
    /// stream.
    ///
    /// [`ColorMode::Never`] disables color usage and [`ColorMode::Always`]
    /// enables it; [`ColorMode::Auto`] re-arms the automatic decision of
    /// [`use_color`](Self::use_color).
    pub fn set_color_mode(&mut self, color_mode: ColorMode)
        ensures
            final(self)@ == (OutputStreamState { color_mode: color_mode, ..old(self)@ }),
    {
        self.color_mode = color_mode;
    }

    /// Returns the line width that should be used for word wrapping when
    /// writing to the output stream.
    ///
    /// Returns the terminal width if the output stream refers to a terminal,
    /// or a default line width ([`DEFAULT_LINE_WIDTH`]) otherwise. The
    /// stream is probed at most once; the outcome is cached for the life of
    /// the instance.
    pub fn line_width(&mut self) -> (line_width: u16)
        ensures
            exists|probed: Option<(u16, u16)>| final(self)@.raw_line_width == width_step(
                old(self)@.raw_line_width,
                probed,
            ),
            final(self)@.color_mode == old(self)@.color_mode,
            final(self)@.no_color == old(self)@.no_color,
            final(self)@.raw_line_width != RawLineWidth::Unknown,
            old(self)@.raw_line_width != RawLineWidth::Unknown ==> final(self)@ == old(self)@,
            line_width == effective_width(final(self)@.raw_line_width),
    {
        self.probe_line_width();
        match self.raw_line_width {
            RawLineWidth::Columns(width) => width,
            _ => DEFAULT_LINE_WIDTH,
        }
    }

    /// Resolves the cached width probe outcome, consulting the stream only
    /// if no outcome is cached yet, and reports what the probe answered (or
    /// `None` if nothing had to be asked).
    fn probe_line_width(&mut self) -> (probed: Ghost<Option<(u16, u16)>>)
        ensures
            final(self)@.raw_line_width == width_step(old(self)@.raw_line_width, probed@),
            final(self)@.color_mode == old(self)@.color_mode,
            final(self)@.no_color == old(self)@.no_color,
            final(self)@.raw_line_width != RawLineWidth::Unknown,
            old(self)@.raw_line_width != RawLineWidth::Unknown ==> final(self)@ == old(self)@,
    {
        match self.raw_line_width {
            RawLineWidth::Unknown => {
                let size = self.stream.terminal_size();
                self.raw_line_width = match size {
                    Some((width, _height)) => RawLineWidth::Columns(width),
                    None => RawLineWidth::Absent,
                };
                Ghost(size)
            },
            _ => Ghost(None),
        }
    }
}

/// Provides the terminal size of standard output.
pub struct Stdout;

impl StdStream for Stdout {
    fn terminal_size(&self) -> Option<(u16, u16)> {
        probe_stdout_size()
    }
}

/// Provides the terminal size of standard error.
pub struct Stderr;

impl StdStream for Stderr {
    fn terminal_size(&self) -> Option<(u16, u16)> {
        probe_stderr_size()
    }
}

/// An explicit `Never` override always answers "no color", and an explicit
/// `Always` override always answers "use color", whatever the environment
/// and the stream say.
pub proof fn lemma_use_color_override(state: OutputStreamState, probed: Option<(u16, u16)>)
    ensures
        state.color_mode == ColorMode::Never ==> use_color_step(state, probed).0 == false,
        state.color_mode == ColorMode::Always ==> use_color_step(state, probed).0 == true,
        state.color_mode != ColorMode::Auto ==> use_color_step(state, probed).1 == state,
{
}

/// Once one `use_color` call has resolved the decision, every later call
/// returns the same answer and leaves the state unchanged, whatever a fresh
/// probe would say.
pub proof fn lemma_use_color_memoized(
    state: OutputStreamState,
    first: Option<(u16, u16)>,
    second: Option<(u16, u16)>,
)
    ensures
        ({
            let (first_answer, resolved) = use_color_step(state, first);
            use_color_step(resolved, second) == (first_answer, resolved)
        }),
{
}

} // verus!
