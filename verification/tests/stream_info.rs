use std::cell::Cell;
use std::rc::Rc;

use styled_output::stream_info::ColorMode;
use styled_output::stream_info::StreamInfo;
use styled_output::stream_info::TerminalSize;
use styled_output::stream_info::DEFAULT_LINE_WIDTH;

/// A stream that pretends to be a terminal of a fixed width.
struct FixedWidth(u16);

impl TerminalSize for FixedWidth {
    fn terminal_size(&self) -> Option<(u16, u16)> {
        Some((self.0, 25))
    }
}

/// A stream that is not connected to a terminal.
struct NotATerminal;

impl TerminalSize for NotATerminal {
    fn terminal_size(&self) -> Option<(u16, u16)> {
        None
    }
}

/// A probe that counts how often it is consulted and can change its answer.
struct CountingProbe {
    calls: Rc<Cell<usize>>,
    answers: Rc<Cell<Option<(u16, u16)>>>,
}

impl TerminalSize for CountingProbe {
    fn terminal_size(&self) -> Option<(u16, u16)> {
        self.calls.set(self.calls.get() + 1);
        self.answers.get()
    }
}

#[test]
fn test_use_color_no_terminal() {
    for env_no_color in [false, true] {
        for color_mode in [
            None,
            Some(ColorMode::Auto),
            Some(ColorMode::Never),
            Some(ColorMode::Always),
        ] {
            for multiple_calls in [false, true] {
                let mut stream_info = StreamInfo::new(NotATerminal, env_no_color);
                if let Some(color_mode) = color_mode {
                    stream_info.set_color_mode(color_mode);
                }

                let expected_use_color = matches!(color_mode, Some(ColorMode::Always));
                if multiple_calls {
                    let _ = stream_info.use_color();
                }
                assert_eq!(
                    stream_info.use_color(),
                    expected_use_color,
                    "env_no_color = {env_no_color:?}, color_mode = {color_mode:?}, multiple_calls = {multiple_calls:?}",
                );
            }
        }
    }
}

#[test]
fn test_use_color_terminal() {
    for env_no_color in [false, true] {
        for color_mode in [
            None,
            Some(ColorMode::Auto),
            Some(ColorMode::Never),
            Some(ColorMode::Always),
        ] {
            for multiple_calls in [false, true] {
                let mut stream_info = StreamInfo::new(FixedWidth(80), env_no_color);
                if let Some(color_mode) = color_mode {
                    stream_info.set_color_mode(color_mode);
                }

                let expected_use_color = match (env_no_color, color_mode) {
                    (_, Some(ColorMode::Never)) => false,
                    (_, Some(ColorMode::Always)) => true,
                    (false, _) => true,
                    _ => false,
                };
                if multiple_calls {
                    let _ = stream_info.use_color();
                }
                assert_eq!(
                    stream_info.use_color(),
                    expected_use_color,
                    "env_no_color = {env_no_color:?}, color_mode = {color_mode:?}, multiple_calls = {multiple_calls:?}",
                );
            }
        }
    }
}

#[test]
fn test_line_width_no_terminal() {
    for multiple_calls in [false, true] {
        let mut stream_info = StreamInfo::new(NotATerminal, false);

        if multiple_calls {
            let _ = stream_info.line_width();
        }
        assert_eq!(
            stream_info.line_width(),
            DEFAULT_LINE_WIDTH,
            "multiple_calls = {multiple_calls:?}",
        );
    }
}

#[test]
fn test_line_width_terminal() {
    for line_width in [1, 20, DEFAULT_LINE_WIDTH, 112] {
        for multiple_calls in [false, true] {
            let mut stream_info = StreamInfo::new(FixedWidth(line_width), false);

            if multiple_calls {
                let _ = stream_info.line_width();
            }
            assert_eq!(
                stream_info.line_width(),
                line_width,
                "line_width = {line_width}, multiple_calls = {multiple_calls:?}",
            );
        }
    }
}

#[test]
fn line_width_ignores_no_color() {
    let mut on_terminal = StreamInfo::new(FixedWidth(132), true);
    assert_eq!(on_terminal.line_width(), 132);
    let mut redirected = StreamInfo::new(NotATerminal, true);
    assert_eq!(redirected.line_width(), DEFAULT_LINE_WIDTH);
}

#[test]
fn probe_consulted_at_most_once() {
    let calls = Rc::new(Cell::new(0));
    let answers = Rc::new(Cell::new(Some((101u16, 30u16))));
    let probe = CountingProbe {
        calls: Rc::clone(&calls),
        answers: Rc::clone(&answers),
    };
    let mut stream_info = StreamInfo::new(probe, false);

    assert!(stream_info.use_color());
    assert_eq!(calls.get(), 1);
    assert_eq!(stream_info.line_width(), 101);
    assert_eq!(calls.get(), 1);

    // Even if the terminal were to change or vanish, the cached answers stay.
    answers.set(Some((55, 10)));
    assert!(stream_info.use_color());
    assert_eq!(stream_info.line_width(), 101);
    answers.set(None);
    assert!(stream_info.use_color());
    assert_eq!(stream_info.line_width(), 101);
    assert_eq!(calls.get(), 1);
}

#[test]
fn no_color_skips_the_probe() {
    let calls = Rc::new(Cell::new(0));
    let answers = Rc::new(Cell::new(Some((90u16, 30u16))));
    let probe = CountingProbe {
        calls: Rc::clone(&calls),
        answers: Rc::clone(&answers),
    };
    let mut stream_info = StreamInfo::new(probe, true);

    assert!(!stream_info.use_color());
    assert_eq!(calls.get(), 0);
}

#[test]
fn override_wins_over_cached_decision() {
    let mut stream_info = StreamInfo::new(FixedWidth(80), false);
    assert!(stream_info.use_color());
    stream_info.set_color_mode(ColorMode::Never);
    assert!(!stream_info.use_color());
    stream_info.set_color_mode(ColorMode::Always);
    assert!(stream_info.use_color());
}

#[test]
fn auto_after_override_resolves_again() {
    let mut stream_info = StreamInfo::new(NotATerminal, false);
    stream_info.set_color_mode(ColorMode::Always);
    assert!(stream_info.use_color());
    stream_info.set_color_mode(ColorMode::Auto);
    assert!(!stream_info.use_color());
}
