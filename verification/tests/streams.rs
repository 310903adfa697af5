use styled_output::streams::ColorMode;
use styled_output::streams::OutputStreamInfo;
use styled_output::streams::StdStream;
use styled_output::streams::DEFAULT_LINE_WIDTH;

/// A standard stream that pretends to be a terminal of a fixed width.
struct FakeTerminal(u16);

impl StdStream for FakeTerminal {
    fn terminal_size(&self) -> Option<(u16, u16)> {
        Some((self.0, 25))
    }
}

/// A standard stream that is not connected to a terminal.
struct Redirected;

impl StdStream for Redirected {
    fn terminal_size(&self) -> Option<(u16, u16)> {
        None
    }
}

#[test]
fn output_use_color_follows_override() {
    let mut info = OutputStreamInfo::new(Redirected, false);
    info.set_color_mode(ColorMode::Always);
    assert!(info.use_color());
    info.set_color_mode(ColorMode::Never);
    assert!(!info.use_color());
}

#[test]
fn output_use_color_auto_on_terminal() {
    let mut info = OutputStreamInfo::new(FakeTerminal(80), false);
    assert!(info.use_color());
    let mut muted = OutputStreamInfo::new(FakeTerminal(80), true);
    assert!(!muted.use_color());
}

#[test]
fn output_use_color_auto_without_terminal() {
    let mut info = OutputStreamInfo::new(Redirected, false);
    assert!(!info.use_color());
}

#[test]
fn output_line_width_reports_terminal_width() {
    let mut info = OutputStreamInfo::new(FakeTerminal(112), false);
    assert_eq!(info.line_width(), 112);
    assert_eq!(info.line_width(), 112);
}

#[test]
fn output_line_width_defaults_without_terminal() {
    let mut info = OutputStreamInfo::new(Redirected, true);
    assert_eq!(info.line_width(), DEFAULT_LINE_WIDTH);
}
