//! Output coloring and text wrapping.

mod style;
mod text;

pub mod stream_info;
pub mod streams;

pub use style::Color;
pub use style::Style;
pub use text::StyledStr;
pub use text::StyledString;
pub use text::StyledText;
