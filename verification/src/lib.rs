//! A small console-logging library: a builder accumulates formatting
//! options (severity, timestamp, numeric code, ANSI color configuration)
//! and a renderer composes a single line of text together with the output
//! stream it should be routed to.

pub mod builder;
pub mod colors;
pub mod digits;
pub mod level;
pub mod record;

pub use builder::log;
pub use builder::LoggerBuilder;
pub use colors::AnsiColors;
pub use record::Logger;
pub use level::Level;
pub use level::Stream;
