//! How the bot writes its logs.

use vstd::prelude::*;

verus! {

/// The shape of each log line.
#[derive(Clone, Copy, Debug, PartialEq, Eq, Hash, Structural)]
pub enum LoggingStyle {
    Compact,
    Pretty,
    JSON,
}

impl Default for LoggingStyle {
    fn default() -> (s: LoggingStyle)
        ensures
            s == LoggingStyle::Compact,
    {
        LoggingStyle::Compact
    }
}

/// The style of the logs and the filter that picks which targets log.
#[derive(Debug)]
pub struct Logging {
    pub style: LoggingStyle,
    /// A filter in the syntax of `RUST_LOG`, such as `info`.
    pub targets: String,
}

impl Logging {
    /// Settings with `style`, and the `info` filter unless `targets` is given.
    pub fn new(style: LoggingStyle, targets: Option<String>) -> (l: Logging)
        ensures
            l.style == style,
            targets is Some ==> l.targets@ == targets->0@,
            targets is None ==> l.targets@ == "info"@,
    {
        match targets {
            Some(t) => Logging { style, targets: t },
            None => Logging { style, targets: "info".to_owned() },
        }
    }
}

impl Default for Logging {
    /// Compact lines with an empty filter, which the bot reads as its own default.
    fn default() -> (l: Logging)
        ensures
            l.style == LoggingStyle::Compact,
            l.targets@ == Seq::<char>::empty(),
    {
        Logging { style: LoggingStyle::Compact, targets: String::new() }
    }
}

} // verus!
