//! Data model of the logging core: colors, styles, log kinds, messages,
//! and the components a rendered line is assembled from.

use vstd::prelude::*;

verus! {

/// Display color attached to a log style.
///
/// The named variants are the colors the built-in presets use; `Rgb`
/// covers arbitrary custom styles.
#[derive(Clone, Copy, PartialEq, Eq, Structural, Debug)]
pub enum LogColor {
    White,
    Yellow,
    Red,
    DarkRed,
    Rgb { r: u8, g: u8, b: u8 },
}

/// Immutable styling descriptor: display color, literal prefix text, and
/// whether the message body itself is colored (or only the prefix).
#[derive(Debug)]
pub struct LogStyle {
    pub color: LogColor,
    pub prefix: String,
    pub color_message: bool,
}

impl Clone for LogStyle {
    fn clone(&self) -> (r: Self)
        ensures
            r == *self,
    {
        LogStyle {
            color: self.color,
            prefix: self.prefix.clone(),
            color_message: self.color_message,
        }
    }
}

/// The fixed preset for informational messages.
pub open spec fn is_info_style(s: LogStyle) -> bool {
    s.color == LogColor::White && s.prefix@ == "[INFO]"@ && s.color_message == false
}

/// The fixed preset for warnings.
pub open spec fn is_warning_style(s: LogStyle) -> bool {
    s.color == LogColor::Yellow && s.prefix@ == "[WARNING]"@ && s.color_message == false
}

/// The fixed preset for errors.
pub open spec fn is_error_style(s: LogStyle) -> bool {
    s.color == LogColor::Red && s.prefix@ == "[ERROR]"@ && s.color_message == false
}

/// The fixed preset for fatal errors; the only preset that colors the
/// message body as well as the prefix.
pub open spec fn is_fatal_style(s: LogStyle) -> bool {
    s.color == LogColor::DarkRed && s.prefix@ == "[FATAL]"@ && s.color_message == true
}

/// The style a freshly built `LogStyleBuilder` starts from.
pub open spec fn is_default_style(s: LogStyle) -> bool {
    s.color == LogColor::White && s.prefix@ == "[LOG]"@ && s.color_message == false
}

impl LogStyle {
    pub fn info() -> (s: Self)
        ensures
            is_info_style(s),
    {
        LogStyle { color: LogColor::White, prefix: "[INFO]".to_owned(), color_message: false }
    }

    pub fn warning() -> (s: Self)
        ensures
            is_warning_style(s),
    {
        LogStyle { color: LogColor::Yellow, prefix: "[WARNING]".to_owned(), color_message: false }
    }

    pub fn error() -> (s: Self)
        ensures
            is_error_style(s),
    {
        LogStyle { color: LogColor::Red, prefix: "[ERROR]".to_owned(), color_message: false }
    }

    pub fn fatal() -> (s: Self)
        ensures
            is_fatal_style(s),
    {
        LogStyle { color: LogColor::DarkRed, prefix: "[FATAL]".to_owned(), color_message: true }
    }
}

impl Default for LogStyle {
    fn default() -> (s: Self)
        ensures
            is_default_style(s),
    {
        LogStyle { color: LogColor::White, prefix: "[LOG]".to_owned(), color_message: false }
    }
}

/// Severity or category of a log event: one of the four built-in kinds,
/// or a custom kind that carries its own style.
#[derive(Debug)]
pub enum LogType {
    Info,
    Warning,
    Error,
    Fatal,
    Custom(LogStyle),
}

impl LogType {
    /// Wrap a style of one's own as a log kind.
    pub fn new_custom(style: LogStyle) -> (t: Self)
        ensures
            t == LogType::Custom(style),
    {
        LogType::Custom(style)
    }
}

impl Clone for LogType {
    fn clone(&self) -> (r: Self)
        ensures
            r == *self,
    {
        match self {
            LogType::Info => LogType::Info,
            LogType::Warning => LogType::Warning,
            LogType::Error => LogType::Error,
            LogType::Fatal => LogType::Fatal,
            LogType::Custom(s) => LogType::Custom(s.clone()),
        }
    }
}

/// Which style a log kind resolves to: each built-in kind maps to its
/// fixed preset, and a custom kind carries its style with it.
pub open spec fn resolves_to(t: LogType, s: LogStyle) -> bool {
    match t {
        LogType::Info => is_info_style(s),
        LogType::Warning => is_warning_style(s),
        LogType::Error => is_error_style(s),
        LogType::Fatal => is_fatal_style(s),
        LogType::Custom(c) => s == c,
    }
}

/// Resolve a log kind to its style: a pure total function with no error
/// path; every kind resolves to exactly one style.
pub fn resolve_style(log_type: &LogType) -> (s: LogStyle)
    ensures
        resolves_to(*log_type, s),
{
    match log_type {
        LogType::Info => LogStyle::info(),
        LogType::Warning => LogStyle::warning(),
        LogType::Error => LogStyle::error(),
        LogType::Fatal => LogStyle::fatal(),
        LogType::Custom(c) => c.clone(),
    }
}

/// An immutable value produced once per log call: the event kind, the raw
/// text, and the style resolved from the kind at the moment of the call.
#[derive(Debug)]
pub struct LogMessage {
    pub log_type: LogType,
    pub log_message: String,
    pub log_style: LogStyle,
}

impl Clone for LogMessage {
    fn clone(&self) -> (r: Self)
        ensures
            r == *self,
    {
        LogMessage {
            log_type: self.log_type.clone(),
            log_message: self.log_message.clone(),
            log_style: self.log_style.clone(),
        }
    }
}

/// One slot in the rendered output line: the style's prefix, the message
/// body, the wall-clock time, a single space, a newline, or literal text.
/// Duplicates and arbitrary orders are legal and meaningful.
#[derive(Debug)]
pub enum LogComponent {
    Prefix,
    Message,
    Time,
    Spacer,
    Newline,
    Literal(String),
}

impl Clone for LogComponent {
    fn clone(&self) -> (r: Self)
        ensures
            r == *self,
    {
        match self {
            LogComponent::Prefix => LogComponent::Prefix,
            LogComponent::Message => LogComponent::Message,
            LogComponent::Time => LogComponent::Time,
            LogComponent::Spacer => LogComponent::Spacer,
            LogComponent::Newline => LogComponent::Newline,
            LogComponent::Literal(s) => LogComponent::Literal(s.clone()),
        }
    }
}

/// Fluent builder for a `LogStyle`: starts from the default style and
/// applies the chosen options.
pub struct LogStyleBuilder {
    style: LogStyle,
}

impl LogStyleBuilder {
    /// The style this builder currently holds.
    pub closed spec fn spec_style(&self) -> LogStyle {
        self.style
    }

    pub fn new() -> (b: Self)
        ensures
            is_default_style(b.spec_style()),
    {
        LogStyleBuilder { style: LogStyle::default() }
    }

    pub fn from(style: LogStyle) -> (b: Self)
        ensures
            b.spec_style() == style,
    {
        LogStyleBuilder { style }
    }

    pub fn color(self, color: LogColor) -> (b: Self)
        ensures
            b.spec_style() == (LogStyle { color, ..self.spec_style() }),
    {
        let mut style = self.style;
        style.color = color;
        LogStyleBuilder { style }
    }

    pub fn prefix(self, prefix: String) -> (b: Self)
        ensures
            b.spec_style().prefix == prefix,
            b.spec_style().color == self.spec_style().color,
            b.spec_style().color_message == self.spec_style().color_message,
    {
        let mut style = self.style;
        style.prefix = prefix;
        LogStyleBuilder { style }
    }

    pub fn color_message(self, color_message: bool) -> (b: Self)
        ensures
            b.spec_style() == (LogStyle { color_message, ..self.spec_style() }),
    {
        let mut style = self.style;
        style.color_message = color_message;
        LogStyleBuilder { style }
    }

    pub fn build(self) -> (s: LogStyle)
        ensures
            s == self.spec_style(),
    {
        self.style
    }
}

} // verus!
