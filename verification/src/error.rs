use vstd::prelude::*;

verus! {

/// Errors that the library's checks and decisions report.
#[derive(Debug)]
pub enum AppError {
    /// A message with neither text nor attachments.
    EmptyMessageContent,
    /// A message whose text holds more characters than Discord accepts.
    MessageTooLong { len: usize },
    /// More attachments than one message may carry.
    TooManyAttachments { count: usize },
    /// One attachment above the per-file upload limit.
    AttachmentTooLarge { filename: String, size: u64 },
    /// Attachments whose sizes together exceed the per-message limit.
    AttachmentsTooLarge { size: u64 },
    /// A request to Discord failed; the text says how.
    DiscordRequest(String),
    /// The `HOME` environment variable is not set.
    MissingHome,
    /// Reading or writing the configuration file failed; the text says how.
    ConfigIo(String),
    /// The configuration file is not valid TOML for the display options.
    ConfigParse(String),
}

} // verus!
