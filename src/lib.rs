//! Building a push notification for an ntfy-style HTTP endpoint: choosing the
//! message body from piped input or a flag, naming the priority, synthesising
//! the title and assembling the request's headers and body.
pub mod input;
pub mod laws;
pub mod priority;
pub mod request;

pub use input::{join_lines, resolve_message, InputSource, NotifyError};
pub use priority::NtfyPriority;
pub use request::{
    build_request, prepare, resolve_title, summary_line, Config, Header, NotificationRequest,
    Outgoing,
};
