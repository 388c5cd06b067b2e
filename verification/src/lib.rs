//! Terminal text for an agent's tool loop: streamed markdown is buffered and rendered at
//! flush boundaries, and tool events are formatted into compact lines.

pub mod args;
pub mod chars;
pub mod format;
pub mod json;
pub mod logging;
pub mod markdown;
pub mod style;
pub mod text_buffer;

pub use args::format_tool_args;
pub use format::{
    estimate_tokens, format_cancelled, format_ctrl_c, format_error_detail, format_error_message,
    format_retry, format_tool_executing, format_tool_result,
};
pub use logging::{
    disable_logging, enable_logging, get_output_sink, is_logging_enabled, log_event,
    log_event_line, reset_output_sink, set_output_sink, Logger, OutputSink,
};
pub use text_buffer::TextBuffer;
