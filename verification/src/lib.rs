//! Run a shell command and report its outcome over a set of notification
//! channels (SMS, email, chat webhook, OS toast).
//!
//! The library holds the whole decision pipeline: assembling the wrapped
//! command line from the invocation tokens, modelling the captured execution
//! result, validating each channel's configuration against the bootstrap
//! placeholders, rendering the channel-specific messages, and interpreting
//! each channel's send outcome into a verdict (continue, warn, or abort with
//! a reserved exit code). The thin binary around it performs the actual I/O:
//! loading the configuration, spawning the shell, and calling the providers.

pub mod assemble;
pub mod channel;
pub mod config;
pub mod dispatch;
pub mod outcome;
pub mod render;
pub mod text;
pub mod validate;
