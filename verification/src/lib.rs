//! A pluggable backend for a process-wide logging facade.
//!
//! Log events carry a severity [`Level`]; the routing engine dispatches each
//! event, after a configurable formatting step, to the output sinks
//! ("appenders") registered for that level. A [`Builder`] accumulates, per
//! level, the appenders bound to each formatting step; finalization derives
//! the global severity threshold and installs a precomputed dispatch table
//! ([`HandlerCompound`]) into an [`Engine`], whose slot can be reconfigured
//! at runtime while events are being produced concurrently on other threads.

pub mod appender;
pub mod builder;
pub mod compound;
pub mod engine;
pub mod error;
pub mod format;
pub mod handler;
pub mod level;
pub mod record;
pub mod threshold;

pub use appender::Appender;
pub use appender::IntoAppender;
pub use builder::Builder;
pub use builder::builder;
pub use compound::HandlerCompound;
pub use engine::Engine;
pub use engine::free;
pub use error::Error;
pub use format::DefaultFormat;
pub use format::FormatStep;
pub use format::default_format;
pub use handler::Handler;
pub use handler::HandlerImpl;
pub use level::Level;
pub use level::LevelFilter;
pub use level::get_idx_for_level;
pub use record::LogRecord;
pub use threshold::derived_threshold;
pub use threshold::get_level_for_handlers;
