//! Supervision of a long-running game-server process: version strings,
//! the server's log-line grammar, the lines and events handed to
//! subscribers, and the decisions of the process lifecycle.

pub mod text;
pub mod error;
pub mod version;
pub mod pattern;
pub mod log;
pub mod clock;
pub mod instance;
pub mod stream;

pub use error::{
    CreationError, Error, HandleError, ManifestError, ParserError, ServerError, SubscribeError,
    VersionError,
};
pub use instance::{command_text, InstanceData, InstanceStatus, Lifecycle};
pub use log::{event_of_line, InternalEvent, LogLevel, LogMeta};
pub use stream::{extract_timestamp, EventPayload, InstanceEvent, StreamLine, StreamSource};
pub use version::{MinecraftType, MinecraftVersion, Snapshot, Version};
