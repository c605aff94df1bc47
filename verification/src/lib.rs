//! A bounded conversational memory: per-identity chat histories that keep
//! their newest messages, the in-process table that caches them, and the
//! decisions of the on-disk store that backs the table.
//!
//! Nothing in this crate touches a file, a socket or a clock. Callers read
//! and write; the functions here decide what a record holds afterwards.

pub mod cache;
pub mod gemini;
pub mod laws;
pub mod logging;
pub mod openrouter;
pub mod record;
pub mod scope;
pub mod session;
pub mod store;

pub use crate::cache::{get_memory, update_memory, MemoryCache, MemoryTable};
pub use crate::record::{ChatMemory, Message, MessageView, MAX_HISTORY_LEN};
pub use crate::scope::{parse_scope, Scope};
pub use crate::store::{load_memory_from_file, memory_file_name, FileRead, LoadError, MEMORY_DIR};
