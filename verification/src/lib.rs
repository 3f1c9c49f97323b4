//! A per-run resource bundle: a bump-pointer arena over a fixed buffer with
//! bulk reset (`TemporaryStorage`), a growable overflow arena
//! (`HeapStorageBlock`), and a leveled, buffered logger (`Logger`), composed
//! into a `Context` that is owned exclusively for one run.

pub mod context;
pub mod errors;
pub mod logger;
pub mod storage;
pub mod text;

pub use context::Context;
pub use errors::CoreError;
pub use logger::LogMessage;
pub use logger::Logger;
pub use storage::Allocator;
pub use storage::HeapStorageBlock;
pub use storage::TemporaryStorage;
