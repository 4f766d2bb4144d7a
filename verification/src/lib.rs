//! Core logic of a file-backed note editor: the note store model, the
//! auto-save scheduler, and the session controller that keeps an in-memory
//! edit buffer, a debounce timer, and the stored notes consistent.

mod dates;
pub mod laws;
pub mod sched;
pub mod session;
pub mod store;
pub mod text;
