//! A filesystem change-notification core: raw platform events are classified
//! into a stable `(type, kind, mode)` taxonomy, screened by a chain of glob
//! filters, and buffered in a FIFO queue for non-blocking consumption.

pub mod filter;
pub mod queue;
pub mod taxonomy;
pub mod watcher;
