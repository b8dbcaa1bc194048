//! Save-file synchronisation decisions, the navigation model of the
//! syncer's home screen, and the bookkeeping of the daemon's command stream.

pub mod digest;
pub mod save;
pub mod homepage;
pub mod stream;
pub mod logging;
