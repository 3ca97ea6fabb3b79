//! Session-based authentication in front of a pooled backing store: a bounded,
//! expiring session cache, the service that creates and destroys sessions, the
//! guard that every protected request passes, and the start-up policy of the
//! connection pool.

pub mod guard;
pub mod http;
pub mod json;
pub mod notes;
pub mod pool;
pub mod session;
pub mod settings;
pub mod store;
pub mod text;
