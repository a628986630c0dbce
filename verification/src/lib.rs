pub mod codec;
pub mod conn;
pub mod router;
pub mod json;
pub mod laws;
pub mod registry;
pub mod server;
