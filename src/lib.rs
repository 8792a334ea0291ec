//! A real-time chat hub: sessions, rooms and the event protocol between them,
//! together with the file-upload and password rules of the surrounding service.

pub mod text;
pub mod model;
pub mod wire;
pub mod table;
pub mod server;
pub mod session;
pub mod uploads;
pub mod error;
pub mod error_handler;
pub mod password;
pub mod helpers;
