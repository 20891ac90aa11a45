//! Decision logic of a desktop chat companion's backend commands: the
//! streaming download manager, notification building and filtering, and the
//! small checks made on HTTP responses.

pub mod download;
pub mod http;
pub mod notice;
pub mod system;
pub mod text;
