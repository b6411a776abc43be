//! Rebuilds an e-mail message from its parsed form: headers and attachments
//! are carried over to a message builder, the plain-text body can be rendered
//! to an HTML document, and a tracking pixel can be derived from the message
//! identifier.

pub mod assignment;
pub mod attachments;
pub mod delivery;
pub mod error;
pub mod headers;
pub mod lines;
pub mod message;
pub mod outgoing;
pub mod pixel;
pub mod rebuild;
pub mod render;
pub mod sequences;
