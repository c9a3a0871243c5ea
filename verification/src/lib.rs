//! The logic of a web page that streams the local timeline of a Misskey server to
//! its visitors: how notes and the visitor counter become HTML, what a visitor is
//! sent and when, and how the connection to the server is kept alive.

pub mod text;
pub mod chunk;
pub mod timestamp;
pub mod json;
pub mod model;
pub mod misskey;
pub mod html;
pub mod response;
pub mod stream;
pub mod connector;
pub mod feed;
