//! Client-side logic for asking a local language-model server one question:
//! the request bodies, the reading of the reply, and the search for its text.

pub mod codec;
pub mod extract;
pub mod json;
pub mod reply;
pub mod request;
pub mod status;
