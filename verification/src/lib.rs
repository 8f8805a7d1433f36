//! Profile items of a proxy client: their data model, the rules that build
//! and combine them, and the decryption of encrypted subscriptions.

pub mod enhance;
pub mod headers;
pub mod kv;
pub mod prfitem;
pub mod response;
pub mod sources;
pub mod subscription_decrypt;
pub mod text;
