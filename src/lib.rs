//! Device-authorization login for a streaming platform: the records that are
//! kept on disk, their byte format, the classification of the platform's
//! answers, and the polling state machine that turns a device code into
//! credentials.
mod json;
pub mod flow;
pub mod login;
pub mod records;
pub mod store;
pub mod token;
