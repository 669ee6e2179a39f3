//! Sealing job protocol: the job taxonomy of the sealing pipeline, the wire
//! envelope that carries a job or its output, and the request/response rules
//! of the job-management service, stated as contracts and proved.

pub mod base64;
pub mod client;
pub mod envelope;
pub mod filecoin;
pub mod job;
pub mod json;
pub mod lotus;
pub mod sealing;
pub mod text;
pub mod varint;
pub mod wire;
