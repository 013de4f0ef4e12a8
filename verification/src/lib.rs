//! The deciding core of a document-to-PDF conversion service: the client-side
//! load balancer over a pool of converter backends, the classification of
//! backend replies, and the file heuristics of the conversion server.

pub mod client;
pub mod encrypted;
pub mod load;
pub mod payload;
pub mod server;
pub mod temp;
pub mod text;
