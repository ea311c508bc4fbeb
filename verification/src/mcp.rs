//! The MCP tool layer: request paths, request bodies and the readings of
//! responses that the tools share.
pub mod encode;
pub mod paths;
pub mod pattern;
pub mod xmltext;
pub mod create;
pub mod abapfile;
pub mod jsonx;
pub mod diff;
pub mod walk;
pub mod flow;
pub mod edit;
pub mod atc;
pub mod deploy;
pub mod clone;
pub mod classtests;
pub mod execabap;
pub mod program;
pub mod table;
pub mod grep;
pub mod requests;
pub mod lookups;
pub mod transports;
pub mod wscalls;
pub mod ui5;
pub mod classinfo;
pub mod activation;
pub mod runtime;
pub mod setup;
