//! Parsing of the Prometheus text exposition served by the embedded metrics endpoint.
pub mod chars;
pub mod series;
pub mod labels;
pub mod order;
pub mod samples;
pub mod exposition;
pub mod http;
