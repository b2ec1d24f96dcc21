//! Verified core of a gRPC demonstration suite: the route guide (feature
//! lookup, rectangle queries, route summaries, location-keyed note chat), a
//! bounded chat history, a greeter, and the client's pure helpers.

pub mod chat;
pub mod client;
pub mod geometry;
pub mod hello_world;
pub mod route_guide;
pub mod seq_facts;

