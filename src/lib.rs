//! A programmable HTTP mock endpoint: composable request matchers, an ordered
//! registry of expectations with call-count contracts, and the dispatch and
//! verification rules that run over it.

pub mod mappers;
pub mod request;
pub mod server;
