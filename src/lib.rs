//! Customer registration, login and listing over a single customer table.
//!
//! The library holds the decisions of the service: the rules of the customer
//! repository (proved on an in-memory store), the availability guard around an
//! optional store connection, the step-by-step register flow that a live
//! relational store is driven through, and the shaping of HTTP responses.
pub mod flow;
pub mod guard;
pub mod laws;
pub mod memory;
pub mod model;
pub mod response;
