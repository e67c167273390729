//! The support service: protagonists, their supporters, and the links
//! between them.

pub mod entity;
pub mod model;
pub mod response;
pub mod request;
pub mod interface;
pub mod service;
