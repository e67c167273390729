//! The word-learning service: accounts, words, and which account learns
//! which word.

pub mod entity;
pub mod model;
pub mod request;
pub mod response;
pub mod interface;
pub mod service;
