//! Authentication core and domain logic of the `cosan` and `support` services:
//! password hashing, bearer-token validation, the request guard in front of
//! protected routes, and the business services written against repository
//! capabilities.

pub mod text;
pub mod token;
pub mod password;
pub mod http;
pub mod guard;
pub mod validation;
pub mod outcome;
pub mod cosan;
pub mod support;
