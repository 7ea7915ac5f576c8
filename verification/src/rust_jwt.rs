//! The rules of a login service.

pub mod controller;
