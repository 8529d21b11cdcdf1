//! What the operations are for: for each of them what its results have to do with what it is given,
//! written out in full.

pub mod accounts;
pub mod admin;
pub mod calculator;
pub mod calls;
pub mod files;
pub mod operations;
pub mod requests;
pub mod session;
pub mod texts;
pub mod users;
pub mod views;
