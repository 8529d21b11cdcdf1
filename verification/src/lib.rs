//! The rules of a small chat server.

pub mod auth;
pub mod cache;
pub mod chat;
pub mod commands;
pub mod config;
pub mod data_access;
pub mod data_service;
pub mod effect;
pub mod files;
pub mod history;
pub mod laws;
pub mod message;
pub mod models;
pub mod number;
pub mod outside;
pub mod password;
pub mod status;
pub mod store;
pub mod tables;
pub mod text;
pub mod token;
pub mod user;
pub mod utils;
pub mod ws;
