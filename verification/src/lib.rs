//! Dynamic-DNS update relay: the decisions that bring one address record of a
//! DNS provider in line with a requested IPv4 address.
//!
//! The library performs no network traffic itself. It says which call goes to
//! the provider next and what the provider's reply means; the program around
//! it sends the call and hands the reply back.

pub mod api;
pub mod access;
pub mod address;
pub mod config;
pub mod provider;
pub mod text;
