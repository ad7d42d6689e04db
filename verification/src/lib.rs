//! Referral codes and the rules of the referral service around them.
//!
//! Every identifier up to `MAX_ID` has a code `adjective-color-animal`;
//! distinct identifiers have distinct codes, and every combination of words
//! is the code of exactly one identifier (see `referral_code`). The other
//! modules hold the decisions of the service that stores owners, codes and
//! redemptions: which requests are accepted, how failures are reported, and
//! how a project is exported as CSV.
pub mod cli;
pub mod decimal;
pub mod export;
pub mod handlers;
pub mod json;
pub mod models;
pub mod referral_code;
pub mod repo;
pub mod service;
pub mod text;
pub mod words;
