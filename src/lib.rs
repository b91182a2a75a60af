//! Client library for the TheDex payment gateway: signed request
//! construction, response model selection and a time-boxed cache for the
//! slow-changing reference endpoints.

pub mod models;
pub mod signer;
pub mod errors;
pub mod canonical;
mod json;
pub mod cache;
pub mod response;
pub mod client;

pub use client::TheDex;
