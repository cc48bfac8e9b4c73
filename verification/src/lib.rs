//! A heuristic CSRF (cross-site request forgery) analyzer: given a captured
//! HTTP request (and optionally its paired response), it decides whether the
//! request looks exploitable by session riding, by combining independent
//! detectors over the canonical request model.

pub mod csp;
pub mod csrf;
pub mod error;
pub mod exploit;
pub mod http;
pub mod origin;
pub mod samesite;
pub mod session;
pub mod shared_kernel;
pub mod text;
pub mod token;
