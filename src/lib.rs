//! Network health diagnostics: the rules that turn probe measurements into
//! issues, recommendations and a verdict, and the bookkeeping of one run.
pub mod text;
pub mod types;
pub mod issues;
pub mod analysis;
pub mod scheduler;
pub mod target;
pub mod stability;
pub mod scan;
pub mod dns;
pub mod routing;
pub mod render;
