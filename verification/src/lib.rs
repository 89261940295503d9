//! A path-based request router: an exact-match handler registry behind an
//! ordered, short-circuiting middleware chain, with a tagged extension store
//! that handlers of one router share.

pub mod error;
pub mod route;
pub mod server;
pub mod text;
pub mod version;
