//! Backend devices: the URIs that name them and the rules of their
//! lifecycle.

pub mod uri;
pub mod dev;
