//! A fishing-catch catalog served over HTTP: the catch model, its JSON wire
//! format, request routing and the mapping of repository outcomes to replies.

pub mod text;
pub mod catch;
pub mod repository;
pub mod service;
pub mod laws;
