//! Poster enrichment for a personal media server: the mapping tables, the
//! catalog model, poster selection and the per-item pipeline decisions.

pub mod text;
pub mod catalog;
pub mod badges;
pub mod tmdb;
pub mod pipeline;
pub mod plan;
pub mod cache;
pub mod layout;
