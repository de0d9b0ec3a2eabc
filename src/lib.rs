//! Leaderboard and statistics core for a rhythm-game community: the entity
//! model, a composable filter algebra rendered to SQL predicates and
//! descriptions, the classification of store outcomes, a fixed-point
//! skill-rating model, and the orderings and pages built on them.
//!
//! Ratings and score spreads are held in thousandths of a point, so that
//! every computation is exact and reproducible.

pub mod entities;
pub mod text;
pub mod error;
pub mod filters;
pub mod gateway;
pub mod rating;
pub mod input;
pub mod choices;
pub mod display;
pub mod ranking;
pub mod paging;
