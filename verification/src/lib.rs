//! A minimal spatial topology: a rectangular grid ("arena") of addressable
//! cells, each supporting directional neighbor queries and uniform random
//! sampling. Intended as the substrate for a maze- or graph-generation
//! algorithm built on top of it.

pub mod arena;
pub mod cell;
pub mod direction;
