//! Core engine of a rhythm-synchronized bullet-hell game: a fixed-point
//! timeline scheduler, an obstacle system with staged per-frame effects, and
//! the collision geometry the obstacles rely on.

pub mod accum;
pub mod bomb;
pub mod color;
pub mod events;
pub mod fx;
pub mod generators;
pub mod geom;
pub mod gol;
pub mod lasers;
pub mod levels_meta;
pub mod noise;
pub mod obstacles;
pub mod pellet;
pub mod periodic;
pub mod player;
pub mod rects;
pub mod rng;
pub mod session;
pub mod smoke;
pub mod spawner;
pub mod utils;
pub mod vec2;
