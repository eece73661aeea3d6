//! Turns a sampled implicit scalar field into geometry at its zero level:
//! a grid sampler driven by an evaluator closure, the exact map from grid
//! offsets to domain coordinates, and marching squares and marching cubes
//! over the signs of the sampled values.

pub mod coordinate;
pub mod cube_table;
pub mod cubes;
pub mod grid;
pub mod sampler;
pub mod squares;
