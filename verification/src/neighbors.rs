//! Nearest neighbor search algorithms.

pub mod brute_force;
pub mod cagra;
pub mod dtype;
pub mod filters;
pub mod ivf_flat;
pub mod ivf_pq;
pub mod vamana;
