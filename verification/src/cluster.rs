//! Clustering algorithms.

pub mod kmeans;
