//! Models: observable views that follow what changes underneath.

pub mod devices;
pub mod directory;
