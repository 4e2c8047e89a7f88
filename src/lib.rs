//! A small convolutional classifier for single-channel images: its
//! configuration, the construction of its layers on a device, and the forward
//! pass from an image batch to per-class scores, with the shapes proved.
pub mod config;
pub mod layers;
pub mod model;
