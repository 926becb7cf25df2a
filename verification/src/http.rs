//! The feeder's web pages.

pub mod service;
