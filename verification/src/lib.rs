//! A pull-driven streaming adapter that feeds bytes through an incremental
//! codec step while respecting caller-supplied buffer capacities.
//!
//! The crate is built from four pieces: a bounded cursor over a byte region
//! (`buffer`), the three-operation contract every codec step must satisfy
//! (`codec`), one concrete codec step backed by a DEFLATE compression engine
//! (`flate`), and the four-phase scheduler that drives a codec step against a
//! possibly-blocking upstream source (`encoder`).

pub mod buffer;
pub mod codec;
pub mod encoder;
pub mod flate;
