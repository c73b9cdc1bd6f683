//! Packaging and publishing of a function to a remote control plane.
//!
//! The crate holds the decisions of the deployment pipeline: what a build
//! result is worth, which files of a public directory become assets, how a
//! remote procedure call is framed and its answer unwrapped, and in which
//! order the uploads and the two remote calls follow each other. Running a
//! program, touching the file system and talking to the network are left to
//! the caller, who feeds the outcomes back in as plain values.

pub mod limits;
pub mod text;
pub mod error;
pub mod assets;
pub mod paths;
pub mod collect;
pub mod bundle;
pub mod trpc;
pub mod deployments;
pub mod console;
