//! A persistent, namespaced key-value configuration store.
//!
//! The store keeps a two-level mapping (namespace → property → value) in
//! memory and describes, after every mutation, how the backing file is to be
//! replaced. Reading and writing the file is left to the caller; everything
//! that decides what the tree holds and what goes to disk is verified here.

pub mod assoc;
pub mod model;
pub mod tree;
pub mod json;
pub mod persist;
pub mod store;

pub use crate::persist::{SaveError, SavePlan, SaveState, SaveStep};
pub use crate::store::{ConfigStore, LoadError};
pub use crate::tree::{ConfigNamespace, ConfigTree};
