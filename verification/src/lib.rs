//! A scene-graph node that owns a set of animations, advances them once per
//! frame and, when asked to, writes the poses they produce onto the nodes
//! they target.
//!
//! Time is counted in whole ticks and lengths in whole units, so that every
//! step has one exact result. Nodes are named by handle: a place in the
//! graph's storage together with a generation, which a removed node's
//! handle no longer matches.
//!
//! The modules, leaves first: [`math`] and [`pool`] hold the small value
//! types, [`variable`] the slot that tells edits from playback, [`curve`]
//! and [`animation`] the curves, tracks and clocks, [`base`], [`node`] and
//! [`graph`] the scene, [`container`] the step that runs a set of
//! animations, and [`player`] the node that ties them together.

pub mod animation;
pub mod base;
pub mod container;
pub mod curve;
pub mod graph;
pub mod math;
pub mod node;
pub mod player;
pub mod pool;
pub mod variable;
