//! Build-time logic for generating bindings to the DFTB+ library: the model of
//! compiler flags, the conversion of a package probe's answer into build
//! metadata, the request handed to the binding generator, and the order of the
//! build's steps.

pub mod bindings;
pub mod flags;
pub mod orchestrator;
pub mod outcome;
pub mod probe;
pub mod reruns;
