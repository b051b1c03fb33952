//! Scaffolding of native C++ projects: a declarative project description is
//! turned into a build-target graph, rendered as CMake listfiles, assembled
//! into an in-memory source tree, and planned for writing onto storage.
pub mod cli;
pub mod cmake;
pub mod loader;
pub mod project;
pub mod tree;
