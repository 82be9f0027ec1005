//! Resolves short repository references and plans the download and unpacking
//! of a repository snapshot, without any version-control operation.

pub mod archive;
pub mod destination;
pub mod grammar;
pub mod pattern;
pub mod pipeline;
pub mod reference;
pub mod text;
