//! Staging and commit logic of a mod manager: the decisions that turn a
//! dropped file into an installed mod, stated and proved over plain values.

pub mod archive;
pub mod classify;
pub mod commit;
pub mod install;
pub mod model;
pub mod paths;
pub mod protocol;
pub mod resolver;
pub mod scanner;
pub mod staging;
pub mod status;
pub mod tempdir;
pub mod text;
pub mod watch;
