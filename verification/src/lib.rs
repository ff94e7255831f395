//! The decisions of a backup conversion pipeline: which resources it needs and
//! where they are cached, how a download proceeds, which paths a run may use,
//! in what order a conversion checks its prerequisites, and what ends up in the
//! archive it writes.

pub mod archive;
pub mod convert;
pub mod download;
pub mod error;
pub mod busy;
pub mod log;
pub mod package;
pub mod resource;
pub mod selection;
pub mod text;
