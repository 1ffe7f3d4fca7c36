//! Persistence rules for a note-taking application.
//!
//! Every note lives in a file of its own, `<id>.json`, inside one flat
//! directory. This crate holds the rules of that store and none of its
//! input or output: it names the files, tells note files from everything
//! else in the directory, and decides, one request at a time, what has to
//! be asked of the file system to save, list or delete notes. The caller
//! performs each request and hands the answer back.
//!
//! - [`names`]: the name of the notes directory, of a note's file, and the
//!   test for the `json` extension.
//! - [`protocol`]: the requests, the responses, and what an operation is.
//! - [`save`], [`load`], [`delete`]: the three operations.
//! - [`model`]: an ideal notes directory, and the operations run against it.
//! - [`guarantees`]: what the operations do to such a directory.

pub mod names;
pub mod protocol;
pub mod save;
pub mod load;
pub mod delete;
pub mod model;
pub mod guarantees;
