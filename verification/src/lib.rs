//! The store behind `fdahm`: a directory of videos awaiting publication.
//!
//! A store is a root directory. It holds one `fdahm.toml` with the channel's
//! settings, and one directory per video with a `video.toml` and a thumbnail,
//! `thumbnail.png` or `thumbnail.jpg`.
//!
//! This crate decides everything about such a store but touches no file. For
//! each operation the caller asks the store where to look
//! ([`fdahm_storage::FdahmDirectory::video_path`] and its like), looks, and
//! hands over what it saw: the text of a file or the system's refusal,
//! whether a file is there, what a walk through the root met. The store
//! answers with the value or with the [`fdahm_result::FdahmError`] that the
//! operation comes to. Marking a video as published takes two steps, since the
//! store has to see the document before it can say what is to be written.
//!
//! Documents are read by `toml` and changed by `toml_edit`. What these make
//! of a text is named in contracts ([`document::toml_parse`],
//! [`rewrite::toml_with_flag`]) and not defined: everything else is proved
//! about the names.
//!
//! - [`store_path`]: where the files of a store lie.
//! - [`fdahm_result`]: what can go wrong.
//! - [`document`]: the keys of a document and what they must hold.
//! - [`rewrite`]: setting a key of a document.
//! - [`fdahm_storage`]: the store and its operations.
//! - [`commands`]: what the commands around a store decide.
//! - [`laws`]: what holds of every store.

pub mod store_path;
pub mod fdahm_result;
pub mod document;
pub mod rewrite;
pub mod fdahm_storage;
pub mod commands;
pub mod laws;
