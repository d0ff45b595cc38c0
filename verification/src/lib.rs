//! Looking a word up in a dictionary service: the rules of the program,
//! apart from the disk and the network.
//!
//! A run begins in [`command`], which decides from the arguments and the
//! settings ([`settings`]) whether caching is switched, a word is looked up,
//! or the run ends with an error of usage. A lookup is led by the
//! [`resolver`]: it tells the caller what to read, to ask or to write, is
//! told what came of it, and ends with the answer or with the reason why
//! there is none. It asks the service at the address that [`address`] gives
//! for the word, and keeps answers at the place that [`cache`] gives for it.
//! [`json`] reads the bytes of an answer into a [`document`], and
//! [`presenter`] turns a document into the lines that are shown.

pub mod address;
pub mod cache;
pub mod command;
pub mod document;
pub mod json;
pub mod presenter;
pub mod resolver;
pub mod settings;
