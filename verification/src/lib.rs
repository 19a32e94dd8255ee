//! Identifies a video file by a content fingerprint, decides which subtitle of
//! a catalog answer to take, and prepares every request and file name that is
//! needed to fetch it. The crate performs no input or output of its own: the
//! caller reads the file, sends the requests and shows the dialog.

pub mod catalog;
pub mod config;
pub mod dialog;
pub mod error;
pub mod fetch;
pub mod fingerprint;
pub mod fingerprint_laws;
pub mod http;
pub mod json;
pub mod movie;
pub mod paths;
pub mod pipeline;
pub mod resolver;
pub mod text;

pub use catalog::{download_link, login, search_for_subtitle_id_key, Url};
pub use error::OsdError;
pub use fetch::download_save_file;
pub use movie::Movie;
