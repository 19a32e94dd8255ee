//! The video file whose subtitle is wanted: where it lies, what it is called
//! and what its fingerprint is.

use crate::error::{InputError, OsdError};
use crate::fingerprint::{fingerprint, fingerprint_of, hex16, render_hex16, WINDOW_BYTES};
use crate::paths::{absolute_path, canonical_title, joined, title_of};
use vstd::prelude::*;

verus! {

/// What was found at the path that the user named.
#[derive(Debug, Clone, Copy, PartialEq, Eq, Structural)]
pub enum PathKind {
    /// Nothing.
    Missing,
    /// A directory.
    Directory,
    /// A regular file.
    File,
    /// Something else.
    Other,
}

/// A video file.
#[derive(Debug, Clone, PartialEq, Eq)]
pub struct Movie {
    /// The absolute path of the file.
    pub path: String,
    /// The title under which the catalog is searched.
    pub title: String,
    /// The fingerprint of the content, in sixteen hexadecimal digits.
    pub hash: String,
}

/// What `Movie::create_hash` returns for a file of `size` bytes from which
/// the windows `head` and `tail` were read: the sixteen digits of the
/// fingerprint, or why there is none.
pub open spec fn hash_outcome(size: u64, head: Seq<u8>, tail: Seq<u8>) -> Result<
    Seq<char>,
    OsdError,
> {
    if size < WINDOW_BYTES {
        Err(OsdError::Input(InputError::TooSmall))
    } else if head.len() != WINDOW_BYTES || tail.len() != WINDOW_BYTES {
        Err(OsdError::Io)
    } else {
        Ok(hex16(fingerprint_of(size as int, head, tail)))
    }
}

/// Why no `Movie` is built, where none is.
pub open spec fn build_failure(kind: PathKind, size: u64, head: Seq<u8>, tail: Seq<u8>) -> Option<
    OsdError,
> {
    match kind {
        PathKind::Missing => Some(OsdError::Input(InputError::NotFound)),
        PathKind::Other => Some(OsdError::Input(InputError::NotFound)),
        PathKind::Directory => Some(OsdError::Input(InputError::IsDirectory)),
        PathKind::File => match hash_outcome(size, head, tail) {
            Ok(_) => None,
            Err(e) => Some(e),
        },
    }
}

impl Movie {
    /// A video with the given path, title and fingerprint.
    pub fn new(path: String, title: String, hash: String) -> (movie: Movie)
        ensures
            movie.path == path,
            movie.title == title,
            movie.hash == hash,
    {
        Movie { path, title, hash }
    }

    /// The video at `path`, a path that the user gave and that is taken from
    /// the directory `base` where it does not start at the root. `kind` says
    /// what was found there, `size` is the length of the file, and `head` and
    /// `tail` are its first and its last 64 KiB.
    ///
    /// Only a regular file of at least 64 KiB makes a video. Its title is its
    /// file name without the last extension.
    pub fn build(
        path: &str,
        base: &str,
        kind: PathKind,
        size: u64,
        head: &[u8],
        tail: &[u8],
    ) -> (r: Result<Movie, OsdError>)
        ensures
            match build_failure(kind, size, head@, tail@) {
                Some(e) => r == Err::<Movie, OsdError>(e),
                None => r is Ok && r->Ok_0.path@ == joined(base@, path@) && r->Ok_0.title@
                    == title_of(joined(base@, path@)) && Ok::<Seq<char>, OsdError>(r->Ok_0.hash@)
                    == hash_outcome(size, head@, tail@),
            },
    {
        match kind {
            PathKind::Missing => {
                return Err(OsdError::Input(InputError::NotFound));
            },
            PathKind::Other => {
                return Err(OsdError::Input(InputError::NotFound));
            },
            PathKind::Directory => {
                return Err(OsdError::Input(InputError::IsDirectory));
            },
            PathKind::File => {},
        }
        let whole = absolute_path(base, path);
        let title = canonical_title(whole.as_str());
        match Movie::create_hash(size, head, tail) {
            Ok(hash) => Ok(Movie::new(whole, title, hash)),
            Err(e) => Err(e),
        }
    }

    /// The fingerprint, as text, of a file of `size` bytes whose first 64 KiB
    /// are `head` and whose last 64 KiB are `tail`.
    ///
    /// A file shorter than one window is refused as too small, whatever was
    /// read from it. A window of another length than 64 KiB is a failed read.
    pub fn create_hash(size: u64, head: &[u8], tail: &[u8]) -> (r: Result<String, OsdError>)
        ensures
            match hash_outcome(size, head@, tail@) {
                Ok(digits) => r is Ok && r->Ok_0@ == digits,
                Err(e) => r == Err::<String, OsdError>(e),
            },
    {
        if size < WINDOW_BYTES as u64 {
            return Err(OsdError::Input(InputError::TooSmall));
        }
        if head.len() != WINDOW_BYTES || tail.len() != WINDOW_BYTES {
            return Err(OsdError::Io);
        }
        Ok(render_hex16(fingerprint(size, head, tail)))
    }
}

} // verus!
