//! Batch media-library normalizer: infers artist/album/title metadata from
//! file and directory names, plans the tag rewrite for each audio file,
//! derives the canonical `artist/album` layout for extracted archives, and
//! drives the one-shot repair-and-retry policy for failing tag operations.
//!
//! Everything here is pure logic over paths and names; the filesystem, the
//! tag container, the archive reader and the re-encoding tool are external
//! collaborators that a thin driver wires in.

pub mod archive;
pub mod conf;
pub mod defaults;
pub mod paths;
pub mod tags;
pub mod repair;
pub mod route;
pub mod sanitize;
pub mod text;
pub mod title;
