//! Run a command, capture its colored output, and archive it as a
//! self-contained HTML document under a content-addressed path.
//!
//! The modules here hold the pure pipeline: theme selection, duration
//! formatting, output accumulation, output-path derivation, and document
//! assembly. Process spawning and file I/O live outside the library.

pub mod capture;
pub mod decimal;
pub mod document;
pub mod duration;
pub mod outpath;
pub mod theme;
