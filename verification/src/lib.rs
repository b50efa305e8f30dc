//! Verified core of an S3-style copy/sync tool.
//!
//! The crate holds the logic that maps local paths to object-store keys and
//! back, filters keys through include/exclude glob sets, decides per item
//! whether a copy may overwrite its destination, plans which remote keys a
//! clean pass should remove, walks a remote prefix tree page by page, and
//! resolves credentials from a layered lookup. All store requests and file
//! I/O happen outside this crate; the functions here take their outcomes as
//! plain values and are verified for every such outcome.

pub mod clean;
pub mod cp;
pub mod cred;
pub mod error;
pub mod filter;
pub mod keymap;
pub mod list;
pub mod over;
pub mod sitem;
pub mod spath;
pub mod strutil;
