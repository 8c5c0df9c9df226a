//! Safe, verified session and lifecycle wrapper around the LAME MP3 encoder.
//!
//! The native codec is an opaque external collaborator; this crate owns the
//! encoder lifecycle: a configuration stage that validates each parameter
//! eagerly, a one-shot finalize step that freezes the settings into an
//! exclusively owned encoding session, a scoped tag stage that must complete
//! before encoding starts, and per-call encode and flush operations with
//! buffer and channel invariants.
//!
//! Two limits of the codec boundary are worth knowing: constant and
//! average bitrate accept its documented kbps values, which omit the 56
//! and 144 kbps rates MP3 also defines; and of the tag fields, track
//! number, genre and album artist are validated and recorded but have no
//! native tag-block field, so they never reach the output stream.

use vstd::prelude::*;

pub mod encoder;
pub mod error;
pub mod genres;
pub mod id3;
mod native;

pub use encoder::{required_buffer_size, EncoderBuilder, LameEncoder, Quality, VbrMode};
pub use error::LameError;
pub use id3::Id3Tag;

verus! {

/// Version string of the underlying LAME library, for example "3.100".
pub fn get_lame_version() -> (r: String)
    ensures
        r@.len() > 0,
{
    native::version_string()
}

/// Home page of the LAME project, as the library itself reports it.
pub fn get_lame_url() -> (r: String)
    ensures
        r@ == "http://lame.sf.net"@,
{
    "http://lame.sf.net".to_owned()
}

} // verus!
