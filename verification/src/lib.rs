//! Safe, verified core of a wrapper around the Wooting analog and RGB
//! keyboard SDKs: the key identity table (names, matrix addresses, scan-index
//! decoding), the analog facade's validation and buffer decoding, the RGB
//! staging buffer, and the disconnect-callback slot.
//!
//! Device communication itself happens over a native boundary that this
//! library does not touch; callers hand raw readings in and take plain values
//! and staged buffers back.

mod error;
mod keys;

pub mod analog;
pub mod callback;
pub mod rgb;

pub use error::WootingError;
pub use keys::FromScanIndex;
pub use keys::IntoMatrixRowColumn;
pub use keys::Key;
