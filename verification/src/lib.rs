//! Status-code handling for a thin wrapper around the DirectWrite
//! font-family interface.
//!
//! The wrapper itself is platform glue: every operation forwards one COM
//! call, translates the returned status value into a `Result`, and wraps
//! the returned handle. The translation is the one computation involved,
//! and it lives here, specified and verified; the unsafe calls stay with
//! the platform-specific glue.

pub mod hresult;
