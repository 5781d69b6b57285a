//! Platform-specific inhibition backends.
//!
//! [`request`] models the backend built on a shared power-request handle
//! with one flag per lock kind, acquired incrementally with rollback.
//! [`assertion`] models the backend built on a single named
//! sleep-prevention assertion, which is all-or-nothing. [`default`] is the
//! fallback for platforms without a backend; the verified library itself
//! drives no OS calls, so it is the backend selected here.

pub mod assertion;
pub mod default;
pub mod request;

pub use default::Error;
pub use default::InhibitionManager;
pub use default::Lock;
