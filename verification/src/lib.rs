//! A minimal configuration-loading library.
//!
//! The loading operations are generic over caller-supplied deserialize,
//! serialize and default-producing functions, so the library depends on no
//! particular wire format. The filesystem itself is reached only by the
//! embedding application: each operation takes the outcome of the filesystem
//! steps (an existence probe, a whole-file read) as a plain value and returns
//! either the loaded configuration or the write it asks the application to
//! perform. The contracts pin the result down exactly, relative to what the
//! supplied functions may return.

mod error;
mod laws;
mod loader;

pub use error::ConfigurationError;
pub use laws::inverts;
pub use laws::lemma_idempotent;
pub use laws::lemma_io_error_propagation;
pub use laws::lemma_malformed_content;
pub use laws::lemma_no_write_on_existing_file;
pub use laws::lemma_round_trip;
pub use loader::LoadOutcome;
pub use loader::deserialized;
pub use loader::finish_write_default;
pub use loader::is_default_result;
pub use loader::is_load_outcome;
pub use loader::is_load_result;
pub use loader::is_written_default;
pub use loader::load_from_path;
pub use loader::load_or_default;
pub use loader::load_or_write_default;
