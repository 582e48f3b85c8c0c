//! Copy-on-write clones ("reflinks") of regular files.
//!
//! The library decides; the caller does the system calls. A clone run is a
//! small step machine: it asks for an open with given flags, then for the clone
//! itself, then (only when the clone failed) for the removal of the
//! destination, and finally reports the result. Each answer of the operating
//! system is handed back to the machine, which picks the next step.

mod policy;

pub use policy::{OnExists, OpenFlags, PathOpen, open_effect, unlinked_flags, unlinked_flags_spec};

mod error;

pub use nix::errno::Errno;
pub use error::{ReflinkAtError, cleanup, cleanup_error};

mod steps;

pub use steps::{
    AtPhase, ReflinkAt, ReflinkUnlinked, Step, UnlinkedPhase, at_next, reflink_at_result,
    reflink_unlinked_result, unlinked_next,
};

mod laws;

pub use laws::{
    lemma_create, lemma_create_new_only, lemma_exclusive_create_once, lemma_exists_only,
    lemma_failed_open_touches_nothing, lemma_reflink_at_ends, lemma_unlinked,
};
