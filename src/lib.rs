//! Date-based log rotation: the decisions of a relay that copies a byte
//! stream into dated files, keeps a "current" symlink on the newest one and
//! compresses the files it has superseded.
//!
//! The filesystem, the threads and the input stream stay with the caller;
//! this crate says what to name, when to rotate, which steps a rotation
//! takes and in what order, and what becomes of a superseded file.

mod compress;
mod naming;
mod relay;
mod rotation;
mod stamp;

pub use compress::{
    cleanup_after_write, lemma_empty_file_deleted, lemma_exactly_one_copy, plan_compression,
    plan_for_encoding, Cleanup, CompressPlan,
};
pub use naming::{archive_path, dated_filename, is_archive_path, join_path, stamp_label};
pub use relay::{
    current_path, lemma_day_keeps_every_byte, read_mode, relay_step, watch_now, watch_step,
    Journal, ReadMode, RelayStep, WatchStep, COARSE_POLL_SECS, FINE_POLL_SECS,
};
pub use rotation::{
    lemma_link_names_newest, lemma_same_name_keeps_link, lemma_steps_keep_link_sound,
    plan_rotation, rotation_order, FolderView, LinkState, RotationAction, RotationPlan,
};
pub use stamp::{date_changed, Stamp};
