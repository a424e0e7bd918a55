//! Batch conversion of image files between raster formats: classification of
//! directory entries by name, naming of converted files, in-memory re-encoding
//! and the batch-pause state machine that drives a run.

mod text;
mod classify;
mod naming;
mod transfer;
mod convert;

pub use text::{
    find_char, same_chars, tail_matches_ignoring_ascii_case, has_char, is_first, first_index_of,
    ascii_fold_eq, matches_ignoring_ascii_case,
};
pub use classify::{
    Strategy, Classification, classify, extension_of, stem_of, strategy_for, classification_of,
    lemma_no_dot_is_unclassifiable, lemma_colon_is_ignored, lemma_extension_decides,
};
pub use naming::{
    TargetFormat, target_extension, output_name_of, joined, output_name, join_path,
    lemma_output_name_depends_on_stem,
};
pub use transfer::{
    EntryAction, Answer, action_for, Transfer, TransferView, lemma_pause_schedule, lemma_routing,
    entry_update, outcome_update, entry_step, run_over, supported_count, lemma_run_schedule,
};
pub use convert::{ConversionError, decodes, encodes, encoded, convert_native};
