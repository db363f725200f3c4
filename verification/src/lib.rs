//! A build worker's decision core: request classification, artifact
//! discovery over a directory listing, and response construction for a
//! service that compiles one named target from an uploaded source archive.

mod artifact;
mod manifest;
mod pipeline;
mod reply;
mod text;

pub use artifact::find_rlib;
pub use artifact::first_rlib_at;
pub use artifact::first_rlib_index;
pub use artifact::is_matching_rlib;
pub use artifact::lemma_first_rlib_index;
pub use artifact::lemma_first_rlib_unique;
pub use artifact::lib_needle;
pub use artifact::name_is_rlib;
pub use artifact::normalized_target;
pub use artifact::opt_label_view;
pub use artifact::rlib_matches;
pub use artifact::rlib_suffix;
pub use artifact::select_artifact;
pub use artifact::select_model;
pub use artifact::some_rlib_in;

pub use manifest::crate_name_of;
pub use manifest::extract_crate_name;
pub use manifest::first_char_at;
pub use manifest::is_name_line;
pub use manifest::lemma_first_char_at;
pub use manifest::lemma_first_char_at_is;
pub use manifest::name_key;
pub use manifest::parsed_name;
pub use manifest::strip_cr;
pub use manifest::unknown_name;

pub use pipeline::label_file_name;
pub use pipeline::lemma_executable_build_delivered;
pub use pipeline::lemma_failed_build_never_delivers;
pub use pipeline::lemma_library_build_delivered;
pub use pipeline::lemma_library_takes_priority;
pub use pipeline::lemma_missing_artifact_diagnosed;
pub use pipeline::lemma_pipeline_idempotent;
pub use pipeline::lemma_pipeline_reply_well_formed;
pub use pipeline::pipeline_model;
pub use pipeline::OutcomeModel;

pub use reply::failure_model;
pub use reply::failure_reply;
pub use reply::lemma_build_rejection_carries_diagnostics;
pub use reply::lemma_failure_reply_well_formed;
pub use reply::lemma_success_reply_well_formed;
pub use reply::lemma_unpack_rejection_diagnosed;
pub use reply::lossy_of;
pub use reply::reply_well_formed;
pub use reply::success_model;
pub use reply::success_reply;
pub use reply::ArtifactLabel;
pub use reply::BodyModel;
pub use reply::EventModel;
pub use reply::LabelModel;
pub use reply::Reply;
pub use reply::ReplyBody;
pub use reply::ReplyModel;
pub use reply::StageEvent;
pub use reply::STATUS_BAD_REQUEST;
pub use reply::STATUS_OK;
pub use reply::STATUS_SERVER_ERROR;

pub use text::blank_pred;
pub use text::contains_seq;
pub use text::drop_end_matching;
pub use text::drop_start_matching;
pub use text::ends_with_seq;
pub use text::is_blank;
pub use text::lemma_drop_end_matching;
pub use text::lemma_drop_start_matching;
pub use text::occurs_at;
pub use text::quote_pred;
pub use text::trimmed;
pub use text::unquoted;
