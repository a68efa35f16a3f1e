//! Document persistence for a desktop note-taking shell.
//!
//! The library resolves the user's documents folder, provisions a fixed
//! application subdirectory underneath it, and writes caller-named files
//! into that directory. All decision logic is verified; the host binary
//! performs the actual filesystem calls and feeds their outcomes back in.

mod errors;
mod model;
mod paths;
mod save;
mod sysinfo;

pub use errors::SaveError;
pub use errors::SaveErrorView;
pub use errors::message_of;
pub use model::dirs_after_provision;
pub use model::files_after_save;
pub use model::files_after_write;
pub use model::lemma_empty_content_save;
pub use model::lemma_failed_save_touches_no_file;
pub use model::lemma_missing_root;
pub use model::lemma_path_collision;
pub use model::lemma_provision_idempotent;
pub use model::lemma_save_overwrite;
pub use model::lemma_save_round_trip;
pub use model::lemma_write_failure;
pub use paths::join_path;
pub use paths::joined;
pub use save::WriteCommand;
pub use save::app_dir_name;
pub use save::app_dir_under;
pub use save::collision_reason;
pub use save::directory_provisioned;
pub use save::outcome_view;
pub use save::prepare_write;
pub use save::provision_decision;
pub use save::provision_model;
pub use save::provision_step;
pub use save::resolve_app_directory;
pub use save::root_view;
pub use save::save_document_outcome;
pub use save::save_outcome_model;
pub use save::step_view;
pub use save::write_completed;
pub use sysinfo::SystemInfo;
