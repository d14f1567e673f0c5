//! Background update checks for command-line tools.
//!
//! A [`Notifier`] is configured with the current version, the package name,
//! and a version source (crates.io or GitHub Releases). The host program
//! drives one check per run: it gathers the cache-marker age, hands it to the
//! verified decision logic, performs the HTTP fetch the logic asks for, and
//! dispatches the desktop notification the logic produces.

mod errors;
mod json;
mod laws;
mod notifier;
mod split;

pub use laws::lemma_crates_io_version_verbatim;
pub use laws::lemma_first_run_always_checks;
pub use laws::lemma_guard_interval;
pub use laws::lemma_github_tag_normalized;
pub use laws::lemma_github_url_segments;
pub use laws::lemma_marker_refresh_policy;
pub use laws::lemma_version_difference_notifies;

pub use notifier::CheckOutcome;
pub use notifier::DEFAULT_INTERVAL_SECS;
pub use notifier::FlowStep;
pub use notifier::Notifier;
pub use notifier::Source;
pub use notifier::check_cratesIO;
pub use notifier::check_github;
pub use notifier::spec_crates_api_url;
pub use notifier::spec_extracted;
pub use notifier::spec_fetch_error_message;
pub use notifier::spec_fetch_views;
pub use notifier::spec_guard_error_message;
pub use notifier::spec_guard_passes;
pub use notifier::spec_github_api_url;
pub use notifier::spec_refreshes_marker;
pub use notifier::spec_should_notify;
pub use notifier::spec_update_message;
pub use notifier::spec_write_error_message;
pub use notifier::strip_v;
pub use errors::NotifyError;
pub use errors::spec_message;
pub use json::json_nested_str_field;
pub use json::json_str_field;
pub use split::first_slash;
pub use split::split_slash;
pub use split::split_slash_exec;
