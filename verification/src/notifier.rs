//! The Notifier and the decision logic of one update check.
//!
//! The host program performs the outside work — reading the cache marker's
//! age, issuing the HTTP GET, showing the desktop notification, touching the
//! marker — and hands each observation to the functions here, which decide
//! every step: whether the guard passes, which URL to fetch, what to notify,
//! and whether to refresh the marker.

use vstd::prelude::*;

use crate::errors::NotifyError;
use crate::errors::spec_message;
use crate::json::json_nested_str_field;
use crate::json::json_str_field;
use crate::json::lookup_nested_str_field;
use crate::json::lookup_str_field;
use crate::split::split_slash;
use crate::split::split_slash_exec;

verus! {

/// Source to check for updates.
#[derive(Debug, Clone, Copy, PartialEq, Eq)]
pub enum Source {
    /// Check for updates on crates.io.
    ///
    /// (Only works if the package is published on crates.io.)
    CratesIO,
    /// Check for updates on GitHub.
    ///
    /// (Only works if the package publishes GitHub releases.)
    GitHub,
}

/// What the host must do next after the guard has been consulted.
#[derive(Debug, PartialEq, Eq)]
pub enum FlowStep {
    /// The interval has not elapsed: do nothing this run.
    Skip,
    /// Show this diagnostic to the user and end the run.
    Notify(String),
    /// Issue an HTTP GET to this URL and hand the body to `check_version`.
    Fetch(String),
}

/// What the host must do once the fetch has been attempted.
#[derive(Debug, PartialEq, Eq)]
pub struct CheckOutcome {
    /// The message to show the user, if any.
    pub notification: Option<String>,
    /// Whether to refresh the cache marker's timestamp now.
    pub write_marker: bool,
}

/// The default guard interval: 24 hours, in seconds.
pub const DEFAULT_INTERVAL_SECS: u64 = 86400;

/// Whether the guard lets a check proceed: always on a first run (no marker),
/// otherwise only once the marker is older than the interval.
pub open spec fn spec_guard_passes(marker_elapsed_nanos: Option<u128>, interval_secs: u64) -> bool {
    match marker_elapsed_nanos {
        None => true,
        Some(e) => e > interval_secs * 1_000_000_000,
    }
}

/// Whether a successfully fetched version calls for a notification: plain
/// string inequality, with no semantic-version ordering.
pub open spec fn spec_should_notify(current: Seq<char>, latest: Seq<char>) -> bool {
    latest != current
}

/// A version tag with its leading `v` stripped, if it has one.
pub open spec fn strip_v(tag: Seq<char>) -> Seq<char> {
    if tag.len() > 0 && tag[0] == 'v' {
        tag.subrange(1, tag.len() as int)
    } else {
        tag
    }
}

/// The version a response body yields: the `crate.max_stable_version` field
/// verbatim for crates.io, the `tag_name` field with a leading `v` stripped
/// for GitHub; `None` when the body is malformed or the field is missing.
pub open spec fn spec_extracted(source: Source, body: Seq<char>) -> Option<Seq<char>> {
    match source {
        Source::CratesIO => json_nested_str_field(body, "crate"@, "max_stable_version"@),
        Source::GitHub => match json_str_field(body, "tag_name"@) {
            Some(tag) => Some(strip_v(tag)),
            None => None,
        },
    }
}

/// A fetch result with the body taken as its view.
pub open spec fn spec_fetch_views(fetch: Result<String, NotifyError>) -> Result<
    Seq<char>,
    NotifyError,
> {
    match fetch {
        Ok(body) => Ok(body@),
        Err(e) => Err(e),
    }
}

/// Whether a fetch result refreshes the cache marker: only a body that
/// yields a version does; a failed fetch or an unreadable body leaves the
/// marker untouched so that the next run retries at once.
pub open spec fn spec_refreshes_marker(source: Source, fetch: Result<Seq<char>, NotifyError>) -> bool {
    match fetch {
        Ok(body) => spec_extracted(source, body) is Some,
        Err(_) => false,
    }
}

/// The crates.io API URL for a package name.
pub open spec fn spec_crates_api_url(name: Seq<char>) -> Seq<char> {
    "https://crates.io/api/v1/crates/"@ + name
}

/// The GitHub latest-release API URL for a repository.
pub open spec fn spec_github_api_url(owner: Seq<char>, repo: Seq<char>) -> Seq<char> {
    "https://api.github.com/repos/"@ + owner + "/"@ + repo + "/releases/latest"@
}

/// The diagnostic shown when the guard itself could not be consulted.
pub open spec fn spec_guard_error_message(detail: Seq<char>) -> Seq<char> {
    "Error: should_check_update() Failed: \n"@ + detail
}

/// The diagnostic shown when the fetch or its decoding failed.
pub open spec fn spec_fetch_error_message(detail: Seq<char>) -> Seq<char> {
    "Error: get_latest_version() failed: \n"@ + detail
}

/// The diagnostic shown when the marker could not be rewritten.
pub open spec fn spec_write_error_message(detail: Seq<char>) -> Seq<char> {
    "Error: write_last_checked() failed: \n"@ + detail
}

/// The message announcing a new release, with a releases link when a
/// repository URL is configured.
pub open spec fn spec_update_message(
    name: Seq<char>,
    current: Seq<char>,
    latest: Seq<char>,
    repo_url: Seq<char>,
) -> Seq<char> {
    let link = if repo_url.len() == 0 {
        Seq::<char>::empty()
    } else {
        "\n"@ + repo_url + "/releases/tag/"@ + latest
    };
    "A new release of "@ + name + " is available: \nv"@ + current + " -> v"@ + latest + link
}

/// Checks for updates of a package and decides what to tell the user.
///
/// Construct one with `Notifier::new(source, version, name, repo_url)`; the
/// host then drives it on a background thread: consult the marker, call
/// `run`, perform the step it returns, and on a fetch hand the body to
/// `check_version`.
pub struct Notifier {
    /// The currently running version.
    pub version: String,
    /// The package name; also the notification title and the marker name.
    pub name: String,
    /// The repository URL, `https://github.com/{owner}/{repo}`; empty when
    /// only crates.io is used.
    pub repo_url: String,
    /// Where the latest published version is looked up.
    pub source: Source,
    /// The guard interval in whole seconds.
    pub interval_secs: u64,
}

impl Notifier {
    /// A notifier for the given package, with the default 24-hour interval.
    pub fn new(source: Source, version: &str, name: &str, repo_url: &str) -> (r: Notifier)
        ensures
            r.source == source,
            r.version@ == version@,
            r.name@ == name@,
            r.repo_url@ == repo_url@,
            r.interval_secs == DEFAULT_INTERVAL_SECS,
    {
        Notifier {
            version: version.to_owned(),
            name: name.to_owned(),
            repo_url: repo_url.to_owned(),
            source,
            interval_secs: DEFAULT_INTERVAL_SECS,
        }
    }

    /// Change the interval between checks for updates, in whole seconds
    /// (default is 24 hours).
    pub fn interval(self, interval_secs: u64) -> (r: Notifier)
        ensures
            r.version@ == self.version@,
            r.name@ == self.name@,
            r.repo_url@ == self.repo_url@,
            r.source == self.source,
            r.interval_secs == interval_secs,
    {
        Notifier { interval_secs, ..self }
    }

    /// Whether enough time has passed since the last check: `None` means no
    /// marker file exists yet, `Some(n)` that it was last touched `n`
    /// nanoseconds ago.
    pub fn should_check_update(&self, marker_elapsed_nanos: Option<u128>) -> (r: bool)
        ensures
            r == spec_guard_passes(marker_elapsed_nanos, self.interval_secs),
    {
        match marker_elapsed_nanos {
            None => true,
            Some(e) => e > (self.interval_secs as u128) * 1_000_000_000,
        }
    }

    /// The API URL the latest version is fetched from. For GitHub the
    /// repository URL must split on `/` into at least five segments — owner
    /// and repository at indices 3 and 4 — else the URL is rejected and no
    /// fetch may be attempted.
    pub fn get_api_link(&self) -> (r: Result<String, NotifyError>)
        ensures
            self.source == Source::CratesIO ==> (r matches Ok(u) && u@ == spec_crates_api_url(
                self.name@,
            )),
            self.source == Source::GitHub && split_slash(self.repo_url@).len() >= 5 ==> (
            r matches Ok(u) && u@ == spec_github_api_url(
                split_slash(self.repo_url@)[3],
                split_slash(self.repo_url@)[4],
            )),
            self.source == Source::GitHub && split_slash(self.repo_url@).len() < 5 ==> r == Result::<
                String,
                NotifyError,
            >::Err(NotifyError::InvalidRepoUrl),
    {
        match self.source {
            Source::CratesIO => {
                let url = String::from_str("https://crates.io/api/v1/crates/").concat(
                    self.name.as_str(),
                );
                Ok(url)
            },
            Source::GitHub => {
                let segs = split_slash_exec(self.repo_url.as_str());
                if segs.len() < 5 {
                    Err(NotifyError::InvalidRepoUrl)
                } else {
                    let mut url = String::from_str("https://api.github.com/repos/");
                    url.append(segs[3].as_str());
                    url.append("/");
                    url.append(segs[4].as_str());
                    url.append("/releases/latest");
                    proof {
                        assert(url@ =~= spec_github_api_url(
                            split_slash(self.repo_url@)[3],
                            split_slash(self.repo_url@)[4],
                        ));
                    }
                    Ok(url)
                }
            },
        }
    }

    /// The version a fetched body yields, per the configured source:
    /// `crate.max_stable_version` verbatim for crates.io, `tag_name` with a
    /// leading `v` stripped for GitHub.
    pub fn extract_version(&self, body: &str) -> (r: Result<String, NotifyError>)
        ensures
            (match spec_extracted(self.source, body@) {
                Some(v) => r matches Ok(s) && s@ == v,
                None => r matches Err(e) && e matches NotifyError::Parse(m) && m@
                    == "could not extract version from response body"@,
            }),
    {
        match self.source {
            Source::CratesIO => match lookup_nested_str_field(body, "crate", "max_stable_version") {
                Some(v) => Ok(v),
                None => Err(
                    NotifyError::Parse(
                        String::from_str("could not extract version from response body"),
                    ),
                ),
            },
            Source::GitHub => match lookup_str_field(body, "tag_name") {
                Some(tag) => Ok(strip_v_exec(&tag)),
                None => Err(
                    NotifyError::Parse(
                        String::from_str("could not extract version from response body"),
                    ),
                ),
            },
        }
    }

    /// The message announcing `latest` as a new release of this package.
    pub fn update_message(&self, latest: &String) -> (r: String)
        ensures
            r@ == spec_update_message(self.name@, self.version@, latest@, self.repo_url@),
    {
        let mut msg = String::from_str("A new release of ");
        msg.append(self.name.as_str());
        msg.append(" is available: \nv");
        msg.append(self.version.as_str());
        msg.append(" -> v");
        msg.append(latest.as_str());
        if !self.repo_url.as_str().is_empty() {
            msg.append("\n");
            msg.append(self.repo_url.as_str());
            msg.append("/releases/tag/");
            msg.append(latest.as_str());
        }
        proof {
            assert(msg@ =~= spec_update_message(
                self.name@,
                self.version@,
                latest@,
                self.repo_url@,
            ));
        }
        msg
    }

    /// Decides the run from the guard observation: a guard error is reported,
    /// a closed guard skips the run, an open guard asks the host to fetch —
    /// unless the repository URL is rejected, which is reported without any
    /// network call.
    pub fn run(&self, guard: Result<Option<u128>, NotifyError>) -> (r: FlowStep)
        ensures
            (match guard {
                Err(e) => r matches FlowStep::Notify(m) && m@ == spec_guard_error_message(
                    spec_message(e),
                ),
                Ok(elapsed) => if !spec_guard_passes(elapsed, self.interval_secs) {
                    r == FlowStep::Skip
                } else {
                    match self.source {
                        Source::CratesIO => r matches FlowStep::Fetch(u) && u@
                            == spec_crates_api_url(self.name@),
                        Source::GitHub => if split_slash(self.repo_url@).len() >= 5 {
                            r matches FlowStep::Fetch(u) && u@ == spec_github_api_url(
                                split_slash(self.repo_url@)[3],
                                split_slash(self.repo_url@)[4],
                            )
                        } else {
                            r matches FlowStep::Notify(m) && m@ == spec_fetch_error_message(
                                spec_message(NotifyError::InvalidRepoUrl),
                            )
                        },
                    }
                },
            }),
    {
        match guard {
            Err(e) => FlowStep::Notify(self.guard_error_message(&e)),
            Ok(elapsed) => {
                if !self.should_check_update(elapsed) {
                    FlowStep::Skip
                } else {
                    match self.get_api_link() {
                        Ok(url) => FlowStep::Fetch(url),
                        Err(e) => FlowStep::Notify(self.fetch_error_message(&e)),
                    }
                }
            },
        }
    }

    /// Decides the rest of the run from the fetch result: report a failed
    /// fetch or an unreadable body and leave the marker alone; on a yielded
    /// version, notify exactly when it differs from the current one, and
    /// refresh the marker either way.
    pub fn check_version(&self, fetch: Result<String, NotifyError>) -> (r: CheckOutcome)
        ensures
            r.write_marker == spec_refreshes_marker(self.source, spec_fetch_views(fetch)),
            (match fetch {
                Ok(body) => match spec_extracted(self.source, body@) {
                    Some(latest) => if spec_should_notify(self.version@, latest) {
                        r.notification matches Some(m) && m@ == spec_update_message(
                            self.name@,
                            self.version@,
                            latest,
                            self.repo_url@,
                        )
                    } else {
                        r.notification is None
                    },
                    None => r.notification matches Some(m) && m@ == spec_fetch_error_message(
                        "could not extract version from response body"@,
                    ),
                },
                Err(e) => r.notification matches Some(m) && m@ == spec_fetch_error_message(
                    spec_message(e),
                ),
            }),
    {
        match fetch {
            Ok(body) => match self.extract_version(body.as_str()) {
                Ok(latest) => {
                    let same = latest == self.version;
                    if !same {
                        CheckOutcome {
                            notification: Some(self.update_message(&latest)),
                            write_marker: true,
                        }
                    } else {
                        CheckOutcome { notification: None, write_marker: true }
                    }
                },
                Err(e) => CheckOutcome {
                    notification: Some(self.fetch_error_message(&e)),
                    write_marker: false,
                },
            },
            Err(e) => CheckOutcome {
                notification: Some(self.fetch_error_message(&e)),
                write_marker: false,
            },
        }
    }

    /// The diagnostic for a marker that could not be rewritten; shown by the
    /// host when touching the marker file fails.
    pub fn write_error_message(&self, e: &NotifyError) -> (r: String)
        ensures
            r@ == spec_write_error_message(spec_message(*e)),
    {
        let m = e.message();
        String::from_str("Error: write_last_checked() failed: \n").concat(m.as_str())
    }

    /// The diagnostic for a guard that could not be consulted.
    fn guard_error_message(&self, e: &NotifyError) -> (r: String)
        ensures
            r@ == spec_guard_error_message(spec_message(*e)),
    {
        let m = e.message();
        String::from_str("Error: should_check_update() Failed: \n").concat(m.as_str())
    }

    /// The diagnostic for a fetch that failed or returned an unreadable body.
    fn fetch_error_message(&self, e: &NotifyError) -> (r: String)
        ensures
            r@ == spec_fetch_error_message(spec_message(*e)),
    {
        let m = e.message();
        String::from_str("Error: get_latest_version() failed: \n").concat(m.as_str())
    }
}

/// `tag` with a leading `v` stripped, if it has one.
fn strip_v_exec(tag: &String) -> (r: String)
    ensures
        r@ == strip_v(tag@),
{
    let t = tag.as_str();
    let n = t.unicode_len();
    if n > 0 && t.get_char(0) == 'v' {
        String::from_str(t.substring_char(1, n))
    } else {
        tag.clone()
    }
}

/// Configures a crates.io update check for the given package, with the
/// default 24-hour interval. The host spawns a background thread, drives the
/// returned notifier there, and never blocks on it.
#[allow(non_snake_case)]
pub fn check_cratesIO(version: &str, name: &str) -> (r: Notifier)
    ensures
        r.source == Source::CratesIO,
        r.version@ == version@,
        r.name@ == name@,
        r.repo_url@.len() == 0,
        r.interval_secs == DEFAULT_INTERVAL_SECS,
{
    proof {
        reveal_strlit("");
    }
    Notifier::new(Source::CratesIO, version, name, "")
}

/// Configures a GitHub Releases update check for the given package, with the
/// default 24-hour interval. The host spawns a background thread, drives the
/// returned notifier there, and never blocks on it.
pub fn check_github(version: &str, name: &str, repo_url: &str) -> (r: Notifier)
    ensures
        r.source == Source::GitHub,
        r.version@ == version@,
        r.name@ == name@,
        r.repo_url@ == repo_url@,
        r.interval_secs == DEFAULT_INTERVAL_SECS,
{
    Notifier::new(Source::GitHub, version, name, repo_url)
}

} // verus!
