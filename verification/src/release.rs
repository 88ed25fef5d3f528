//! The release installer: resolves which release to use, walks the release's
//! assets in order, drives the download / unpack / probe pipeline for each
//! eligible asset until one yields a valid executable, and decides where the
//! symbolic link goes.
//!
//! The installer is a state machine. The unverified shell performs each
//! returned [`Action`] (network, file system and process work) and reports
//! the outcome back as the next [`Event`]; every decision between two
//! outcomes is made and verified here.

use crate::errors::InstallError;
use crate::repo::Repo;
use crate::text::{ends_with_str, file_name_of, spec_ends_with, spec_file_name, str_eq};
use vstd::prelude::*;

verus! {

/// One downloadable file attached to a release.
#[derive(Clone, Debug)]
pub struct Asset {
    pub name: String,
    pub url: String,
    pub content_type: String,
}

/// Release metadata as the gateway reports it.
#[derive(Clone, Debug)]
pub struct ReleaseMeta {
    pub tag_name: String,
    pub name: Option<String>,
    pub assets: Vec<Asset>,
    pub draft: bool,
}

/// Only assets whose name ends in the one recognized archive suffix are
/// eligible for installation.
pub open spec fn spec_eligible(name: Seq<char>) -> bool {
    spec_ends_with(name, ".tar.gz"@)
}

/// Decides whether an asset name carries the archive suffix.
pub fn is_archive_asset(name: &str) -> (r: bool)
    ensures
        r == spec_eligible(name@),
{
    ends_with_str(name, ".tar.gz")
}

/// The first eligible asset at or after `from`, in release order.
pub open spec fn spec_next_eligible(assets: Seq<Asset>, from: int) -> Option<int>
    decreases assets.len() - from
        when 0 <= from <= assets.len()
{
    if from >= assets.len() {
        None
    } else if spec_eligible(assets[from].name@) {
        Some(from)
    } else {
        spec_next_eligible(assets, from + 1)
    }
}

/// What the next eligible index means: it is eligible, it is the first
/// eligible one at or after `from`, and when there is none, nothing at or
/// after `from` is eligible. So assets are tried in release order, only
/// archive-suffixed ones are ever tried, and exhaustion is exact.
pub proof fn lemma_next_eligible_spec(assets: Seq<Asset>, from: int)
    requires
        0 <= from <= assets.len(),
    ensures
        match spec_next_eligible(assets, from) {
            Some(j) => from <= j < assets.len() && spec_eligible(assets[j].name@) && forall|k: int|
                from <= k < j ==> !spec_eligible(#[trigger] assets[k].name@),
            None => forall|k: int|
                from <= k < assets.len() ==> !spec_eligible(#[trigger] assets[k].name@),
        },
    decreases assets.len() - from,
{
    if from >= assets.len() {
    } else if spec_eligible(assets[from].name@) {
    } else {
        lemma_next_eligible_spec(assets, from + 1);
    }
}

/// Finds the first eligible asset at or after `from`.
pub fn next_eligible(assets: &Vec<Asset>, from: usize) -> (r: Option<usize>)
    requires
        from <= assets@.len(),
    ensures
        r matches Some(j) ==> j < assets@.len() && spec_eligible(assets@[j as int].name@)
            && spec_next_eligible(assets@, from as int) == Some(j as int),
        r is None ==> spec_next_eligible(assets@, from as int) is None,
{
    let mut i: usize = from;
    while i < assets.len()
        invariant
            from <= i <= assets@.len(),
            spec_next_eligible(assets@, from as int) == spec_next_eligible(assets@, i as int),
        decreases assets@.len() - i,
    {
        if is_archive_asset(assets[i].name.as_str()) {
            return Some(i);
        }
        i += 1;
    }
    None
}

/// Where the installer stands between two decisions. The index names the
/// asset whose pipeline is in flight.
#[derive(Clone, Copy, Debug, PartialEq, Eq, Structural)]
pub enum Phase {
    /// Nothing decided yet.
    Ready,
    /// Waiting for the most recent tag name.
    AwaitTags,
    /// Waiting for the release of the resolved tag.
    AwaitRelease,
    /// Waiting for the download of asset `idx`.
    AwaitDownload { idx: usize },
    /// Waiting for the archive of asset `idx` to be unpacked.
    AwaitUnpack { idx: usize },
    /// Waiting for the probe of the unpack directory for asset `idx`.
    AwaitProbe { idx: usize },
    /// Waiting for the symbolic link to be created.
    AwaitLink,
    /// The install finished.
    Finished,
    /// The install failed.
    Failed,
}

/// What the unverified shell reports back to the installer.
pub enum Event {
    /// Begin: carries the host's operating-system family.
    Begin { family: String },
    /// The most recent tag name, or nothing when the repository has none.
    TagsFetched { first: Option<String> },
    /// The release for the requested tag, or the lookup error, verbatim.
    ReleaseFetched { outcome: Result<ReleaseMeta, String> },
    /// How the download of the current asset ended; an error names the
    /// cause.
    Downloaded { error: Option<String> },
    /// Whether the current archive unpacked cleanly.
    Unpacked { ok: bool },
    /// The path of the accepted executable, if the probe found one.
    Probed { found: Option<String> },
    /// How creating the symbolic link ended; an error names the cause.
    Linked { error: Option<String> },
}

/// What the installer asks the unverified shell to do next.
pub enum Action {
    /// Fetch the most recent tag name, page size one.
    FetchLatestTag,
    /// Fetch the release carrying exactly this tag.
    FetchRelease { tag: String },
    /// Download one asset to the destination file, creating the working
    /// directories first; an existing file is truncated and rewritten.
    Download { url: String, content_type: String, dest: String },
    /// Unpack the archive into the target directory.
    Unpack { archive: String, target: String },
    /// Probe the directory for a runnable, architecture-matching file.
    Probe { dir: String },
    /// Create a symbolic link at `dest` pointing to `source`.
    Link { source: String, dest: String },
    /// Stop: the install failed.
    Fail { error: InstallError },
    /// Stop: the executable is installed.
    Done,
}

/// The fields of the installer that no step changes.
pub open spec fn keeps_setup(pre: Installer, post: Installer) -> bool {
    &&& post.repo == pre.repo
    &&& post.home == pre.home
    &&& post.os == pre.os
}

/// What moving to the first eligible asset at or after `from` looks like:
/// either that asset's download begins, or, when none is left, the install
/// fails naming the full repo reference.
pub open spec fn advanced_from(pre: Installer, post: Installer, r: Action, from: int) -> bool {
    match spec_next_eligible(pre.assets@, from) {
        Some(j) => {
            &&& post.phase == (Phase::AwaitDownload { idx: j as usize })
            &&& r matches Action::Download { url, content_type, dest } && url@
                == pre.assets@[j].url@ && content_type@ == pre.assets@[j].content_type@ && dest@
                == pre.spec_archive_path(j)
        },
        None => {
            &&& post.phase == Phase::Failed
            &&& r matches Action::Fail { error: InstallError::NoExecutableFound { full_name } }
                && full_name@ == pre.repo.full_name@
        },
    }
}

/// The release installer.
pub struct Installer {
    /// The reference being installed.
    pub repo: Repo,
    /// The caller's home directory.
    pub home: String,
    /// The host operating system, as std names it.
    pub os: String,
    /// The assets of the resolved release, in release order.
    pub assets: Vec<Asset>,
    /// The accepted executable, once a probe found one.
    pub exec_path: Option<String>,
    /// Where the installer stands.
    pub phase: Phase,
}

impl Installer {
    /// A well-formed installer has a well-formed reference, and any in-flight
    /// asset index names an eligible asset.
    pub open spec fn wf(&self) -> bool {
        &&& self.repo.wf()
        &&& match self.phase {
            Phase::AwaitDownload { idx } => idx < self.assets@.len() && spec_eligible(
                self.assets@[idx as int].name@,
            ),
            Phase::AwaitUnpack { idx } => idx < self.assets@.len() && spec_eligible(
                self.assets@[idx as int].name@,
            ),
            Phase::AwaitProbe { idx } => idx < self.assets@.len() && spec_eligible(
                self.assets@[idx as int].name@,
            ),
            _ => true,
        }
    }

    /// The event kind each phase waits for.
    pub open spec fn expects(&self, ev: &Event) -> bool {
        match (self.phase, ev) {
            (Phase::Ready, Event::Begin { .. }) => true,
            (Phase::AwaitTags, Event::TagsFetched { .. }) => true,
            (Phase::AwaitRelease, Event::ReleaseFetched { .. }) => true,
            (Phase::AwaitDownload { .. }, Event::Downloaded { .. }) => true,
            (Phase::AwaitUnpack { .. }, Event::Unpacked { .. }) => true,
            (Phase::AwaitProbe { .. }, Event::Probed { .. }) => true,
            (Phase::AwaitLink, Event::Linked { .. }) => true,
            _ => false,
        }
    }

    /// The working directory of this install.
    pub open spec fn spec_dir(&self) -> Seq<char> {
        self.repo.spec_dir(self.home@)
    }

    /// Where archives are unpacked.
    pub open spec fn spec_unpack_dir(&self) -> Seq<char> {
        self.spec_dir() + "/unpacked"@
    }

    /// Where the archive of asset `i` is downloaded to.
    pub open spec fn spec_archive_path(&self, i: int) -> Seq<char> {
        self.spec_dir() + "/"@ + self.assets@[i].name@
    }

    /// Where the link for an executable at `p` goes.
    pub open spec fn spec_link_dest(&self, p: Seq<char>) -> Seq<char> {
        self.home@ + "/.local/bin/"@ + spec_file_name(p)
    }

    /// The two operating systems the installer links on.
    pub open spec fn spec_os_supported(&self) -> bool {
        self.os@ == "macos"@ || self.os@ == "linux"@
    }

    /// Starts an install of `repo` for a host with the given home directory
    /// and operating system.
    pub fn new(repo: Repo, home: String, os: String) -> (r: Installer)
        requires
            repo.wf(),
        ensures
            r.repo == repo && r.home == home && r.os == os,
            r.assets@ == Seq::<Asset>::empty(),
            r.exec_path is None,
            r.phase == Phase::Ready,
            r.wf(),
    {
        Installer { repo, home, os, assets: Vec::new(), exec_path: None, phase: Phase::Ready }
    }

    /// The unpack directory as a path.
    pub fn unpack_dir(&self) -> (r: String)
        ensures
            r@ == self.spec_unpack_dir(),
    {
        let r = self.repo.dir(self.home.as_str()).concat("/unpacked");
        proof {
            assert(r@ =~= self.spec_unpack_dir());
        }
        r
    }

    /// The download destination for asset `i`.
    pub fn archive_path(&self, i: usize) -> (r: String)
        requires
            i < self.assets@.len(),
        ensures
            r@ == self.spec_archive_path(i as int),
    {
        let r = self.repo.dir(self.home.as_str()).concat("/").concat(self.assets[i].name.as_str());
        proof {
            assert(r@ =~= self.spec_archive_path(i as int));
        }
        r
    }

    /// Moves to the first eligible asset at or after `from`, or fails the
    /// install when none is left.
    fn begin_asset(&mut self, from: usize) -> (r: Action)
        requires
            old(self).repo.wf(),
            from <= old(self).assets@.len(),
        ensures
            keeps_setup(*old(self), *final(self)),
            final(self).assets == old(self).assets,
            final(self).exec_path == old(self).exec_path,
            advanced_from(*old(self), *final(self), r, from as int),
            final(self).wf(),
    {
        match next_eligible(&self.assets, from) {
            Some(j) => {
                let url = self.assets[j].url.clone();
                let content_type = self.assets[j].content_type.clone();
                let dest = self.archive_path(j);
                self.phase = Phase::AwaitDownload { idx: j };
                Action::Download { url, content_type, dest }
            },
            None => {
                self.phase = Phase::Failed;
                Action::Fail {
                    error: InstallError::NoExecutableFound {
                        full_name: self.repo.full_name.clone(),
                    },
                }
            },
        }
    }

    /// One decision of the installer: takes the outcome the shell reports
    /// and says what to do next.
    ///
    /// The contract pins every transition: the platform gate, how the
    /// release is resolved (most recent tag when the reference says
    /// `latest`), that only archive-suffixed assets are downloaded, in
    /// release order, that a failed unpack or a fruitless probe moves to the
    /// next eligible asset while a transfer failure ends the install, that
    /// the first accepted executable stops the iteration and is linked under
    /// the home directory's local binary directory, and that exhausting all
    /// assets fails naming the full repo reference.
    pub fn step(&mut self, ev: Event) -> (r: Action)
        requires
            old(self).wf(),
            old(self).expects(&ev),
        ensures
            final(self).wf(),
            keeps_setup(*old(self), *final(self)),
            (ev matches Event::Begin { family } ==> {
                &&& (family@ != "unix"@ ==> final(self).phase == Phase::Failed && (
                r matches Action::Fail { error: InstallError::UnsupportedPlatform { detail } }
                    && detail@ == "Non-unix systems are not supported."@))
                &&& (family@ == "unix"@ && old(self).repo.tag@ == "latest"@ ==> final(self).phase
                    == Phase::AwaitTags && r == Action::FetchLatestTag)
                &&& (family@ == "unix"@ && old(self).repo.tag@ != "latest"@ ==> final(self).phase
                    == Phase::AwaitRelease && (r matches Action::FetchRelease { tag } && tag@
                    == old(self).repo.tag@))
            }),
            (ev matches Event::TagsFetched { first } ==> match first {
                None => final(self).phase == Phase::Failed && (
                r matches Action::Fail { error: InstallError::ReleaseNotFound { detail } }
                    && detail@ == "No tags found"@),
                Some(t) => final(self).phase == Phase::AwaitRelease && (
                r matches Action::FetchRelease { tag } && tag@ == t@),
            }),
            (ev matches Event::ReleaseFetched { outcome } ==> match outcome {
                Err(msg) => final(self).phase == Phase::Failed && (
                r matches Action::Fail { error: InstallError::ReleaseNotFound { detail } }
                    && detail@ == msg@),
                Ok(rel) => final(self).assets == rel.assets && advanced_from(
                    Installer { assets: rel.assets, ..*old(self) },
                    *final(self),
                    r,
                    0,
                ),
            }),
            (old(self).phase matches Phase::AwaitDownload { idx } ==> ev matches Event::Downloaded {
                error,
            } ==> match error {
                Some(msg) => final(self).phase == Phase::Failed && (
                r matches Action::Fail { error: InstallError::Transfer { detail } } && detail@
                    == msg@),
                None => final(self).phase == (Phase::AwaitUnpack { idx }) && (
                r matches Action::Unpack { archive, target } && archive@ == old(
                    self,
                ).spec_archive_path(idx as int) && target@ == old(self).spec_unpack_dir()),
            }),
            (old(self).phase matches Phase::AwaitUnpack { idx } ==> ev matches Event::Unpacked { ok }
                ==> if ok {
                final(self).phase == (Phase::AwaitProbe { idx }) && (
                r matches Action::Probe { dir } && dir@ == old(self).spec_unpack_dir())
            } else {
                advanced_from(*old(self), *final(self), r, idx + 1)
            }),
            (old(self).phase matches Phase::AwaitProbe { idx } ==> ev matches Event::Probed { found }
                ==> match found {
                Some(p) => {
                    if old(self).spec_os_supported() {
                        &&& final(self).phase == Phase::AwaitLink
                        &&& final(self).exec_path matches Some(q) && q@ == p@
                        &&& r matches Action::Link { source, dest } && source@ == p@ && dest@
                            == old(self).spec_link_dest(p@)
                    } else {
                        &&& final(self).phase == Phase::Failed
                        &&& r matches Action::Fail {
                            error: InstallError::UnsupportedPlatform { detail },
                        } && detail@ == "OS '"@ + old(self).os@ + "' is not supported right now."@
                    }
                },
                None => advanced_from(*old(self), *final(self), r, idx + 1),
            }),
            (ev matches Event::Linked { error } ==> match error {
                None => final(self).phase == Phase::Finished && r == Action::Done,
                Some(msg) => final(self).phase == Phase::Failed && (
                r matches Action::Fail { error: InstallError::Link { detail } } && detail@
                    == msg@),
            }),
    {
        match ev {
            Event::Begin { family } => {
                if !str_eq(family.as_str(), "unix") {
                    self.phase = Phase::Failed;
                    Action::Fail {
                        error: InstallError::UnsupportedPlatform {
                            detail: String::from_str("Non-unix systems are not supported."),
                        },
                    }
                } else if str_eq(self.repo.tag.as_str(), "latest") {
                    self.phase = Phase::AwaitTags;
                    Action::FetchLatestTag
                } else {
                    self.phase = Phase::AwaitRelease;
                    Action::FetchRelease { tag: self.repo.tag.clone() }
                }
            },
            Event::TagsFetched { first } => match first {
                None => {
                    self.phase = Phase::Failed;
                    Action::Fail {
                        error: InstallError::ReleaseNotFound {
                            detail: String::from_str("No tags found"),
                        },
                    }
                },
                Some(t) => {
                    self.phase = Phase::AwaitRelease;
                    Action::FetchRelease { tag: t }
                },
            },
            Event::ReleaseFetched { outcome } => match outcome {
                Err(msg) => {
                    self.phase = Phase::Failed;
                    Action::Fail { error: InstallError::ReleaseNotFound { detail: msg } }
                },
                Ok(rel) => {
                    self.assets = rel.assets;
                    self.begin_asset(0)
                },
            },
            Event::Downloaded { error } => {
                let idx: usize = match self.phase {
                    Phase::AwaitDownload { idx } => idx,
                    _ => {
                        proof {
                            assert(false);
                        }
                        0
                    },
                };
                match error {
                    Some(msg) => {
                        self.phase = Phase::Failed;
                        Action::Fail { error: InstallError::Transfer { detail: msg } }
                    },
                    None => {
                        let archive = self.archive_path(idx);
                        let target = self.unpack_dir();
                        self.phase = Phase::AwaitUnpack { idx };
                        Action::Unpack { archive, target }
                    },
                }
            },
            Event::Unpacked { ok } => {
                let idx: usize = match self.phase {
                    Phase::AwaitUnpack { idx } => idx,
                    _ => {
                        proof {
                            assert(false);
                        }
                        0
                    },
                };
                if ok {
                    let dir = self.unpack_dir();
                    self.phase = Phase::AwaitProbe { idx };
                    Action::Probe { dir }
                } else {
                    let n = self.assets.len();
                    proof {
                        assert(idx < n);
                    }
                    self.begin_asset(idx + 1)
                }
            },
            Event::Probed { found } => {
                let idx: usize = match self.phase {
                    Phase::AwaitProbe { idx } => idx,
                    _ => {
                        proof {
                            assert(false);
                        }
                        0
                    },
                };
                match found {
                    Some(p) => {
                        if str_eq(self.os.as_str(), "macos") || str_eq(self.os.as_str(), "linux") {
                            let link_name = file_name_of(p.as_str());
                            let dest = self.home.clone().concat("/.local/bin/").concat(
                                link_name.as_str(),
                            );
                            proof {
                                assert(dest@ =~= self.spec_link_dest(p@));
                            }
                            self.exec_path = Some(p.clone());
                            self.phase = Phase::AwaitLink;
                            Action::Link { source: p, dest }
                        } else {
                            let detail = String::from_str("OS '").concat(self.os.as_str()).concat(
                                "' is not supported right now.",
                            );
                            proof {
                                assert(detail@ =~= "OS '"@ + self.os@
                                    + "' is not supported right now."@);
                            }
                            self.phase = Phase::Failed;
                            Action::Fail { error: InstallError::UnsupportedPlatform { detail } }
                        }
                    },
                    None => {
                        let n = self.assets.len();
                        proof {
                            assert(idx < n);
                        }
                        self.begin_asset(idx + 1)
                    },
                }
            },
            Event::Linked { error } => match error {
                None => {
                    self.phase = Phase::Finished;
                    Action::Done
                },
                Some(msg) => {
                    self.phase = Phase::Failed;
                    Action::Fail { error: InstallError::Link { detail: msg } }
                },
            },
        }
    }
}

} // verus!
