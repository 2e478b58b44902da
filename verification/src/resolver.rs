use vstd::prelude::*;
use vstd::string::StringExecFns;
use crate::cleanup::{names_view, stale_entries, stale_of};
use crate::error::{outcome_view, ResolveError, ResolveErrorView};
use crate::naming::{asset_name_for_platform, platform_asset_name, version_dir_name, version_dir_of};
use crate::platform::{Architecture, Os};
use crate::release::{find_asset, first_named, Release, ReleaseView};

verus! {

/// What the host shows while the resolver works.
#[derive(Debug, Clone, Copy, PartialEq, Eq, Structural)]
pub enum InstallationStatus {
    CheckingForUpdate,
    Downloading,
}

/// What one release installs for this platform, and where.
#[derive(Debug, Clone, PartialEq, Eq)]
pub struct Plan {
    /// The asset's name: the download's target and the binary's path.
    pub asset_name: String,
    pub download_url: String,
    /// The directory that namespaces the release.
    pub version_dir: String,
}

/// The mathematical value of a [`Plan`].
pub struct PlanView {
    pub asset_name: Seq<char>,
    pub download_url: Seq<char>,
    pub version_dir: Seq<char>,
}

impl View for Plan {
    type V = PlanView;

    open spec fn view(&self) -> PlanView {
        PlanView {
            asset_name: self.asset_name@,
            download_url: self.download_url@,
            version_dir: self.version_dir@,
        }
    }
}

/// Where a resolution stands: which answer it waits for.
#[derive(Debug, Clone, PartialEq, Eq)]
pub enum Stage {
    /// No resolution is under way.
    Idle,
    /// Waits to hear whether the cached path is a regular file.
    CheckingCache,
    AwaitingRelease,
    AwaitingPlatform(Release),
    CreatingDirectory(Plan),
    /// Waits to hear whether the asset is already a regular file.
    ProbingAsset(Plan),
    Downloading(Plan),
    MarkingExecutable(Plan),
    Listing(Plan),
    Removing(Plan),
}

/// The mathematical value of a [`Stage`].
pub enum StageView {
    Idle,
    CheckingCache,
    AwaitingRelease,
    AwaitingPlatform(ReleaseView),
    CreatingDirectory(PlanView),
    ProbingAsset(PlanView),
    Downloading(PlanView),
    MarkingExecutable(PlanView),
    Listing(PlanView),
    Removing(PlanView),
}

impl View for Stage {
    type V = StageView;

    open spec fn view(&self) -> StageView {
        match *self {
            Stage::Idle => StageView::Idle,
            Stage::CheckingCache => StageView::CheckingCache,
            Stage::AwaitingRelease => StageView::AwaitingRelease,
            Stage::AwaitingPlatform(release) => StageView::AwaitingPlatform(release@),
            Stage::CreatingDirectory(plan) => StageView::CreatingDirectory(plan@),
            Stage::ProbingAsset(plan) => StageView::ProbingAsset(plan@),
            Stage::Downloading(plan) => StageView::Downloading(plan@),
            Stage::MarkingExecutable(plan) => StageView::MarkingExecutable(plan@),
            Stage::Listing(plan) => StageView::Listing(plan@),
            Stage::Removing(plan) => StageView::Removing(plan@),
        }
    }
}

/// What the host adapter reports back: the request itself, or the outcome of
/// the action last handed out. Failures carry their cause as text.
#[derive(Debug, PartialEq, Eq)]
pub enum Event {
    /// The host asks for the binary's path.
    Requested,
    /// Whether a regular file lies at the probed path.
    FileProbed(bool),
    ReleaseFetched(Result<Release, String>),
    PlatformKnown(Os, Architecture),
    DirectoryCreated(Result<(), String>),
    Downloaded(Result<(), String>),
    MadeExecutable(Result<(), String>),
    /// The names of the working directory's top-level entries.
    Listed(Result<Vec<String>, String>),
    /// The removals were attempted; whether any failed is of no account.
    Removed,
}

/// The mathematical value of an [`Event`].
pub enum EventView {
    Requested,
    FileProbed(bool),
    ReleaseFetched(Result<ReleaseView, Seq<char>>),
    PlatformKnown(Os, Architecture),
    DirectoryCreated(Result<(), Seq<char>>),
    Downloaded(Result<(), Seq<char>>),
    MadeExecutable(Result<(), Seq<char>>),
    Listed(Result<Seq<Seq<char>>, Seq<char>>),
    Removed,
}

/// The value of an outcome that carries nothing on success.
pub open spec fn done_view(r: Result<(), String>) -> Result<(), Seq<char>> {
    match r {
        Ok(_) => Ok(()),
        Err(cause) => Err(cause@),
    }
}

impl View for Event {
    type V = EventView;

    open spec fn view(&self) -> EventView {
        match *self {
            Event::Requested => EventView::Requested,
            Event::FileProbed(is_file) => EventView::FileProbed(is_file),
            Event::ReleaseFetched(r) => EventView::ReleaseFetched(
                match r {
                    Ok(release) => Ok(release@),
                    Err(cause) => Err(cause@),
                },
            ),
            Event::PlatformKnown(os, arch) => EventView::PlatformKnown(os, arch),
            Event::DirectoryCreated(r) => EventView::DirectoryCreated(done_view(r)),
            Event::Downloaded(r) => EventView::Downloaded(done_view(r)),
            Event::MadeExecutable(r) => EventView::MadeExecutable(done_view(r)),
            Event::Listed(r) => EventView::Listed(
                match r {
                    Ok(entries) => Ok(names_view(entries@)),
                    Err(cause) => Err(cause@),
                },
            ),
            Event::Removed => EventView::Removed,
        }
    }
}

/// What the host adapter is to do next. Each action but `Finish` is answered
/// by one [`Event`].
#[derive(Debug, PartialEq, Eq)]
pub enum Action {
    /// Find out whether a regular file lies at the path.
    ProbeFile(String),
    /// Show the status, then ask the release source for the latest release.
    LookupRelease { status: InstallationStatus, repository: String, require_assets: bool, pre_release: bool },
    /// Ask the host for its operating system and processor family.
    QueryPlatform,
    /// Create the directory and its parents; one that exists is no failure.
    CreateDirectory(String),
    /// Show the status, then fetch the URL to the target, uncompressed.
    Download { status: InstallationStatus, url: String, target: String },
    MakeExecutable(String),
    /// List the names of the working directory's top-level entries.
    ListWorkingDirectory,
    /// Remove each named entry with all below it, and go on where one fails.
    Remove(Vec<String>),
    /// The resolution is over: the binary's path, or why there is none.
    Finish(Result<String, ResolveError>),
}

/// The mathematical value of an [`Action`].
pub enum ActionView {
    ProbeFile(Seq<char>),
    LookupRelease { status: InstallationStatus, repository: Seq<char>, require_assets: bool, pre_release: bool },
    QueryPlatform,
    CreateDirectory(Seq<char>),
    Download { status: InstallationStatus, url: Seq<char>, target: Seq<char> },
    MakeExecutable(Seq<char>),
    ListWorkingDirectory,
    Remove(Seq<Seq<char>>),
    Finish(Result<Seq<char>, ResolveErrorView>),
}

impl View for Action {
    type V = ActionView;

    open spec fn view(&self) -> ActionView {
        match *self {
            Action::ProbeFile(path) => ActionView::ProbeFile(path@),
            Action::LookupRelease { status, repository, require_assets, pre_release } => {
                ActionView::LookupRelease {
                    status,
                    repository: repository@,
                    require_assets,
                    pre_release,
                }
            },
            Action::QueryPlatform => ActionView::QueryPlatform,
            Action::CreateDirectory(path) => ActionView::CreateDirectory(path@),
            Action::Download { status, url, target } => ActionView::Download {
                status,
                url: url@,
                target: target@,
            },
            Action::MakeExecutable(path) => ActionView::MakeExecutable(path@),
            Action::ListWorkingDirectory => ActionView::ListWorkingDirectory,
            Action::Remove(entries) => ActionView::Remove(names_view(entries@)),
            Action::Finish(r) => ActionView::Finish(outcome_view(r)),
        }
    }
}

/// The resolver: the path of the binary it resolved last, and the stage of
/// the resolution under way.
#[derive(Debug, Clone, PartialEq, Eq)]
pub struct LedgerExtension {
    cached_binary_path: Option<String>,
    stage: Stage,
}

/// The mathematical value of a [`LedgerExtension`].
pub struct ExtensionView {
    pub cached: Option<Seq<char>>,
    pub stage: StageView,
}

impl View for LedgerExtension {
    type V = ExtensionView;

    closed spec fn view(&self) -> ExtensionView {
        ExtensionView {
            cached: match self.cached_binary_path {
                Some(path) => Some(path@),
                None => None,
            },
            stage: self.stage@,
        }
    }
}

/// The lookup that every cache miss starts with.
pub open spec fn lookup() -> ActionView {
    ActionView::LookupRelease {
        status: InstallationStatus::CheckingForUpdate,
        repository: "claytonrcarter/ledger-language-server"@,
        require_assets: true,
        pre_release: true,
    }
}

/// The resolver at rest, with the cache it is left with.
pub open spec fn at_rest(cached: Option<Seq<char>>) -> ExtensionView {
    ExtensionView { cached, stage: StageView::Idle }
}

/// What a release installs on a platform: the asset by the platform's name
/// and the release's directory; or why the release cannot be installed.
pub open spec fn plan_of(release: ReleaseView, os: Os, arch: Architecture) -> Result<
    PlanView,
    ResolveErrorView,
> {
    match platform_asset_name(release.version, os, arch) {
        Err(e) => Err(e),
        Ok(name) => match first_named(release.assets, name) {
            None => Err(ResolveErrorView::AssetNotFound(name)),
            Some(asset) => Ok(
                PlanView {
                    asset_name: name,
                    download_url: asset.download_url,
                    version_dir: version_dir_of(release.version),
                },
            ),
        },
    }
}

/// One move of the resolution: from the resolver and an event to the
/// resolver afterwards and the action to take.
///
/// A request is answered from the cache where the cached path is still a
/// regular file. Otherwise the latest release is looked up, the platform's
/// asset is picked, the release's directory is created, and the asset is
/// downloaded, marked executable and its stale siblings are removed, unless
/// the asset is already there. Any failure ends the resolution and leaves
/// the cache as it was; so does an event that answers no pending action.
pub open spec fn next(pre: ExtensionView, event: EventView) -> (ExtensionView, ActionView) {
    let fail = |e: ResolveErrorView| (at_rest(pre.cached), ActionView::Finish(Err(e)));
    let go = |stage: StageView, action: ActionView|
        (ExtensionView { cached: pre.cached, stage }, action);
    match (pre.stage, event) {
        (StageView::Idle, EventView::Requested) => match pre.cached {
            Some(path) => go(StageView::CheckingCache, ActionView::ProbeFile(path)),
            None => go(StageView::AwaitingRelease, lookup()),
        },
        (StageView::CheckingCache, EventView::FileProbed(is_file)) => match pre.cached {
            Some(path) if is_file => (at_rest(pre.cached), ActionView::Finish(Ok(path))),
            _ => go(StageView::AwaitingRelease, lookup()),
        },
        (StageView::AwaitingRelease, EventView::ReleaseFetched(Ok(release))) => go(
            StageView::AwaitingPlatform(release),
            ActionView::QueryPlatform,
        ),
        (StageView::AwaitingRelease, EventView::ReleaseFetched(Err(cause))) => fail(
            ResolveErrorView::Lookup(cause),
        ),
        (StageView::AwaitingPlatform(release), EventView::PlatformKnown(os, arch)) => match plan_of(
            release,
            os,
            arch,
        ) {
            Err(e) => fail(e),
            Ok(plan) => go(
                StageView::CreatingDirectory(plan),
                ActionView::CreateDirectory(plan.version_dir),
            ),
        },
        (StageView::CreatingDirectory(plan), EventView::DirectoryCreated(Ok(_))) => go(
            StageView::ProbingAsset(plan),
            ActionView::ProbeFile(plan.asset_name),
        ),
        (StageView::CreatingDirectory(plan), EventView::DirectoryCreated(Err(cause))) => fail(
            ResolveErrorView::Directory { path: plan.version_dir, cause },
        ),
        (StageView::ProbingAsset(plan), EventView::FileProbed(is_file)) => if is_file {
            (at_rest(Some(plan.asset_name)), ActionView::Finish(Ok(plan.asset_name)))
        } else {
            go(
                StageView::Downloading(plan),
                ActionView::Download {
                    status: InstallationStatus::Downloading,
                    url: plan.download_url,
                    target: plan.asset_name,
                },
            )
        },
        (StageView::Downloading(plan), EventView::Downloaded(Ok(_))) => go(
            StageView::MarkingExecutable(plan),
            ActionView::MakeExecutable(plan.asset_name),
        ),
        (StageView::Downloading(_), EventView::Downloaded(Err(cause))) => fail(
            ResolveErrorView::Download(cause),
        ),
        (StageView::MarkingExecutable(plan), EventView::MadeExecutable(Ok(_))) => go(
            StageView::Listing(plan),
            ActionView::ListWorkingDirectory,
        ),
        (StageView::MarkingExecutable(_), EventView::MadeExecutable(Err(cause))) => fail(
            ResolveErrorView::Permission(cause),
        ),
        (StageView::Listing(plan), EventView::Listed(Ok(entries))) => go(
            StageView::Removing(plan),
            ActionView::Remove(stale_of(entries, plan.version_dir)),
        ),
        (StageView::Listing(_), EventView::Listed(Err(cause))) => fail(
            ResolveErrorView::List(cause),
        ),
        (StageView::Removing(plan), EventView::Removed) => (
            at_rest(Some(plan.asset_name)),
            ActionView::Finish(Ok(plan.asset_name)),
        ),
        _ => fail(ResolveErrorView::UnexpectedEvent),
    }
}

/// Picks the platform's asset from a release and names the release's
/// directory.
pub fn plan_installation(release: &Release, os: Os, arch: Architecture) -> (r: Result<
    Plan,
    ResolveError,
>)
    ensures
        match r {
            Ok(plan) => plan_of(release@, os, arch) == Ok::<PlanView, ResolveErrorView>(plan@),
            Err(e) => plan_of(release@, os, arch) == Err::<PlanView, ResolveErrorView>(e@),
        },
{
    let name = match asset_name_for_platform(release.version.as_str(), os, arch) {
        Ok(name) => name,
        Err(e) => { return Err(e); },
    };
    match find_asset(&release.assets, &name) {
        None => Err(ResolveError::AssetNotFound(name)),
        Some(asset) => Ok(
            Plan {
                asset_name: name,
                download_url: asset.download_url.clone(),
                version_dir: version_dir_name(release.version.as_str()),
            },
        ),
    }
}

impl LedgerExtension {
    /// A resolver at rest with an empty cache.
    pub fn new() -> (r: Self)
        ensures
            r@ == at_rest(None),
    {
        LedgerExtension { cached_binary_path: None, stage: Stage::Idle }
    }

    /// The path resolved last, if any resolution has succeeded.
    pub fn cached_binary_path(&self) -> (r: Option<&String>)
        ensures
            match r {
                Some(path) => self@.cached == Some(path@),
                None => self@.cached.is_none(),
            },
    {
        self.cached_binary_path.as_ref()
    }

    /// Whether no resolution is under way.
    pub fn is_idle(&self) -> (r: bool)
        ensures
            r == (self@.stage == StageView::Idle),
    {
        match self.stage {
            Stage::Idle => true,
            _ => false,
        }
    }

    /// Takes the resolution one move on: hands the event in, and says what
    /// to do next. The first event of a resolution is `Event::Requested`;
    /// its last action is `Action::Finish`, with the binary's path or the
    /// failure.
    pub fn language_server_binary_path(&mut self, event: Event) -> (action: Action)
        ensures
            (final(self)@, action@) == next(old(self)@, event@),
    {
        let mut stage = Stage::Idle;
        core::mem::swap(&mut self.stage, &mut stage);
        match (stage, event) {
            (Stage::Idle, Event::Requested) => match &self.cached_binary_path {
                Some(path) => {
                    let probe = Action::ProbeFile(path.clone());
                    self.stage = Stage::CheckingCache;
                    probe
                },
                None => {
                    self.stage = Stage::AwaitingRelease;
                    lookup_release()
                },
            },
            (Stage::CheckingCache, Event::FileProbed(is_file)) => match &self.cached_binary_path {
                Some(path) if is_file => Action::Finish(Ok(path.clone())),
                _ => {
                    self.stage = Stage::AwaitingRelease;
                    lookup_release()
                },
            },
            (Stage::AwaitingRelease, Event::ReleaseFetched(Ok(release))) => {
                self.stage = Stage::AwaitingPlatform(release);
                Action::QueryPlatform
            },
            (Stage::AwaitingRelease, Event::ReleaseFetched(Err(cause))) => Action::Finish(
                Err(ResolveError::Lookup(cause)),
            ),
            (Stage::AwaitingPlatform(release), Event::PlatformKnown(os, arch)) => {
                match plan_installation(&release, os, arch) {
                    Err(e) => Action::Finish(Err(e)),
                    Ok(plan) => {
                        let create = Action::CreateDirectory(plan.version_dir.clone());
                        self.stage = Stage::CreatingDirectory(plan);
                        create
                    },
                }
            },
            (Stage::CreatingDirectory(plan), Event::DirectoryCreated(Ok(_))) => {
                let probe = Action::ProbeFile(plan.asset_name.clone());
                self.stage = Stage::ProbingAsset(plan);
                probe
            },
            (Stage::CreatingDirectory(plan), Event::DirectoryCreated(Err(cause))) => {
                Action::Finish(Err(ResolveError::Directory { path: plan.version_dir, cause }))
            },
            (Stage::ProbingAsset(plan), Event::FileProbed(is_file)) => {
                if is_file {
                    self.cached_binary_path = Some(plan.asset_name.clone());
                    Action::Finish(Ok(plan.asset_name))
                } else {
                    let download = Action::Download {
                        status: InstallationStatus::Downloading,
                        url: plan.download_url.clone(),
                        target: plan.asset_name.clone(),
                    };
                    self.stage = Stage::Downloading(plan);
                    download
                }
            },
            (Stage::Downloading(plan), Event::Downloaded(Ok(_))) => {
                let mark = Action::MakeExecutable(plan.asset_name.clone());
                self.stage = Stage::MarkingExecutable(plan);
                mark
            },
            (Stage::Downloading(_), Event::Downloaded(Err(cause))) => Action::Finish(
                Err(ResolveError::Download(cause)),
            ),
            (Stage::MarkingExecutable(plan), Event::MadeExecutable(Ok(_))) => {
                self.stage = Stage::Listing(plan);
                Action::ListWorkingDirectory
            },
            (Stage::MarkingExecutable(_), Event::MadeExecutable(Err(cause))) => Action::Finish(
                Err(ResolveError::Permission(cause)),
            ),
            (Stage::Listing(plan), Event::Listed(Ok(entries))) => {
                let remove = Action::Remove(stale_entries(&entries, &plan.version_dir));
                self.stage = Stage::Removing(plan);
                remove
            },
            (Stage::Listing(_), Event::Listed(Err(cause))) => Action::Finish(
                Err(ResolveError::List(cause)),
            ),
            (Stage::Removing(plan), Event::Removed) => {
                self.cached_binary_path = Some(plan.asset_name.clone());
                Action::Finish(Ok(plan.asset_name))
            },
            _ => Action::Finish(Err(ResolveError::UnexpectedEvent)),
        }
    }
}

/// The lookup action: latest release of the server's repository, assets
/// required, pre-releases included.
fn lookup_release() -> (action: Action)
    ensures
        action@ == lookup(),
{
    Action::LookupRelease {
        status: InstallationStatus::CheckingForUpdate,
        repository: String::from_str("claytonrcarter/ledger-language-server"),
        require_assets: true,
        pre_release: true,
    }
}

} // verus!
