use vstd::prelude::*;
use crate::cleanup::{stale_entries_spare_exactly_the_kept, stale_of};
use crate::error::ResolveErrorView;
use crate::platform::{Architecture, Os};
use crate::release::ReleaseView;
use crate::resolver::{
    at_rest, lookup, next, plan_of, ActionView, EventView, ExtensionView, InstallationStatus,
    PlanView, StageView,
};

verus! {

/// The resolver after a run of events, and the actions it handed out on the
/// way, in order.
pub open spec fn run(pre: ExtensionView, events: Seq<EventView>) -> (
    ExtensionView,
    Seq<ActionView>,
)
    decreases events.len(),
{
    if events.len() == 0 {
        (pre, Seq::empty())
    } else {
        let (mid, actions) = run(pre, events.drop_last());
        let (post, action) = next(mid, events.last());
        (post, actions.push(action))
    }
}

/// One more event takes a run one move further.
pub proof fn run_extends(pre: ExtensionView, events: Seq<EventView>, event: EventView)
    ensures
        run(pre, events.push(event)) == (
            next(run(pre, events).0, event).0,
            run(pre, events).1.push(next(run(pre, events).0, event).1),
        ),
{
    assert(events.push(event).drop_last() =~= events);
}

/// The events of a resolution that finds no cache entry, up to the answer
/// on whether the asset is already there.
pub open spec fn events_until_probe(
    release: ReleaseView,
    os: Os,
    arch: Architecture,
    asset_present: bool,
) -> Seq<EventView> {
    seq![
        EventView::Requested,
        EventView::ReleaseFetched(Ok(release)),
        EventView::PlatformKnown(os, arch),
        EventView::DirectoryCreated(Ok(())),
        EventView::FileProbed(asset_present),
    ]
}

/// The actions that lead up to the probe of the asset.
pub open spec fn actions_until_probe(plan: PlanView) -> Seq<ActionView> {
    seq![
        lookup(),
        ActionView::QueryPlatform,
        ActionView::CreateDirectory(plan.version_dir),
        ActionView::ProbeFile(plan.asset_name),
    ]
}

/// Whatever the cache holds, the answer that the platform has no build ends
/// the resolution in that move, with the cache as it was: the resolver asks
/// for no directory, probe, download, listing or removal.
pub proof fn unsupported_platform_ends_the_resolution(
    pre: ExtensionView,
    release: ReleaseView,
    os: Os,
    arch: Architecture,
)
    requires
        pre.stage == StageView::AwaitingPlatform(release),
        os == Os::Windows || arch == Architecture::X86,
    ensures
        next(pre, EventView::PlatformKnown(os, arch)) == (
            at_rest(pre.cached),
            ActionView::Finish(
                Err(
                    if os == Os::Windows {
                        ResolveErrorView::UnsupportedPlatform
                    } else {
                        ResolveErrorView::UnsupportedArchitecture
                    },
                ),
            ),
        ),
{
}

/// Once the release is known, a platform without a build ends the
/// resolution at once: nothing is created, probed, downloaded or removed,
/// and the cache stays empty.
pub proof fn unsupported_platform_fails_before_installing(
    release: ReleaseView,
    os: Os,
    arch: Architecture,
)
    requires
        os == Os::Windows || arch == Architecture::X86,
    ensures
        run(
            at_rest(None),
            seq![
                EventView::Requested,
                EventView::ReleaseFetched(Ok(release)),
                EventView::PlatformKnown(os, arch),
            ],
        ) == (
            at_rest(None),
            seq![
                lookup(),
                ActionView::QueryPlatform,
                ActionView::Finish(
                    Err(
                        if os == Os::Windows {
                            ResolveErrorView::UnsupportedPlatform
                        } else {
                            ResolveErrorView::UnsupportedArchitecture
                        },
                    ),
                ),
            ],
        ),
{
    let pre = at_rest(None);
    let e0 = Seq::<EventView>::empty();
    let e1 = e0.push(EventView::Requested);
    let e2 = e1.push(EventView::ReleaseFetched(Ok(release)));
    run_extends(pre, e0, EventView::Requested);
    run_extends(pre, e1, EventView::ReleaseFetched(Ok(release)));
    run_extends(pre, e2, EventView::PlatformKnown(os, arch));
    let events = seq![
        EventView::Requested,
        EventView::ReleaseFetched(Ok(release)),
        EventView::PlatformKnown(os, arch),
    ];
    assert(events =~= e2.push(EventView::PlatformKnown(os, arch)));
    assert(run(pre, events).1 =~= seq![
        lookup(),
        ActionView::QueryPlatform,
        ActionView::Finish(
            Err(
                if os == Os::Windows {
                    ResolveErrorView::UnsupportedPlatform
                } else {
                    ResolveErrorView::UnsupportedArchitecture
                },
            ),
        ),
    ]);
}

/// Where the cached path is still a regular file, the resolution is one
/// probe of that path and its return: no release is looked up, nothing is
/// downloaded, and the cache is left as it was.
pub proof fn cached_file_is_returned_without_lookup(path: Seq<char>)
    ensures
        run(at_rest(Some(path)), seq![EventView::Requested, EventView::FileProbed(true)]) == (
            at_rest(Some(path)),
            seq![ActionView::ProbeFile(path), ActionView::Finish(Ok(path))],
        ),
{
    let pre = at_rest(Some(path));
    let e0 = Seq::<EventView>::empty();
    let e1 = e0.push(EventView::Requested);
    run_extends(pre, e0, EventView::Requested);
    run_extends(pre, e1, EventView::FileProbed(true));
    let events = seq![EventView::Requested, EventView::FileProbed(true)];
    assert(events =~= e1.push(EventView::FileProbed(true)));
    assert(run(pre, events).1 =~= seq![ActionView::ProbeFile(path), ActionView::Finish(Ok(path))]);
}

/// With an empty cache, every resolution of an installable release begins
/// alike: lookup, platform query, creation of the release's directory, and
/// a probe of the asset's path.
pub proof fn resolution_leads_to_probe(
    release: ReleaseView,
    os: Os,
    arch: Architecture,
    plan: PlanView,
)
    requires
        plan_of(release, os, arch) == Ok::<PlanView, ResolveErrorView>(plan),
    ensures
        run(at_rest(None), events_until_probe(release, os, arch, true).drop_last()) == (
            ExtensionView { cached: None, stage: StageView::ProbingAsset(plan) },
            actions_until_probe(plan),
        ),
        events_until_probe(release, os, arch, false).drop_last() == events_until_probe(
            release,
            os,
            arch,
            true,
        ).drop_last(),
{
    let pre = at_rest(None);
    let e0 = Seq::<EventView>::empty();
    let e1 = e0.push(EventView::Requested);
    let e2 = e1.push(EventView::ReleaseFetched(Ok(release)));
    let e3 = e2.push(EventView::PlatformKnown(os, arch));
    let e4 = e3.push(EventView::DirectoryCreated(Ok(())));
    run_extends(pre, e0, EventView::Requested);
    run_extends(pre, e1, EventView::ReleaseFetched(Ok(release)));
    run_extends(pre, e2, EventView::PlatformKnown(os, arch));
    run_extends(pre, e3, EventView::DirectoryCreated(Ok(())));
    assert(events_until_probe(release, os, arch, true).drop_last() =~= e4);
    assert(run(pre, e4).1 =~= actions_until_probe(plan));
    assert(events_until_probe(release, os, arch, false).drop_last() =~= e4);
}

/// Where the asset is already a regular file and the cache is empty, the
/// resolution downloads nothing and removes nothing, and still caches and
/// returns the asset's name.
pub proof fn present_asset_is_adopted_without_download(
    release: ReleaseView,
    os: Os,
    arch: Architecture,
    plan: PlanView,
)
    requires
        plan_of(release, os, arch) == Ok::<PlanView, ResolveErrorView>(plan),
    ensures
        run(at_rest(None), events_until_probe(release, os, arch, true)) == (
            at_rest(Some(plan.asset_name)),
            actions_until_probe(plan).push(ActionView::Finish(Ok(plan.asset_name))),
        ),
{
    resolution_leads_to_probe(release, os, arch, plan);
    let events = events_until_probe(release, os, arch, true);
    run_extends(at_rest(None), events.drop_last(), EventView::FileProbed(true));
    assert(events.drop_last().push(EventView::FileProbed(true)) =~= events);
}

/// A fresh download is followed by the cleanup: the asset is fetched to its
/// name and marked executable, the working directory is listed, and every
/// entry but the release's directory is handed out for removal, that
/// directory never. Whatever the removals did, the resolution then caches
/// and returns the asset's name.
pub proof fn fresh_download_removes_the_stale(
    release: ReleaseView,
    os: Os,
    arch: Architecture,
    plan: PlanView,
    entries: Seq<Seq<char>>,
)
    requires
        plan_of(release, os, arch) == Ok::<PlanView, ResolveErrorView>(plan),
    ensures
        run(
            at_rest(None),
            events_until_probe(release, os, arch, false) + seq![
                EventView::Downloaded(Ok(())),
                EventView::MadeExecutable(Ok(())),
                EventView::Listed(Ok(entries)),
                EventView::Removed,
            ],
        ) == (
            at_rest(Some(plan.asset_name)),
            actions_until_probe(plan) + seq![
                ActionView::Download {
                    status: InstallationStatus::Downloading,
                    url: plan.download_url,
                    target: plan.asset_name,
                },
                ActionView::MakeExecutable(plan.asset_name),
                ActionView::ListWorkingDirectory,
                ActionView::Remove(stale_of(entries, plan.version_dir)),
                ActionView::Finish(Ok(plan.asset_name)),
            ],
        ),
        !stale_of(entries, plan.version_dir).contains(plan.version_dir),
        forall|i: int|
            0 <= i < entries.len() && entries[i] != plan.version_dir ==> stale_of(
                entries,
                plan.version_dir,
            ).contains(#[trigger] entries[i]),
{
    resolution_leads_to_probe(release, os, arch, plan);
    stale_entries_spare_exactly_the_kept(entries, plan.version_dir);
    let pre = at_rest(None);
    let e5 = events_until_probe(release, os, arch, false);
    let e6 = e5.push(EventView::Downloaded(Ok(())));
    let e7 = e6.push(EventView::MadeExecutable(Ok(())));
    let e8 = e7.push(EventView::Listed(Ok(entries)));
    let e9 = e8.push(EventView::Removed);
    run_extends(pre, e5.drop_last(), EventView::FileProbed(false));
    assert(e5.drop_last().push(EventView::FileProbed(false)) =~= e5);
    run_extends(pre, e5, EventView::Downloaded(Ok(())));
    run_extends(pre, e6, EventView::MadeExecutable(Ok(())));
    run_extends(pre, e7, EventView::Listed(Ok(entries)));
    run_extends(pre, e8, EventView::Removed);
    assert(e9 =~= e5 + seq![
        EventView::Downloaded(Ok(())),
        EventView::MadeExecutable(Ok(())),
        EventView::Listed(Ok(entries)),
        EventView::Removed,
    ]);
    assert(run(pre, e9).1 =~= actions_until_probe(plan) + seq![
        ActionView::Download {
            status: InstallationStatus::Downloading,
            url: plan.download_url,
            target: plan.asset_name,
        },
        ActionView::MakeExecutable(plan.asset_name),
        ActionView::ListWorkingDirectory,
        ActionView::Remove(stale_of(entries, plan.version_dir)),
        ActionView::Finish(Ok(plan.asset_name)),
    ]);
}

/// Every move that ends a resolution leaves the resolver at rest. A
/// failure leaves the cache as it was; a success leaves in it the very
/// path that is returned.
pub proof fn finish_settles_the_cache(pre: ExtensionView, event: EventView)
    ensures
        match next(pre, event).1 {
            ActionView::Finish(Ok(path)) => next(pre, event).0 == at_rest(Some(path)),
            ActionView::Finish(Err(_)) => next(pre, event).0 == at_rest(pre.cached),
            _ => next(pre, event).0.cached == pre.cached && next(pre, event).0.stage
                != StageView::Idle,
        },
{
}

/// How far a resolution has come: the number of the stage among the stages
/// in the order in which a resolution passes them.
pub open spec fn progress(stage: StageView) -> nat {
    match stage {
        StageView::Idle => 0,
        StageView::CheckingCache => 1,
        StageView::AwaitingRelease => 2,
        StageView::AwaitingPlatform(_) => 3,
        StageView::CreatingDirectory(_) => 4,
        StageView::ProbingAsset(_) => 5,
        StageView::Downloading(_) => 6,
        StageView::MarkingExecutable(_) => 7,
        StageView::Listing(_) => 8,
        StageView::Removing(_) => 9,
    }
}

/// Every move either ends the resolution or takes it to a later stage, so
/// a resolution is over after ten moves at most, whatever the events are.
pub proof fn moves_advance(pre: ExtensionView, event: EventView)
    ensures
        next(pre, event).1 is Finish || progress(pre.stage) < progress(next(pre, event).0.stage)
            <= 9,
{
}

} // verus!
