//! What holds of whole operations, on a host that carries out what it is asked.
use crate::appimage::AppImageView;
use crate::desktop::{
    entry_path_of, icon_dir_of, icon_path_of, integration_next, probe_icons, published_path_of,
    DesktopView, IntegrationView, ICON_SIZES,
};
use crate::downloader::lemma_part_path_differs;
use crate::host::{
    answers_from, asked_from, effect, effects, is_below, issue, lemma_run_append,
    lemma_script_follows_plan, run, script_next, script_steps, with_pending, ActionView, EventView,
    ScriptView, TaskView,
};
use crate::index::{add_plan, fetch_next, record_path_of, FetchView, IndexView};
use crate::manager::{
    already_installed, commit_plan, deleted_if_present, install_next, placed, removal_next,
    removal_plan, update_next, InstallView, Installed, PackageManagerView, RemovalView, UpdateView,
};
use crate::paths::join;
use crate::symlink::link_path_of;
use crate::text::{lemma_next_with_extension, next_with_extension};
use vstd::prelude::*;

verus! {

/// The file that an entry of a plan deletes, where the entry does nothing else.
pub open spec fn deletes(task: TaskView, path: Seq<char>) -> bool {
    task == TaskView::Do(ActionView::RemoveFile { path }) || task == deleted_if_present(path)
}

/// Every entry of the plan deletes one file and does nothing else.
pub open spec fn only_deletes(plan: Seq<TaskView>) -> bool {
    forall|k: int| 0 <= k < plan.len() ==> exists|path: Seq<char>| deletes(#[trigger] plan[k], path)
}

/// After a plan that only deletes, nothing is at a path that one of its
/// entries names, and nothing is anywhere that was not there before.
pub proof fn lemma_deleting_plan(plan: Seq<TaskView>, at: int, world: Set<Seq<char>>)
    requires
        only_deletes(plan),
        0 <= at <= plan.len(),
    ensures
        forall|k: int, path: Seq<char>|
            at <= k < plan.len() && #[trigger] deletes(plan[k], path) ==> !effects(
                asked_from(plan, at, world),
                world,
            ).contains(path),
        effects(asked_from(plan, at, world), world).subset_of(world),
    decreases plan.len() - at,
{
    if at < plan.len() {
        let path = choose|path: Seq<char>| deletes(plan[at], path);
        let probe = ActionView::Probe { path };
        let delete = ActionView::RemoveFile { path };
        if plan[at] == TaskView::Do(delete) || world.contains(path) {
            let later = world.remove(path);
            let rest = asked_from(plan, at + 1, later);
            lemma_deleting_plan(plan, at + 1, later);
            if plan[at] == TaskView::Do(delete) {
                assert((seq![delete] + rest).drop_first() =~= rest);
            } else {
                let all = seq![probe, delete] + rest;
                assert(all.drop_first() =~= seq![delete] + rest);
                assert(all.drop_first().drop_first() =~= rest);
                assert(effects(all, world) == effects(all.drop_first(), world));
            }
            assert(effects(asked_from(plan, at, world), world) == effects(rest, later));
        } else {
            let rest = asked_from(plan, at + 1, world);
            lemma_deleting_plan(plan, at + 1, world);
            assert((seq![probe] + rest).drop_first() =~= rest);
            assert(effects(asked_from(plan, at, world), world) == effects(rest, world));
        }
    }
}

/// The step function of the removal of the bundle kept under `appname`.
pub open spec fn removal_steps(pm: PackageManagerView, appname: Seq<char>) -> spec_fn(
    RemovalView,
    EventView,
) -> (RemovalView, Option<ActionView>) {
    |state: RemovalView, event: EventView| removal_next(pm, appname, state, event)
}

/// The state of a removal whose deletions stand at `script`.
pub open spec fn deleting_at(record: AppImageView, script: ScriptView) -> RemovalView {
    match script {
        ScriptView::Done => RemovalView::Done,
        ScriptView::Failed(e) => RemovalView::Failed(e),
        _ => RemovalView::Deleting { record, script },
    }
}

proof fn lemma_deleting_follows_script(
    pm: PackageManagerView,
    appname: Seq<char>,
    record: AppImageView,
    script: ScriptView,
    events: Seq<EventView>,
)
    ensures
        run(removal_steps(pm, appname), deleting_at(record, script), events).0 == deleting_at(
            record,
            run(script_steps(removal_plan(pm, record, appname)), script, events).0,
        ),
        run(removal_steps(pm, appname), deleting_at(record, script), events).1 == run(
            script_steps(removal_plan(pm, record, appname)),
            script,
            events,
        ).1,
    decreases events.len(),
{
    let plan = removal_plan(pm, record, appname);
    if events.len() > 0 {
        let inner = script_steps(plan)(script, events[0]);
        assert(inner == script_next(plan, script, events[0]));
        let outer = removal_steps(pm, appname)(deleting_at(record, script), events[0]);
        assert(outer == removal_next(pm, appname, deleting_at(record, script), events[0]));
        assert(outer.0 == deleting_at(record, inner.0));
        assert(outer.1 == inner.1);
        lemma_deleting_follows_script(pm, appname, record, inner.0, events.drop_first());
    }
}

/// A removal that the host carries out leaves nothing behind.
///
/// The host hands over the record kept under `appname` and then carries out
/// every deletion. The removal reads the record, runs its plan and ends well.
/// Afterwards nothing is at the bundle's path, at its link or at its record,
/// nor at the two desktop entries or the icon.
pub proof fn lemma_removal_is_complete(
    pm: PackageManagerView,
    appname: Seq<char>,
    record: AppImageView,
    world: Set<Seq<char>>,
)
    ensures
        ({
            let plan = removal_plan(pm, record, appname);
            let events = seq![EventView::Begin, EventView::Record(record)] + answers_from(
                plan,
                0,
                world,
            );
            let r = run(removal_steps(pm, appname), RemovalView::Start, events);
            let after = effects(r.1, world);
            &&& r.0 == RemovalView::Done
            &&& r.1 == seq![ActionView::ReadRecord { path: record_path_of(pm.index, appname) }]
                + asked_from(plan, 0, world)
            &&& !after.contains(record.file_path)
            &&& !after.contains(link_path_of(pm.symlink_manager, record.executable))
            &&& !after.contains(record_path_of(pm.index, appname))
            &&& !after.contains(entry_path_of(record, pm.desktop))
            &&& !after.contains(published_path_of(record, pm.desktop))
            &&& !after.contains(icon_path_of(record, pm.desktop))
        }),
{
    let plan = removal_plan(pm, record, appname);
    let next = removal_steps(pm, appname);
    let answers = answers_from(plan, 0, world);
    let events = seq![EventView::Begin, EventView::Record(record)] + answers;
    let read = ActionView::ReadRecord { path: record_path_of(pm.index, appname) };
    assert(plan.len() == 6);
    assert(plan[0] == TaskView::Do(ActionView::RemoveFile { path: record.file_path }));
    assert(plan[1] == TaskView::Do(
        ActionView::RemoveFile { path: link_path_of(pm.symlink_manager, record.executable) },
    ));
    assert(plan[2] == TaskView::Do(
        ActionView::RemoveFile { path: record_path_of(pm.index, appname) },
    ));
    assert(plan[3] == deleted_if_present(entry_path_of(record, pm.desktop)));
    assert(plan[4] == deleted_if_present(published_path_of(record, pm.desktop)));
    assert(plan[5] == deleted_if_present(icon_path_of(record, pm.desktop)));
    assert(deletes(plan[0], record.file_path));
    assert(deletes(plan[1], link_path_of(pm.symlink_manager, record.executable)));
    assert(deletes(plan[2], record_path_of(pm.index, appname)));
    assert(deletes(plan[3], entry_path_of(record, pm.desktop)));
    assert(deletes(plan[4], published_path_of(record, pm.desktop)));
    assert(deletes(plan[5], icon_path_of(record, pm.desktop)));
    assert(only_deletes(plan));
    lemma_deleting_plan(plan, 0, world);
    lemma_script_follows_plan(plan, 0, world);

    let first = next(RemovalView::Start, events[0]);
    assert(first == removal_next(pm, appname, RemovalView::Start, EventView::Begin));
    assert(first == (RemovalView::Loading(FetchView::Reading), Some(read)));
    let middle = events.drop_first();
    assert(middle =~= seq![EventView::Record(record)] + answers);
    let second = next(first.0, middle[0]);
    assert(second == removal_next(pm, appname, first.0, EventView::Record(record)));
    let begun = issue(plan, 0);
    assert(second == (deleting_at(record, begun.0), begun.1));
    assert(middle.drop_first() =~= answers);
    lemma_deleting_follows_script(pm, appname, record, begun.0, answers);
    let inner = run(script_steps(plan), begun.0, answers);
    let rest = run(next, second.0, answers);
    assert(rest.1 == inner.1);
    assert(run(next, first.0, middle).1 == with_pending(second.1, rest.1));
    let r = run(next, RemovalView::Start, events);
    assert(r.1 == seq![read] + asked_from(plan, 0, world));
    assert(r.1.drop_first() =~= asked_from(plan, 0, world));
    assert(effects(r.1, world) == effects(asked_from(plan, 0, world), world));
}

/// A removal does not stumble over desktop files that were never made.
///
/// Where nothing is at the two desktop entries and the icon, the removal asks
/// whether they are there and deletes none of them: the bundle, the link and
/// the record are all that it deletes.
pub proof fn lemma_removal_passes_over_what_is_absent(
    pm: PackageManagerView,
    appname: Seq<char>,
    record: AppImageView,
    world: Set<Seq<char>>,
)
    requires
        !world.contains(entry_path_of(record, pm.desktop)),
        !world.contains(published_path_of(record, pm.desktop)),
        !world.contains(icon_path_of(record, pm.desktop)),
    ensures
        asked_from(removal_plan(pm, record, appname), 0, world) == seq![
            ActionView::RemoveFile { path: record.file_path },
            ActionView::RemoveFile { path: link_path_of(pm.symlink_manager, record.executable) },
            ActionView::RemoveFile { path: record_path_of(pm.index, appname) },
            ActionView::Probe { path: entry_path_of(record, pm.desktop) },
            ActionView::Probe { path: published_path_of(record, pm.desktop) },
            ActionView::Probe { path: icon_path_of(record, pm.desktop) },
        ],
{
    let plan = removal_plan(pm, record, appname);
    let w1 = world.remove(record.file_path);
    let w2 = w1.remove(link_path_of(pm.symlink_manager, record.executable));
    let w3 = w2.remove(record_path_of(pm.index, appname));
    assert(plan.len() == 6);
    assert(asked_from(plan, 6, w3) =~= Seq::<ActionView>::empty());
    assert(asked_from(plan, 5, w3) =~= seq![
        ActionView::Probe { path: icon_path_of(record, pm.desktop) },
    ]);
    assert(asked_from(plan, 4, w3) =~= seq![
        ActionView::Probe { path: published_path_of(record, pm.desktop) },
        ActionView::Probe { path: icon_path_of(record, pm.desktop) },
    ]);
    assert(asked_from(plan, 3, w3) =~= seq![
        ActionView::Probe { path: entry_path_of(record, pm.desktop) },
        ActionView::Probe { path: published_path_of(record, pm.desktop) },
        ActionView::Probe { path: icon_path_of(record, pm.desktop) },
    ]);
    assert(asked_from(plan, 2, w2) =~= seq![
        ActionView::RemoveFile { path: record_path_of(pm.index, appname) },
    ] + asked_from(plan, 3, w3));
    assert(asked_from(plan, 1, w1) =~= seq![
        ActionView::RemoveFile { path: link_path_of(pm.symlink_manager, record.executable) },
    ] + asked_from(plan, 2, w2));
    assert(asked_from(plan, 0, world) =~= seq![
        ActionView::RemoveFile { path: record.file_path },
    ] + asked_from(plan, 1, w1));
}

/// The step function of the installation of a record; the record is carried
/// along with the state.
pub open spec fn install_steps(pm: PackageManagerView) -> spec_fn(
    (AppImageView, InstallView),
    EventView,
) -> ((AppImageView, InstallView), Option<ActionView>) {
    |state: (AppImageView, InstallView), event: EventView|
        {
            let step = install_next(pm, state.0, state.1, event);
            ((step.record, step.state), step.action)
        }
}

proof fn lemma_install_rests(
    pm: PackageManagerView,
    record: AppImageView,
    state: InstallView,
    events: Seq<EventView>,
)
    requires
        state is Noticing || state is Done || state is Failed,
    ensures
        run(install_steps(pm), (record, state), events).1 == Seq::<ActionView>::empty(),
        run(install_steps(pm), (record, state), events).0.0 == record,
        state is Done || state is Failed ==> run(
            install_steps(pm),
            (record, state),
            events,
        ).0.1 == state,
        state is Noticing && events.len() > 0 && events[0] == EventView::Done ==> run(
            install_steps(pm),
            (record, state),
            events,
        ).0.1 == InstallView::Done(Installed::AlreadyInstalled),
    decreases events.len(),
{
    if events.len() > 0 {
        let step = install_next(pm, record, state, events[0]);
        let first = install_steps(pm)((record, state), events[0]);
        assert(first == ((step.record, step.state), step.action));
        lemma_install_rests(pm, record, step.state, events.drop_first());
    }
}

/// Installing what is installed does nothing.
///
/// Where the index answers that it holds the executable, the installation
/// asks for that probe and for the notice to the user, and for nothing else
/// whatever the host answers from then on: nothing is fetched and nothing is
/// written. The record stays as it was, and once the notice is shown the
/// installation has ended as `AlreadyInstalled`.
pub proof fn lemma_installing_again_does_nothing(
    pm: PackageManagerView,
    record: AppImageView,
    later: Seq<EventView>,
)
    ensures
        ({
            let events = seq![EventView::Begin, EventView::Exists(true)] + later;
            let r = run(install_steps(pm), (record, InstallView::Start), events);
            &&& r.1 == seq![
                ActionView::Probe { path: record_path_of(pm.index, record.executable) },
                ActionView::Say { text: already_installed(record.executable) },
            ]
            &&& r.0.0 == record
            &&& later.len() > 0 && later[0] == EventView::Done ==> r.0.1 == InstallView::Done(
                Installed::AlreadyInstalled,
            )
        }),
{
    let next = install_steps(pm);
    let events = seq![EventView::Begin, EventView::Exists(true)] + later;
    let probe = ActionView::Probe { path: record_path_of(pm.index, record.executable) };
    let notice = ActionView::Say { text: already_installed(record.executable) };
    let one = install_next(pm, record, InstallView::Start, events[0]);
    let first = next((record, InstallView::Start), events[0]);
    assert(first == ((one.record, one.state), one.action));
    assert(one.action == Some(probe));
    let middle = events.drop_first();
    assert(middle =~= seq![EventView::Exists(true)] + later);
    let two = install_next(pm, one.record, one.state, middle[0]);
    let second = next(first.0, middle[0]);
    assert(second == ((two.record, two.state), two.action));
    assert(two.state == InstallView::Noticing);
    assert(two.action == Some(notice));
    assert(middle.drop_first() =~= later);
    lemma_install_rests(pm, record, InstallView::Noticing, later);
    let rest = run(next, second.0, later);
    assert(run(next, first.0, middle).1 =~= seq![notice]);
    assert(run(next, (record, InstallView::Start), events).1 =~= seq![probe, notice]);
}

/// An update fetches the bundle and touches nothing else of the installation:
/// at no step does it ask for a record to be written or for a link to be made.
pub proof fn lemma_update_only_fetches(
    pm: PackageManagerView,
    record: AppImageView,
    state: UpdateView,
    event: EventView,
)
    ensures
        update_next(pm, record, state, event).1 matches Some(action) ==> !(action is WriteRecord)
            && !(action is Symlink) && !(action is ReadRecord),
{
}

/// The index reads what it wrote.
///
/// The file that the record kept under `name` is read from is the file that
/// it is written to, and a record that the host hands over for it is the
/// record that the reading ends with, unchanged.
pub proof fn lemma_index_reads_what_it_wrote(index: IndexView, name: Seq<char>, record: AppImageView)
    ensures
        add_plan(index, record, name).last() == TaskView::Do(
            ActionView::WriteRecord { path: record_path_of(index, name), record },
        ),
        fetch_next(index, name, FetchView::Start, EventView::Begin) == (
            FetchView::Reading,
            Some(ActionView::ReadRecord { path: record_path_of(index, name) }),
        ),
        fetch_next(index, name, FetchView::Reading, EventView::Record(record)) == (
            FetchView::Done(record),
            None::<ActionView>,
        ),
{
}

/// The step function of the integration of a bundle into the desktop.
pub open spec fn integration_steps(record: AppImageView, d: DesktopView) -> spec_fn(
    IntegrationView,
    EventView,
) -> (IntegrationView, Option<ActionView>) {
    |state: IntegrationView, event: EventView| integration_next(record, d, state, event)
}

/// The action asked last: the last of `actions`, or the one asked before them.
pub open spec fn asked_last(pending: Option<ActionView>, actions: Seq<ActionView>) -> Option<
    ActionView,
> {
    if actions.len() > 0 {
        Some(actions.last())
    } else {
        pending
    }
}

/// An integration that is cleaning up or over has asked for the removal of
/// the scratch directory last.
pub open spec fn tidy(d: DesktopView, state: IntegrationView, last: Option<ActionView>) -> bool {
    state is Cleaning || state is Done || state is Failed ==> last == Some(
        ActionView::RemoveTree { path: d.scratch },
    )
}

proof fn lemma_integration_stays_tidy(
    record: AppImageView,
    d: DesktopView,
    state: IntegrationView,
    pending: Option<ActionView>,
    events: Seq<EventView>,
)
    requires
        tidy(d, state, pending),
    ensures
        tidy(
            d,
            run(integration_steps(record, d), state, events).0,
            asked_last(pending, run(integration_steps(record, d), state, events).1),
        ),
    decreases events.len(),
{
    let next = integration_steps(record, d);
    if events.len() > 0 {
        let step = next(state, events[0]);
        assert(step == integration_next(record, d, state, events[0]));
        let carried = if step.1 is Some {
            step.1
        } else {
            pending
        };
        assert(tidy(d, step.0, carried));
        lemma_integration_stays_tidy(record, d, step.0, carried, events.drop_first());
        let rest = run(next, step.0, events.drop_first());
        match step.1 {
            Some(action) => {
                let all = seq![action] + rest.1;
                if rest.1.len() > 0 {
                    assert(all.last() == rest.1.last());
                } else {
                    assert(all.last() == action);
                }
            },
            None => {},
        }
    }
}

/// An integration never ends without removing the scratch directory.
///
/// Whatever the host answers, and whether the integration ends well or in a
/// failure, the last thing it asked for is the removal of the scratch
/// directory.
pub proof fn lemma_integration_always_cleans_up(
    record: AppImageView,
    d: DesktopView,
    events: Seq<EventView>,
)
    ensures
        ({
            let r = run(integration_steps(record, d), IntegrationView::Start, events);
            r.0 is Done || r.0 is Failed ==> r.1.len() > 0 && r.1.last() == (
                ActionView::RemoveTree { path: d.scratch })
        }),
{
    lemma_integration_stays_tidy(record, d, IntegrationView::Start, None, events);
}

/// The world once the action asked, if one was, is carried out.
pub open spec fn carried_out(action: Option<ActionView>, world: Set<Seq<char>>) -> Set<Seq<char>> {
    match action {
        Some(action) => effect(action, world),
        None => world,
    }
}

/// The installation has asked for the bundle to be moved to its place.
pub open spec fn has_fetched(state: InstallView) -> bool {
    match state {
        InstallView::Downloading { transfer, .. } => transfer is Renaming || transfer is Marking
            || transfer is Done,
        InstallView::Committing(_) => true,
        InstallView::Asking => true,
        InstallView::Integrating(_) => true,
        InstallView::Done(how) => how is Fresh,
        _ => false,
    }
}

/// The installation has asked for its record to be written.
pub open spec fn has_indexed(state: InstallView) -> bool {
    match state {
        InstallView::Committing(ScriptView::Doing(at)) => at >= 1,
        InstallView::Committing(ScriptView::Probing(_)) => true,
        InstallView::Committing(ScriptView::Done) => true,
        InstallView::Asking => true,
        InstallView::Integrating(_) => true,
        InstallView::Done(how) => how is Fresh,
        _ => false,
    }
}

/// The installation has asked for its link to be made.
pub open spec fn has_linked(state: InstallView) -> bool {
    match state {
        InstallView::Committing(ScriptView::Doing(at)) => at >= 4,
        InstallView::Committing(ScriptView::Done) => true,
        InstallView::Asking => true,
        InstallView::Integrating(_) => true,
        InstallView::Done(how) => how is Fresh,
        _ => false,
    }
}

/// The bundle of the installation has its place.
pub open spec fn has_place(state: InstallView) -> bool {
    match state {
        InstallView::Start => false,
        InstallView::Probing(_) => false,
        InstallView::Noticing => false,
        InstallView::Done(how) => how is Fresh,
        InstallView::Failed(_) => false,
        _ => true,
    }
}

/// The bundle, the record and the link of an installation.
pub open spec fn artifacts(pm: PackageManagerView, record: AppImageView) -> (
    Seq<char>,
    Seq<char>,
    Seq<char>,
) {
    (
        record.file_path,
        record_path_of(pm.index, record.executable),
        link_path_of(pm.symlink_manager, record.executable),
    )
}

/// None of the three lies in the scratch directory, which an integration removes.
pub open spec fn apart_from_scratch(
    pm: PackageManagerView,
    record: AppImageView,
) -> bool {
    let (bundle, index, link) = artifacts(pm, record);
    !is_below(pm.desktop.scratch, bundle) && !is_below(pm.desktop.scratch, index) && !is_below(
        pm.desktop.scratch,
        link,
    )
}

/// What an installation has asked to be made is there.
///
/// One moment is left out: while a file at the link's path is being removed
/// to make room for the link, a bundle or a record at that very path is gone
/// too, until the link is made.
pub open spec fn installed_stands(
    pm: PackageManagerView,
    record: AppImageView,
    state: InstallView,
    world: Set<Seq<char>>,
) -> bool {
    let (bundle, index, link) = artifacts(pm, record);
    let replacing = state == InstallView::Committing(ScriptView::Doing(3));
    &&& state matches InstallView::Committing(ScriptView::Probing(at)) ==> at == 3
    &&& has_place(state) ==> record == placed(pm, record)
    &&& has_fetched(state) ==> world.contains(bundle) || (replacing && bundle == link)
    &&& has_indexed(state) ==> world.contains(index) || (replacing && index == link)
    &&& has_linked(state) ==> world.contains(link)
}

proof fn lemma_integration_spares(
    record: AppImageView,
    d: DesktopView,
    state: IntegrationView,
    event: EventView,
    world: Set<Seq<char>>,
    path: Seq<char>,
)
    requires
        world.contains(path),
        !is_below(d.scratch, path),
    ensures
        carried_out(integration_next(record, d, state, event).1, world).contains(path),
{
}

proof fn lemma_installed_stands_on(
    pm: PackageManagerView,
    record: AppImageView,
    state: InstallView,
    event: EventView,
    world: Set<Seq<char>>,
)
    requires
        apart_from_scratch(pm, placed(pm, record)),
        installed_stands(pm, record, state, world),
    ensures
        ({
            let step = install_next(pm, record, state, event);
            &&& installed_stands(
                pm,
                step.record,
                step.state,
                carried_out(step.action, world),
            )
            &&& placed(pm, step.record) == placed(pm, record)
        }),
{
    let step = install_next(pm, record, state, event);
    let (bundle, index, link) = artifacts(pm, record);
    let plan = commit_plan(pm, record);
    assert(plan.len() == 5);
    assert(plan[0] == TaskView::Do(ActionView::EnsureDir { path: pm.index.dir }));
    assert(plan[1] == TaskView::Do(ActionView::WriteRecord { path: index, record }));
    assert(plan[2] == TaskView::Do(ActionView::EnsureDir { path: pm.symlink_manager.dir }));
    assert(plan[3] == TaskView::DoIfExists {
        path: link,
        action: ActionView::RemoveFile { path: link },
    });
    assert(plan[4] == TaskView::Do(ActionView::Symlink { target: record.file_path, link }));
    lemma_part_path_differs(bundle);
    match state {
        InstallView::Asking => {
            let begin = EventView::Begin;
            let start = IntegrationView::Start;
            lemma_integration_spares(record, pm.desktop, start, begin, world, bundle);
            lemma_integration_spares(record, pm.desktop, start, begin, world, index);
            lemma_integration_spares(record, pm.desktop, start, begin, world, link);
        },
        InstallView::Integrating(integration) => {
            lemma_integration_spares(record, pm.desktop, integration, event, world, bundle);
            lemma_integration_spares(record, pm.desktop, integration, event, world, index);
            lemma_integration_spares(record, pm.desktop, integration, event, world, link);
        },
        _ => {},
    }
}

proof fn lemma_installed_keeps_standing(
    pm: PackageManagerView,
    record: AppImageView,
    state: InstallView,
    events: Seq<EventView>,
    world: Set<Seq<char>>,
)
    requires
        apart_from_scratch(pm, placed(pm, record)),
        installed_stands(pm, record, state, world),
    ensures
        ({
            let r = run(install_steps(pm), (record, state), events);
            &&& installed_stands(pm, r.0.0, r.0.1, effects(r.1, world))
            &&& placed(pm, r.0.0) == placed(pm, record)
        }),
    decreases events.len(),
{
    let next = install_steps(pm);
    if events.len() > 0 {
        let step = install_next(pm, record, state, events[0]);
        let first = next((record, state), events[0]);
        assert(first == ((step.record, step.state), step.action));
        lemma_installed_stands_on(pm, record, state, events[0], world);
        let later = carried_out(step.action, world);
        lemma_installed_keeps_standing(
            pm,
            step.record,
            step.state,
            events.drop_first(),
            later,
        );
        let rest = run(next, first.0, events.drop_first());
        match step.action {
            Some(action) => {
                assert((seq![action] + rest.1).drop_first() =~= rest.1);
            },
            None => {},
        }
    }
}

/// An installation that ends well leaves the bundle, its record and its link.
///
/// Whatever the host answered on the way: once the installation of `record`
/// has ended as `Fresh`, and the host has carried out what was asked of it,
/// the bundle is at the place that was prepared for it, the record is in the
/// index under the executable's name, and the link is in the directory of
/// executables.
///
/// None of the three may lie below the scratch directory, which the
/// installation removes where it integrates the bundle.
pub proof fn lemma_install_leaves_all_three(
    pm: PackageManagerView,
    record: AppImageView,
    events: Seq<EventView>,
    world: Set<Seq<char>>,
)
    requires
        apart_from_scratch(pm, placed(pm, record)),
        run(
            install_steps(pm),
            (record, InstallView::Start),
            events,
        ).0.1 matches InstallView::Done(how) && how is Fresh,
    ensures
        ({
            let r = run(install_steps(pm), (record, InstallView::Start), events);
            let after = effects(r.1, world);
            &&& r.0.0 == placed(pm, record)
            &&& after.contains(r.0.0.file_path)
            &&& after.contains(record_path_of(pm.index, record.executable))
            &&& after.contains(link_path_of(pm.symlink_manager, record.executable))
        }),
{
    lemma_installed_keeps_standing(pm, record, InstallView::Start, events, world);
}

/// Installing twice does the work once.
///
/// A first installation has ended as `Fresh`, and the host has carried out
/// what it asked for. Then the record's file is there, so a host that answers
/// truly tells every later installation of a record with the same executable
/// that the index holds it; and that installation asks for the probe and for
/// the notice to the user, and for nothing else, whatever name or source the
/// second record was given.
pub proof fn lemma_installing_twice_works_once(
    pm: PackageManagerView,
    record: AppImageView,
    again: AppImageView,
    first: Seq<EventView>,
    second: Seq<EventView>,
    world: Set<Seq<char>>,
)
    requires
        again.executable == record.executable,
        apart_from_scratch(pm, placed(pm, record)),
        run(
            install_steps(pm),
            (record, InstallView::Start),
            first,
        ).0.1 matches InstallView::Done(how) && how is Fresh,
    ensures
        ({
            let probed = record_path_of(pm.index, record.executable);
            let once = run(install_steps(pm), (record, InstallView::Start), first);
            let answer = EventView::Exists(effects(once.1, world).contains(probed));
            let twice = run(
                install_steps(pm),
                (again, InstallView::Start),
                seq![EventView::Begin, answer] + second,
            );
            &&& answer == EventView::Exists(true)
            &&& twice.1 == seq![
                ActionView::Probe { path: probed },
                ActionView::Say { text: already_installed(record.executable) },
            ]
            &&& twice.0.0 == again
        }),
{
    lemma_install_leaves_all_three(pm, record, first, world);
    lemma_installing_again_does_nothing(pm, again, second);
}

/// The position of the first PNG file among the names.
pub open spec fn first_png(names: Seq<Seq<char>>) -> int {
    next_with_extension(names, 0, "png"@)
}

/// The first icon size at or after `at` whose directory is there and holds a
/// PNG file; the number of sizes where there is none. `dirs` gives for each
/// size what its directory holds, if it is there.
pub open spec fn first_icon_size(dirs: Seq<Option<Seq<Seq<char>>>>, at: int) -> int
    decreases ICON_SIZES - at,
{
    if at < 0 || at >= ICON_SIZES || at >= dirs.len() {
        ICON_SIZES as int
    } else if dirs[at] is Some && first_png(dirs[at]->0) < dirs[at]->0.len() {
        at
    } else {
        first_icon_size(dirs, at + 1)
    }
}

/// What a truthful host answers while the icon is looked for from the size
/// at `at` on: its answers end with the listing of the first directory that
/// holds a PNG file.
pub open spec fn icon_answers(dirs: Seq<Option<Seq<Seq<char>>>>, at: int) -> Seq<EventView>
    decreases ICON_SIZES - at,
{
    if at < 0 || at >= ICON_SIZES || at >= dirs.len() {
        Seq::empty()
    } else {
        match dirs[at] {
            None => seq![EventView::Exists(false)] + icon_answers(dirs, at + 1),
            Some(names) => if first_png(names) < names.len() {
                seq![EventView::Exists(true), EventView::Entries(names)]
            } else {
                seq![EventView::Exists(true), EventView::Entries(names)] + icon_answers(
                    dirs,
                    at + 1,
                )
            },
        }
    }
}

/// The largest icon that is there is the one installed.
///
/// The sizes are gone through from the one at `at` down. The search ends at
/// the first size whose directory is there and holds a PNG file: the last
/// thing asked for is the copy of that directory's first PNG file to the
/// icon's place, and no smaller size is looked at. Where no size has one, the
/// search ends without an icon.
pub proof fn lemma_first_icon_wins(
    record: AppImageView,
    d: DesktopView,
    dirs: Seq<Option<Seq<Seq<char>>>>,
    at: int,
)
    requires
        dirs.len() == ICON_SIZES,
        0 <= at <= ICON_SIZES,
    ensures
        ({
            let begun = probe_icons(d, at);
            let r = run(integration_steps(record, d), begun.0, icon_answers(dirs, at));
            let size = first_icon_size(dirs, at);
            if size < ICON_SIZES {
                let names = dirs[size]->0;
                &&& at <= size
                &&& dirs[size] is Some
                &&& 0 <= first_png(names) < names.len()
                &&& r.0 == IntegrationView::CopyingIcon
                &&& asked_last(begun.1, r.1) == Some(
                    ActionView::CopyFile {
                        from: join(icon_dir_of(d, size), names[first_png(names)]),
                        to: icon_path_of(record, d),
                    },
                )
            } else {
                r.0 == (IntegrationView::ListingRoot { icon_found: false })
            }
        }),
    decreases ICON_SIZES - at,
{
    let next = integration_steps(record, d);
    let begun = probe_icons(d, at);
    let answers = icon_answers(dirs, at);
    if at < ICON_SIZES {
        let onward = probe_icons(d, at + 1);
        let rest = icon_answers(dirs, at + 1);
        match dirs[at] {
            None => {
                let head = seq![EventView::Exists(false)];
                lemma_first_icon_wins(record, d, dirs, at + 1);
                lemma_run_append(next, begun.0, head, rest);
                let one = next(begun.0, head[0]);
                assert(one == integration_next(record, d, begun.0, head[0]));
                assert(one == onward);
                assert(head.drop_first() =~= Seq::<EventView>::empty());
                assert(run(next, one.0, head.drop_first()) == (one.0, Seq::<ActionView>::empty()));
                assert(run(next, begun.0, head).0 == onward.0);
                assert(run(next, begun.0, head).1 =~= seq![onward.1->0]);
                let tail = run(next, onward.0, rest);
                let all = run(next, begun.0, answers);
                assert(all.1 =~= seq![onward.1->0] + tail.1);
                assert(all.0 == tail.0);
                assert(asked_last(begun.1, all.1) == asked_last(onward.1, tail.1));
            },
            Some(names) => {
                lemma_next_with_extension(names, 0, "png"@);
                let head = seq![EventView::Exists(true), EventView::Entries(names)];
                let one = next(begun.0, head[0]);
                assert(one == integration_next(record, d, begun.0, head[0]));
                let two = next(one.0, head[1]);
                assert(two == integration_next(record, d, one.0, head[1]));
                assert(head.drop_first() =~= seq![EventView::Entries(names)]);
                assert(head.drop_first().drop_first() =~= Seq::<EventView>::empty());
                assert(run(next, two.0, Seq::<EventView>::empty()).1 =~= Seq::<ActionView>::empty());
                assert(run(next, one.0, head.drop_first()).1 =~= seq![two.1->0]);
                assert(run(next, begun.0, head).0 == two.0);
                assert(run(next, begun.0, head).1 =~= seq![one.1->0, two.1->0]);
                if first_png(names) < names.len() {
                    assert(answers == head);
                    assert(first_icon_size(dirs, at) == at);
                    assert(asked_last(begun.1, run(next, begun.0, head).1) == two.1);
                } else {
                    assert(two == onward);
                    lemma_first_icon_wins(record, d, dirs, at + 1);
                    lemma_run_append(next, begun.0, head, rest);
                    let tail = run(next, onward.0, rest);
                    let all = run(next, begun.0, answers);
                    assert(all.1 =~= seq![one.1->0, two.1->0] + tail.1);
                    assert(all.0 == tail.0);
                    assert(asked_last(begun.1, all.1) == asked_last(onward.1, tail.1));
                }
            },
        }
    } else {
        assert(answers =~= Seq::<EventView>::empty());
        assert(run(next, begun.0, answers) == (begun.0, Seq::<ActionView>::empty()));
    }
}

} // verus!
