//! The operations of the package manager: install, update, remove and list,
//! each put together from the steps of the index, the downloader, the links
//! and the desktop integration.
use crate::appimage::{locator_of, AppImage, AppImageView, Source, SourceView};
use crate::desktop::{
    desktop_of, entry_path_of, icon_path_of, integration_next, published_path_of, Desktop,
    DesktopView, Integration, IntegrationView,
};
use crate::downloader::{
    download_next, prepared_path, Download, DownloadView, Downloader, DownloaderView,
};
use crate::error::{Error, ErrorView};
use crate::github::{get_github_release_url, resolver_next, Resolver, ResolverView};
use crate::host::{
    run_script, script_next, Action, ActionView, Event, EventView, Script, ScriptView, Task,
    TaskView,
};
use crate::index::{
    add_plan, fetch_next, lookup_next, remove_plan, Fetch, FetchView, Index, IndexView, Lookup,
    LookupView,
};
use crate::paths::{appimages_dir_of, bin_dir_of, index_dir_of};
use crate::symlink::{create_plan, unlink_plan, SymlinkManager, SymlinkManagerView};
use crate::text::{
    chars_of, file_stem, join2, lowercase, lowercase_of, same_text, stem_of, trim, trim_range,
};
use vstd::prelude::*;

verus! {

/// The package manager of one user.
#[derive(Debug, Clone, PartialEq, Eq)]
pub struct PackageManager {
    pub downloader: Downloader,
    pub index: Index,
    pub symlink_manager: SymlinkManager,
    pub desktop: Desktop,
}

pub struct PackageManagerView {
    pub downloader: DownloaderView,
    pub index: IndexView,
    pub symlink_manager: SymlinkManagerView,
    pub desktop: DesktopView,
}

impl DeepView for PackageManager {
    type V = PackageManagerView;

    open spec fn deep_view(&self) -> PackageManagerView {
        PackageManagerView {
            downloader: self.downloader.deep_view(),
            index: self.index.deep_view(),
            symlink_manager: self.symlink_manager.deep_view(),
            desktop: self.desktop.deep_view(),
        }
    }
}

/// The package manager of the user whose home is `home`, on a system whose
/// temporary files lie in `temp`.
pub open spec fn manager_of(home: Seq<char>, temp: Seq<char>) -> PackageManagerView {
    PackageManagerView {
        downloader: DownloaderView { dir: appimages_dir_of(home) },
        index: IndexView { dir: index_dir_of(home) },
        symlink_manager: SymlinkManagerView { dir: bin_dir_of(home) },
        desktop: desktop_of(home, temp),
    }
}

/// How an installation ended.
#[derive(Debug, Clone, Copy, PartialEq, Eq, Structural)]
pub enum Installed {
    /// The index held the executable already: nothing was fetched or written.
    AlreadyInstalled,
    /// The bundle was fetched, indexed and linked.
    Fresh { integrated: bool },
}

/// How far an installation has come.
#[derive(Debug, Clone, PartialEq, Eq)]
pub enum Install {
    /// Nothing was asked yet.
    Start,
    /// The index is asked whether it holds the executable.
    Probing(Lookup),
    /// The user is told that the executable is installed already.
    Noticing,
    /// The bundle's URL is looked for among the repository's releases.
    Resolving(Resolver),
    /// The bundle is fetched from `url`.
    Downloading { url: String, transfer: Download },
    /// The record is written and the link made.
    Committing(Script),
    /// The user is asked whether the bundle is to be shown to the desktop.
    Asking,
    /// The bundle is shown to the desktop.
    Integrating(Integration),
    Done(Installed),
    Failed(Error),
}

pub enum InstallView {
    Start,
    Probing(LookupView),
    Noticing,
    Resolving(ResolverView),
    Downloading { url: Seq<char>, transfer: DownloadView },
    Committing(ScriptView),
    Asking,
    Integrating(IntegrationView),
    Done(Installed),
    Failed(ErrorView),
}

impl DeepView for Install {
    type V = InstallView;

    open spec fn deep_view(&self) -> InstallView {
        match self {
            Install::Start => InstallView::Start,
            Install::Probing(lookup) => InstallView::Probing(lookup.deep_view()),
            Install::Noticing => InstallView::Noticing,
            Install::Resolving(resolver) => InstallView::Resolving(resolver.deep_view()),
            Install::Downloading { url, transfer } => InstallView::Downloading {
                url: url@,
                transfer: transfer.deep_view(),
            },
            Install::Committing(script) => InstallView::Committing(script.deep_view()),
            Install::Asking => InstallView::Asking,
            Install::Integrating(integration) => InstallView::Integrating(
                integration.deep_view(),
            ),
            Install::Done(how) => InstallView::Done(*how),
            Install::Failed(e) => InstallView::Failed(e.deep_view()),
        }
    }
}

/// What a step of an installation gives: the record as it is after the step,
/// the next state, and the next action.
pub struct InstallStep {
    pub record: AppImageView,
    pub state: InstallView,
    pub action: Option<ActionView>,
}

/// What the user is told where the executable is installed already.
pub open spec fn already_installed(executable: Seq<char>) -> Seq<char> {
    executable + " is already installed."@
}

/// The question that follows an installation.
pub open spec fn integration_prompt() -> Seq<char> {
    "Do you want to integrate this appimage? (y/N) "@
}

/// Whether an answer, given in lower case, says yes: without the spaces at
/// its ends it is `y` or `yes`.
pub open spec fn is_yes(lowered: Seq<char>) -> bool {
    trim(lowered) == "y"@ || trim(lowered) == "yes"@
}

/// The plan that makes a fetched bundle an installed one: its record is
/// written to the index under the executable's name, which is the name that
/// an installation asks the index for, then its link is made.
pub open spec fn commit_plan(pm: PackageManagerView, record: AppImageView) -> Seq<
    TaskView,
> {
    add_plan(pm.index, record, record.executable) + create_plan(pm.symlink_manager, record)
}

/// An installation that failed.
pub open spec fn install_failed(record: AppImageView, e: ErrorView) -> InstallStep {
    InstallStep { record, state: InstallView::Failed(e), action: None }
}

/// One step of the integration that ends an installation.
pub open spec fn install_integrating(
    pm: PackageManagerView,
    record: AppImageView,
    integration: IntegrationView,
    event: EventView,
) -> InstallStep {
    let step = integration_next(record, pm.desktop, integration, event);
    match step.0 {
        IntegrationView::Done => InstallStep {
            record,
            state: InstallView::Done(Installed::Fresh { integrated: true }),
            action: None,
        },
        IntegrationView::Failed(e) => install_failed(record, e),
        _ => InstallStep { record, state: InstallView::Integrating(step.0), action: step.1 },
    }
}

/// One step of the writing of the record and the link; the user is asked
/// about the desktop once both are there.
pub open spec fn install_committing(
    pm: PackageManagerView,
    record: AppImageView,
    script: ScriptView,
    event: EventView,
) -> InstallStep {
    let step = script_next(commit_plan(pm, record), script, event);
    match step.0 {
        ScriptView::Done => InstallStep {
            record,
            state: InstallView::Asking,
            action: Some(ActionView::Ask { prompt: integration_prompt() }),
        },
        ScriptView::Failed(e) => install_failed(record, e),
        _ => InstallStep { record, state: InstallView::Committing(step.0), action: step.1 },
    }
}

/// One step of the transfer of an installation; the record is written only
/// once the bundle is in its place.
pub open spec fn install_downloading(
    pm: PackageManagerView,
    record: AppImageView,
    url: Seq<char>,
    transfer: DownloadView,
    event: EventView,
) -> InstallStep {
    let step = download_next(pm.downloader, url, record.file_path, transfer, event);
    match step.0 {
        DownloadView::Done => install_committing(
            pm,
            record,
            ScriptView::Start,
            EventView::Begin,
        ),
        DownloadView::Failed(e) => install_failed(record, e),
        _ => InstallStep {
            record,
            state: InstallView::Downloading { url, transfer: step.0 },
            action: step.1,
        },
    }
}

/// One step of the search for the URL of an installation's bundle.
pub open spec fn install_resolving(
    pm: PackageManagerView,
    record: AppImageView,
    resolver: ResolverView,
    event: EventView,
) -> InstallStep {
    let step = resolver_next(record, resolver, event);
    match step.0 {
        ResolverView::Done(url) => install_downloading(
            pm,
            record,
            url,
            DownloadView::Start,
            EventView::Begin,
        ),
        ResolverView::Failed(e) => install_failed(record, e),
        _ => InstallStep { record, state: InstallView::Resolving(step.0), action: step.1 },
    }
}

/// The record of an installation once its bundle has a place.
pub open spec fn placed(pm: PackageManagerView, record: AppImageView) -> AppImageView {
    AppImageView {
        file_path: prepared_path(
            pm.downloader.dir,
            locator_of(record.source),
            record.executable,
        ),
        ..record
    }
}

/// One step of the question that an installation begins with. Where the
/// index holds the executable, the user is told so and nothing else is done.
/// Where it does not, the bundle gets its place and is fetched: from the
/// record's URL, or from the URL that the repository's releases give.
pub open spec fn install_probing(
    pm: PackageManagerView,
    record: AppImageView,
    lookup: LookupView,
    event: EventView,
) -> InstallStep {
    let step = lookup_next(pm.index, record.executable, lookup, event);
    match step.0 {
        LookupView::Done(present) => if present {
            InstallStep {
                record,
                state: InstallView::Noticing,
                action: Some(ActionView::Say { text: already_installed(record.executable) }),
            }
        } else {
            match record.source {
                SourceView::GitHub { .. } => install_resolving(
                    pm,
                    placed(pm, record),
                    ResolverView::Start,
                    EventView::Begin,
                ),
                SourceView::RawUrl { url } => install_downloading(
                    pm,
                    placed(pm, record),
                    url,
                    DownloadView::Start,
                    EventView::Begin,
                ),
            }
        },
        LookupView::Failed(e) => install_failed(record, e),
        _ => InstallStep { record, state: InstallView::Probing(step.0), action: step.1 },
    }
}

/// One step of the installation of `record`.
pub open spec fn install_next(
    pm: PackageManagerView,
    record: AppImageView,
    state: InstallView,
    event: EventView,
) -> InstallStep {
    match state {
        InstallView::Start => match event {
            EventView::Begin => install_probing(pm, record, LookupView::Start, event),
            _ => install_failed(record, ErrorView::Unexpected),
        },
        InstallView::Probing(lookup) => install_probing(pm, record, lookup, event),
        InstallView::Noticing => match event {
            EventView::Done => InstallStep {
                record,
                state: InstallView::Done(Installed::AlreadyInstalled),
                action: None,
            },
            EventView::Failed(e) => install_failed(record, e),
            _ => install_failed(record, ErrorView::Unexpected),
        },
        InstallView::Resolving(resolver) => install_resolving(
            pm,
            record,
            resolver,
            event,
        ),
        InstallView::Downloading { url, transfer } => install_downloading(
            pm,
            record,
            url,
            transfer,
            event,
        ),
        InstallView::Committing(script) => install_committing(pm, record, script, event),
        InstallView::Asking => match event {
            EventView::Answer(text) => if is_yes(lowercase_of(text)) {
                install_integrating(pm, record, IntegrationView::Start, EventView::Begin)
            } else {
                InstallStep {
                    record,
                    state: InstallView::Done(Installed::Fresh { integrated: false }),
                    action: None,
                }
            },
            EventView::Failed(e) => install_failed(record, e),
            _ => install_failed(record, ErrorView::Unexpected),
        },
        InstallView::Integrating(integration) => install_integrating(
            pm,
            record,
            integration,
            event,
        ),
        InstallView::Done(how) => InstallStep { record, state: InstallView::Done(how), action: None },
        InstallView::Failed(e) => install_failed(record, e),
    }
}

/// How far an update has come.
#[derive(Debug, Clone, PartialEq, Eq)]
pub enum Update {
    /// Nothing was asked yet.
    Start,
    /// The bundle's URL is looked for among the repository's releases.
    Resolving(Resolver),
    /// The bundle is fetched from `url` to the place it has.
    Downloading { url: String, transfer: Download },
    Done,
    Failed(Error),
}

pub enum UpdateView {
    Start,
    Resolving(ResolverView),
    Downloading { url: Seq<char>, transfer: DownloadView },
    Done,
    Failed(ErrorView),
}

impl DeepView for Update {
    type V = UpdateView;

    open spec fn deep_view(&self) -> UpdateView {
        match self {
            Update::Start => UpdateView::Start,
            Update::Resolving(resolver) => UpdateView::Resolving(resolver.deep_view()),
            Update::Downloading { url, transfer } => UpdateView::Downloading {
                url: url@,
                transfer: transfer.deep_view(),
            },
            Update::Done => UpdateView::Done,
            Update::Failed(e) => UpdateView::Failed(e.deep_view()),
        }
    }
}

/// One step of the transfer of an update: the bundle is fetched over the one
/// that is there; neither the record nor the link is written again.
pub open spec fn update_downloading(
    pm: PackageManagerView,
    record: AppImageView,
    url: Seq<char>,
    transfer: DownloadView,
    event: EventView,
) -> (UpdateView, Option<ActionView>) {
    let step = download_next(pm.downloader, url, record.file_path, transfer, event);
    match step.0 {
        DownloadView::Done => (UpdateView::Done, None),
        DownloadView::Failed(e) => (UpdateView::Failed(e), None),
        _ => (UpdateView::Downloading { url, transfer: step.0 }, step.1),
    }
}

/// One step of the search for the URL of an update's bundle.
pub open spec fn update_resolving(
    pm: PackageManagerView,
    record: AppImageView,
    resolver: ResolverView,
    event: EventView,
) -> (UpdateView, Option<ActionView>) {
    let step = resolver_next(record, resolver, event);
    match step.0 {
        ResolverView::Done(url) => update_downloading(
            pm,
            record,
            url,
            DownloadView::Start,
            EventView::Begin,
        ),
        ResolverView::Failed(e) => (UpdateView::Failed(e), None),
        _ => (UpdateView::Resolving(step.0), step.1),
    }
}

/// One step of the update of `record`. Only a record whose source is a
/// repository can be updated: a link names no newer bundle.
pub open spec fn update_next(
    pm: PackageManagerView,
    record: AppImageView,
    state: UpdateView,
    event: EventView,
) -> (UpdateView, Option<ActionView>) {
    match state {
        UpdateView::Start => match event {
            EventView::Begin => if record.source is GitHub {
                update_resolving(pm, record, ResolverView::Start, event)
            } else {
                (UpdateView::Failed(ErrorView::CantUpdatePkg), None)
            },
            _ => (UpdateView::Failed(ErrorView::Unexpected), None),
        },
        UpdateView::Resolving(resolver) => update_resolving(pm, record, resolver, event),
        UpdateView::Downloading { url, transfer } => update_downloading(
            pm,
            record,
            url,
            transfer,
            event,
        ),
        UpdateView::Done => (UpdateView::Done, None),
        UpdateView::Failed(e) => (UpdateView::Failed(e), None),
    }
}

/// How far a removal has come.
#[derive(Debug, Clone, PartialEq, Eq)]
pub enum Removal {
    /// Nothing was asked yet.
    Start,
    /// The record is read.
    Loading(Fetch),
    /// What the record names is deleted.
    Deleting { record: AppImage, script: Script },
    Done,
    Failed(Error),
}

pub enum RemovalView {
    Start,
    Loading(FetchView),
    Deleting { record: AppImageView, script: ScriptView },
    Done,
    Failed(ErrorView),
}

impl DeepView for Removal {
    type V = RemovalView;

    open spec fn deep_view(&self) -> RemovalView {
        match self {
            Removal::Start => RemovalView::Start,
            Removal::Loading(fetch) => RemovalView::Loading(fetch.deep_view()),
            Removal::Deleting { record, script } => RemovalView::Deleting {
                record: record.deep_view(),
                script: script.deep_view(),
            },
            Removal::Done => RemovalView::Done,
            Removal::Failed(e) => RemovalView::Failed(e.deep_view()),
        }
    }
}

/// The file at `path` is deleted if it is there.
pub open spec fn deleted_if_present(path: Seq<char>) -> TaskView {
    TaskView::DoIfExists { path, action: ActionView::RemoveFile { path } }
}

/// The plan that removes an installed bundle: the bundle, its link and its
/// record are deleted in this order, and each must be there; the two desktop
/// entries and the icon are deleted where they are there.
pub open spec fn removal_plan(pm: PackageManagerView, record: AppImageView, appname: Seq<char>) -> Seq<
    TaskView,
> {
    seq![TaskView::Do(ActionView::RemoveFile { path: record.file_path })] + unlink_plan(
        pm.symlink_manager,
        record.executable,
    ) + remove_plan(pm.index, appname) + seq![
        deleted_if_present(entry_path_of(record, pm.desktop)),
        deleted_if_present(published_path_of(record, pm.desktop)),
        deleted_if_present(icon_path_of(record, pm.desktop)),
    ]
}

/// One step of the deletion of what `record` names.
pub open spec fn removal_deleting(
    pm: PackageManagerView,
    appname: Seq<char>,
    record: AppImageView,
    script: ScriptView,
    event: EventView,
) -> (RemovalView, Option<ActionView>) {
    let step = script_next(removal_plan(pm, record, appname), script, event);
    match step.0 {
        ScriptView::Done => (RemovalView::Done, None),
        ScriptView::Failed(e) => (RemovalView::Failed(e), None),
        _ => (RemovalView::Deleting { record, script: step.0 }, step.1),
    }
}

/// One step of the reading of the record that is to be removed.
pub open spec fn removal_loading(
    pm: PackageManagerView,
    appname: Seq<char>,
    fetch: FetchView,
    event: EventView,
) -> (RemovalView, Option<ActionView>) {
    let step = fetch_next(pm.index, appname, fetch, event);
    match step.0 {
        FetchView::Done(record) => removal_deleting(
            pm,
            appname,
            record,
            ScriptView::Start,
            EventView::Begin,
        ),
        FetchView::Failed(e) => (RemovalView::Failed(e), None),
        _ => (RemovalView::Loading(step.0), step.1),
    }
}

/// One step of the removal of the bundle kept under `appname`.
pub open spec fn removal_next(
    pm: PackageManagerView,
    appname: Seq<char>,
    state: RemovalView,
    event: EventView,
) -> (RemovalView, Option<ActionView>) {
    match state {
        RemovalView::Start => match event {
            EventView::Begin => removal_loading(pm, appname, FetchView::Start, event),
            _ => (RemovalView::Failed(ErrorView::Unexpected), None),
        },
        RemovalView::Loading(fetch) => removal_loading(pm, appname, fetch, event),
        RemovalView::Deleting { record, script } => removal_deleting(
            pm,
            appname,
            record,
            script,
            event,
        ),
        RemovalView::Done => (RemovalView::Done, None),
        RemovalView::Failed(e) => (RemovalView::Failed(e), None),
    }
}

/// How far a listing has come.
#[derive(Debug, Clone, PartialEq, Eq)]
pub enum Listing {
    /// Nothing was asked yet.
    Start,
    /// The host is listing the index.
    Reading,
    /// The line of the entry at `at` is shown.
    Printing { entries: Vec<String>, at: usize },
    Done,
    Failed(Error),
}

pub enum ListingView {
    Start,
    Reading,
    Printing { entries: Seq<Seq<char>>, at: usize },
    Done,
    Failed(ErrorView),
}

impl DeepView for Listing {
    type V = ListingView;

    open spec fn deep_view(&self) -> ListingView {
        match self {
            Listing::Start => ListingView::Start,
            Listing::Reading => ListingView::Reading,
            Listing::Printing { entries, at } => ListingView::Printing {
                entries: entries.deep_view(),
                at: *at,
            },
            Listing::Done => ListingView::Done,
            Listing::Failed(e) => ListingView::Failed(e.deep_view()),
        }
    }
}

/// The line that lists the record in the file `name`.
pub open spec fn listed(name: Seq<char>) -> Seq<char> {
    "- "@ + stem_of(name)
}

/// The line of the entry at `at` is shown; once the entries are through, the
/// listing is done.
pub open spec fn show_from(entries: Seq<Seq<char>>, at: int) -> (ListingView, Option<ActionView>) {
    if 0 <= at < entries.len() && at <= usize::MAX {
        (
            ListingView::Printing { entries, at: at as usize },
            Some(ActionView::Say { text: listed(entries[at]) }),
        )
    } else {
        (ListingView::Done, None)
    }
}

/// One step of the listing of the installed bundles: one line for each file
/// of the index, in the order the system names them.
pub open spec fn listing_next(pm: PackageManagerView, state: ListingView, event: EventView) -> (
    ListingView,
    Option<ActionView>,
) {
    match state {
        ListingView::Start => match event {
            EventView::Begin => (
                ListingView::Reading,
                Some(ActionView::ListDir { path: pm.index.dir }),
            ),
            _ => (ListingView::Failed(ErrorView::Unexpected), None),
        },
        ListingView::Reading => match event {
            EventView::Entries(names) => show_from(names, 0),
            EventView::Failed(e) => (ListingView::Failed(e), None),
            _ => (ListingView::Failed(ErrorView::Unexpected), None),
        },
        ListingView::Printing { entries, at } => match event {
            EventView::Done => show_from(entries, at + 1),
            EventView::Failed(e) => (ListingView::Failed(e), None),
            _ => (ListingView::Failed(ErrorView::Unexpected), None),
        },
        ListingView::Done => (ListingView::Done, None),
        ListingView::Failed(e) => (ListingView::Failed(e), None),
    }
}

/// Whether an answer, given in lower case, says yes.
pub fn answer_is_yes(lowered: &str) -> (r: bool)
    ensures
        r == is_yes(lowered@),
{
    let chars = chars_of(lowered);
    let range = trim_range(&chars);
    let trimmed = lowered.substring_char(range.0, range.1);
    same_text(trimmed, "y") || same_text(trimmed, "yes")
}

/// Whether the user's answer to the question about the desktop says yes,
/// in whatever case it is written.
pub fn wants_integration(answer: &str) -> (r: bool)
    ensures
        r == is_yes(lowercase_of(answer@)),
{
    let lowered = lowercase(answer);
    answer_is_yes(lowered.as_str())
}

fn show_line(entries: Vec<String>, at: usize) -> (r: (Listing, Option<Action>))
    ensures
        r.0.deep_view() == show_from(entries.deep_view(), at as int).0,
        r.1.deep_view() == show_from(entries.deep_view(), at as int).1,
{
    if at < entries.len() {
        let stem = file_stem(entries[at].as_str());
        let text = join2("- ", stem.as_str());
        assert(entries.deep_view()[at as int] == entries@[at as int]@);
        (Listing::Printing { entries, at }, Some(Action::Say { text }))
    } else {
        (Listing::Done, None)
    }
}

impl PackageManager {
    /// The package manager of the user whose home is `home`, on a system
    /// whose temporary files lie in `temp`.
    pub fn new(home: &str, temp: &str) -> (r: PackageManager)
        ensures
            r.deep_view() == manager_of(home@, temp@),
    {
        PackageManager {
            downloader: Downloader::new(home),
            index: Index::new(home),
            symlink_manager: SymlinkManager::new(home),
            desktop: Desktop::new(home, temp),
        }
    }

    /// The plan that makes a fetched bundle an installed one.
    pub fn commit(&self, appimage: &AppImage) -> (r: Vec<Task>)
        ensures
            r.deep_view() == commit_plan(self.deep_view(), appimage.deep_view()),
    {
        let mut r = self.index.add(appimage, appimage.executable.as_str());
        let mut links = self.symlink_manager.create(appimage);
        let ghost first = r.deep_view();
        let ghost second = links.deep_view();
        r.append(&mut links);
        assert(r.deep_view() =~= first + second);
        r
    }

    /// The plan that removes what `appimage` names, and its record kept under `appname`.
    pub fn removal(&self, appimage: &AppImage, appname: &str) -> (r: Vec<Task>)
        ensures
            r.deep_view() == removal_plan(self.deep_view(), appimage.deep_view(), appname@),
    {
        let mut r: Vec<Task> = Vec::new();
        r.push(Task::Do(Action::RemoveFile { path: appimage.file_path.clone() }));
        let mut links = self.symlink_manager.remove(appimage.executable.as_str());
        let mut records = self.index.remove(appname);
        let ghost a = r.deep_view();
        let ghost b = links.deep_view();
        let ghost c = records.deep_view();
        r.append(&mut links);
        r.append(&mut records);
        assert(r.deep_view() =~= a + b + c);
        r.push(
            Task::DoIfExists {
                path: appimage.entry_path(&self.desktop),
                action: Action::RemoveFile { path: appimage.entry_path(&self.desktop) },
            },
        );
        r.push(
            Task::DoIfExists {
                path: appimage.published_path(&self.desktop),
                action: Action::RemoveFile { path: appimage.published_path(&self.desktop) },
            },
        );
        r.push(
            Task::DoIfExists {
                path: appimage.icon_path(&self.desktop),
                action: Action::RemoveFile { path: appimage.icon_path(&self.desktop) },
            },
        );
        assert(r.deep_view() =~= removal_plan(self.deep_view(), appimage.deep_view(), appname@));
        r
    }

    fn integrating(&self, appimage: &AppImage, integration: Integration, event: Event) -> (r: (
        Install,
        Option<Action>,
    ))
        ensures
            r.0.deep_view() == install_integrating(
                self.deep_view(),
                appimage.deep_view(),
                integration.deep_view(),
                event.deep_view(),
            ).state,
            r.1.deep_view() == install_integrating(
                self.deep_view(),
                appimage.deep_view(),
                integration.deep_view(),
                event.deep_view(),
            ).action,
    {
        let step = appimage.integrate_desktop(&self.desktop, integration, event);
        match step.0 {
            Integration::Done => (Install::Done(Installed::Fresh { integrated: true }), None),
            Integration::Failed(e) => (Install::Failed(e), None),
            _ => (Install::Integrating(step.0), step.1),
        }
    }

    fn committing(&self, appimage: &AppImage, script: Script, event: Event) -> (r: (
        Install,
        Option<Action>,
    ))
        ensures
            r.0.deep_view() == install_committing(
                self.deep_view(),
                appimage.deep_view(),
                script.deep_view(),
                event.deep_view(),
            ).state,
            r.1.deep_view() == install_committing(
                self.deep_view(),
                appimage.deep_view(),
                script.deep_view(),
                event.deep_view(),
            ).action,
    {
        let step = run_script(self.commit(appimage), script, event);
        match step.0 {
            Script::Done => (
                Install::Asking,
                Some(
                    Action::Ask {
                        prompt: String::from_str("Do you want to integrate this appimage? (y/N) "),
                    },
                ),
            ),
            Script::Failed(e) => (Install::Failed(e), None),
            _ => (Install::Committing(step.0), step.1),
        }
    }

    fn downloading(
        &self,
        appimage: &AppImage,
        url: String,
        transfer: Download,
        event: Event,
    ) -> (r: (Install, Option<Action>))
        ensures
            r.0.deep_view() == install_downloading(
                self.deep_view(),
                appimage.deep_view(),
                url@,
                transfer.deep_view(),
                event.deep_view(),
            ).state,
            r.1.deep_view() == install_downloading(
                self.deep_view(),
                appimage.deep_view(),
                url@,
                transfer.deep_view(),
                event.deep_view(),
            ).action,
    {
        let step = self.downloader.download_with_progress(
            url.as_str(),
            appimage.file_path.as_str(),
            transfer,
            event,
        );
        match step.0 {
            Download::Done => self.committing(appimage, Script::Start, Event::Begin),
            Download::Failed(e) => (Install::Failed(e), None),
            _ => (Install::Downloading { url, transfer: step.0 }, step.1),
        }
    }

    fn resolving(&self, appimage: &AppImage, resolver: Resolver, event: Event) -> (r:
        (Install, Option<Action>))
        ensures
            r.0.deep_view() == install_resolving(
                self.deep_view(),
                appimage.deep_view(),
                resolver.deep_view(),
                event.deep_view(),
            ).state,
            r.1.deep_view() == install_resolving(
                self.deep_view(),
                appimage.deep_view(),
                resolver.deep_view(),
                event.deep_view(),
            ).action,
    {
        let step = get_github_release_url(appimage, resolver, event);
        match step.0 {
            Resolver::Done(url) => self.downloading(
                appimage,
                url,
                Download::Start,
                Event::Begin,
            ),
            Resolver::Failed(e) => (Install::Failed(e), None),
            _ => (Install::Resolving(step.0), step.1),
        }
    }

    fn probing(&self, appimage: &mut AppImage, lookup: Lookup, event: Event) -> (r: (
        Install,
        Option<Action>,
    ))
        ensures
            final(appimage).deep_view() == install_probing(
                self.deep_view(),
                old(appimage).deep_view(),
                lookup.deep_view(),
                event.deep_view(),
            ).record,
            r.0.deep_view() == install_probing(
                self.deep_view(),
                old(appimage).deep_view(),
                lookup.deep_view(),
                event.deep_view(),
            ).state,
            r.1.deep_view() == install_probing(
                self.deep_view(),
                old(appimage).deep_view(),
                lookup.deep_view(),
                event.deep_view(),
            ).action,
    {
        let step = self.index.contains(appimage.executable.as_str(), lookup, event);
        match step.0 {
            Lookup::Done(present) => {
                if present {
                    let text = join2(appimage.executable.as_str(), " is already installed.");
                    (Install::Noticing, Some(Action::Say { text }))
                } else {
                    let url = match &appimage.source {
                        Source::RawUrl { url } => url.clone(),
                        Source::GitHub { slug } => slug.clone(),
                    };
                    let path = self.downloader.prepare_path(
                        url.as_str(),
                        appimage.executable.as_str(),
                    );
                    appimage.file_path = path;
                    if appimage.source.is_github() {
                        self.resolving(appimage, Resolver::Start, Event::Begin)
                    } else {
                        self.downloading(appimage, url, Download::Start, Event::Begin)
                    }
                }
            },
            Lookup::Failed(e) => (Install::Failed(e), None),
            _ => (Install::Probing(step.0), step.1),
        }
    }

    /// One step of the installation of `appimage`.
    pub fn install(&self, appimage: &mut AppImage, state: Install, event: Event) -> (r:
        (Install, Option<Action>))
        ensures
            final(appimage).deep_view() == install_next(
                self.deep_view(),
                old(appimage).deep_view(),
                state.deep_view(),
                event.deep_view(),
            ).record,
            r.0.deep_view() == install_next(
                self.deep_view(),
                old(appimage).deep_view(),
                state.deep_view(),
                event.deep_view(),
            ).state,
            r.1.deep_view() == install_next(
                self.deep_view(),
                old(appimage).deep_view(),
                state.deep_view(),
                event.deep_view(),
            ).action,
    {
        match state {
            Install::Start => match event {
                Event::Begin => self.probing(appimage, Lookup::Start, Event::Begin),
                _ => (Install::Failed(Error::Unexpected), None),
            },
            Install::Probing(lookup) => self.probing(appimage, lookup, event),
            Install::Noticing => match event {
                Event::Done => (Install::Done(Installed::AlreadyInstalled), None),
                Event::Failed(e) => (Install::Failed(e), None),
                _ => (Install::Failed(Error::Unexpected), None),
            },
            Install::Resolving(resolver) => self.resolving(appimage, resolver, event),
            Install::Downloading { url, transfer } => self.downloading(
                appimage,
                url,
                transfer,
                event,
            ),
            Install::Committing(script) => self.committing(appimage, script, event),
            Install::Asking => match event {
                Event::Answer(text) => if wants_integration(text.as_str()) {
                    self.integrating(appimage, Integration::Start, Event::Begin)
                } else {
                    (Install::Done(Installed::Fresh { integrated: false }), None)
                },
                Event::Failed(e) => (Install::Failed(e), None),
                _ => (Install::Failed(Error::Unexpected), None),
            },
            Install::Integrating(integration) => self.integrating(appimage, integration, event),
            Install::Done(how) => (Install::Done(how), None),
            Install::Failed(e) => (Install::Failed(e), None),
        }
    }

    fn update_downloading(&self, appimage: &AppImage, url: String, transfer: Download, event: Event) -> (r:
        (Update, Option<Action>))
        ensures
            r.0.deep_view() == update_downloading(
                self.deep_view(),
                appimage.deep_view(),
                url@,
                transfer.deep_view(),
                event.deep_view(),
            ).0,
            r.1.deep_view() == update_downloading(
                self.deep_view(),
                appimage.deep_view(),
                url@,
                transfer.deep_view(),
                event.deep_view(),
            ).1,
    {
        let step = self.downloader.download_with_progress(
            url.as_str(),
            appimage.file_path.as_str(),
            transfer,
            event,
        );
        match step.0 {
            Download::Done => (Update::Done, None),
            Download::Failed(e) => (Update::Failed(e), None),
            _ => (Update::Downloading { url, transfer: step.0 }, step.1),
        }
    }

    fn update_resolving(&self, appimage: &AppImage, resolver: Resolver, event: Event) -> (r: (
        Update,
        Option<Action>,
    ))
        ensures
            r.0.deep_view() == update_resolving(
                self.deep_view(),
                appimage.deep_view(),
                resolver.deep_view(),
                event.deep_view(),
            ).0,
            r.1.deep_view() == update_resolving(
                self.deep_view(),
                appimage.deep_view(),
                resolver.deep_view(),
                event.deep_view(),
            ).1,
    {
        let step = get_github_release_url(appimage, resolver, event);
        match step.0 {
            Resolver::Done(url) => self.update_downloading(
                appimage,
                url,
                Download::Start,
                Event::Begin,
            ),
            Resolver::Failed(e) => (Update::Failed(e), None),
            _ => (Update::Resolving(step.0), step.1),
        }
    }

    /// One step of the update of `appimage`.
    pub fn update(&self, appimage: &AppImage, state: Update, event: Event) -> (r: (
        Update,
        Option<Action>,
    ))
        ensures
            r.0.deep_view() == update_next(
                self.deep_view(),
                appimage.deep_view(),
                state.deep_view(),
                event.deep_view(),
            ).0,
            r.1.deep_view() == update_next(
                self.deep_view(),
                appimage.deep_view(),
                state.deep_view(),
                event.deep_view(),
            ).1,
    {
        match state {
            Update::Start => match event {
                Event::Begin => if appimage.source.is_github() {
                    self.update_resolving(appimage, Resolver::Start, Event::Begin)
                } else {
                    (Update::Failed(Error::CantUpdatePkg), None)
                },
                _ => (Update::Failed(Error::Unexpected), None),
            },
            Update::Resolving(resolver) => self.update_resolving(appimage, resolver, event),
            Update::Downloading { url, transfer } => self.update_downloading(
                appimage,
                url,
                transfer,
                event,
            ),
            Update::Done => (Update::Done, None),
            Update::Failed(e) => (Update::Failed(e), None),
        }
    }

    fn deleting(&self, appname: &str, record: AppImage, script: Script, event: Event) -> (r: (
        Removal,
        Option<Action>,
    ))
        ensures
            r.0.deep_view() == removal_deleting(
                self.deep_view(),
                appname@,
                record.deep_view(),
                script.deep_view(),
                event.deep_view(),
            ).0,
            r.1.deep_view() == removal_deleting(
                self.deep_view(),
                appname@,
                record.deep_view(),
                script.deep_view(),
                event.deep_view(),
            ).1,
    {
        let step = run_script(self.removal(&record, appname), script, event);
        match step.0 {
            Script::Done => (Removal::Done, None),
            Script::Failed(e) => (Removal::Failed(e), None),
            _ => (Removal::Deleting { record, script: step.0 }, step.1),
        }
    }

    fn loading(&self, appname: &str, fetch: Fetch, event: Event) -> (r: (Removal, Option<Action>))
        ensures
            r.0.deep_view() == removal_loading(
                self.deep_view(),
                appname@,
                fetch.deep_view(),
                event.deep_view(),
            ).0,
            r.1.deep_view() == removal_loading(
                self.deep_view(),
                appname@,
                fetch.deep_view(),
                event.deep_view(),
            ).1,
    {
        let step = self.index.get(appname, fetch, event);
        match step.0 {
            Fetch::Done(record) => self.deleting(appname, record, Script::Start, Event::Begin),
            Fetch::Failed(e) => (Removal::Failed(e), None),
            _ => (Removal::Loading(step.0), step.1),
        }
    }

    /// One step of the removal of the bundle kept under `appname`.
    pub fn remove(&self, appname: &str, state: Removal, event: Event) -> (r: (
        Removal,
        Option<Action>,
    ))
        ensures
            r.0.deep_view() == removal_next(
                self.deep_view(),
                appname@,
                state.deep_view(),
                event.deep_view(),
            ).0,
            r.1.deep_view() == removal_next(
                self.deep_view(),
                appname@,
                state.deep_view(),
                event.deep_view(),
            ).1,
    {
        match state {
            Removal::Start => match event {
                Event::Begin => self.loading(appname, Fetch::Start, Event::Begin),
                _ => (Removal::Failed(Error::Unexpected), None),
            },
            Removal::Loading(fetch) => self.loading(appname, fetch, event),
            Removal::Deleting { record, script } => self.deleting(appname, record, script, event),
            Removal::Done => (Removal::Done, None),
            Removal::Failed(e) => (Removal::Failed(e), None),
        }
    }

    /// One step of the listing of the installed bundles.
    pub fn list(&self, state: Listing, event: Event) -> (r: (Listing, Option<Action>))
        ensures
            r.0.deep_view() == listing_next(
                self.deep_view(),
                state.deep_view(),
                event.deep_view(),
            ).0,
            r.1.deep_view() == listing_next(
                self.deep_view(),
                state.deep_view(),
                event.deep_view(),
            ).1,
    {
        match state {
            Listing::Start => match event {
                Event::Begin => (
                    Listing::Reading,
                    Some(Action::ListDir { path: self.index.dir.clone() }),
                ),
                _ => (Listing::Failed(Error::Unexpected), None),
            },
            Listing::Reading => match event {
                Event::Entries(names) => show_line(names, 0),
                Event::Failed(e) => (Listing::Failed(e), None),
                _ => (Listing::Failed(Error::Unexpected), None),
            },
            Listing::Printing { entries, at } => match event {
                Event::Done => if at < entries.len() {
                    show_line(entries, at + 1)
                } else {
                    (Listing::Done, None)
                },
                Event::Failed(e) => (Listing::Failed(e), None),
                _ => (Listing::Failed(Error::Unexpected), None),
            },
            Listing::Done => (Listing::Done, None),
            Listing::Failed(e) => (Listing::Failed(e), None),
        }
    }
}

} // verus!
