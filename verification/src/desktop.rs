//! Showing an installed bundle to the desktop: its launcher entry and its
//! icon are unpacked from the bundle, rewritten and put where the desktop
//! environment looks for them.
use crate::appimage::{named_in, rewritten, AppImage, AppImageView};
use crate::error::{Error, ErrorView};
use crate::host::{
    run_script, script_next, Action, ActionView, Event, EventView, Script, ScriptView, Task,
    TaskView,
};
use crate::paths::{
    applications_dir, applications_dir_of, desktops_dir, desktops_dir_of, icons_dir, icons_dir_of,
    join, join_path, scratch_dir, scratch_dir_of,
};
use crate::text::{find_extension, join2, join3, next_with_extension};
use vstd::prelude::*;

verus! {

/// The directories that desktop integration works in.
#[derive(Debug, Clone, PartialEq, Eq)]
pub struct Desktop {
    /// The manager's own desktop entries.
    pub desktops: String,
    /// The entries that the desktop environment reads.
    pub applications: String,
    /// The manager's icons.
    pub icons: String,
    /// Where a bundle is unpacked; removed when integration ends.
    pub scratch: String,
}

pub struct DesktopView {
    pub desktops: Seq<char>,
    pub applications: Seq<char>,
    pub icons: Seq<char>,
    pub scratch: Seq<char>,
}

impl DeepView for Desktop {
    type V = DesktopView;

    open spec fn deep_view(&self) -> DesktopView {
        DesktopView {
            desktops: self.desktops@,
            applications: self.applications@,
            icons: self.icons@,
            scratch: self.scratch@,
        }
    }
}

/// The directories for a user whose home is `home`, on a system whose
/// temporary files lie in `temp`.
pub open spec fn desktop_of(home: Seq<char>, temp: Seq<char>) -> DesktopView {
    DesktopView {
        desktops: desktops_dir_of(home),
        applications: applications_dir_of(home),
        icons: icons_dir_of(home),
        scratch: scratch_dir_of(temp),
    }
}

/// How many icon sizes are looked for.
pub const ICON_SIZES: usize = 15;

/// The icon sizes in the order they are looked for, the largest first.
pub open spec fn icon_size_of(at: int) -> Seq<char> {
    if at == 0 {
        "1024"@
    } else if at == 1 {
        "720"@
    } else if at == 2 {
        "512"@
    } else if at == 3 {
        "256"@
    } else if at == 4 {
        "192"@
    } else if at == 5 {
        "128"@
    } else if at == 6 {
        "96"@
    } else if at == 7 {
        "72"@
    } else if at == 8 {
        "64"@
    } else if at == 9 {
        "48"@
    } else if at == 10 {
        "36"@
    } else if at == 11 {
        "32"@
    } else if at == 12 {
        "24"@
    } else if at == 13 {
        "22"@
    } else {
        "16"@
    }
}

/// The root of the unpacked bundle.
pub open spec fn unpacked_root(d: DesktopView) -> Seq<char> {
    join(d.scratch, "squashfs-root"@)
}

/// The applications directory of the unpacked bundle.
pub open spec fn unpacked_applications(d: DesktopView) -> Seq<char> {
    join(unpacked_root(d), "usr/share/applications"@)
}

/// The directory of the unpacked bundle whose desktop entries are installed:
/// its applications directory where `nested` is set, its root else.
pub open spec fn entries_dir(d: DesktopView, nested: bool) -> Seq<char> {
    if nested {
        unpacked_applications(d)
    } else {
        unpacked_root(d)
    }
}

/// The directory of the unpacked bundle that holds the icons of one size.
pub open spec fn icon_dir_of(d: DesktopView, at: int) -> Seq<char> {
    join(
        unpacked_root(d),
        "usr/share/icons/hicolor/"@ + icon_size_of(at) + "x"@ + icon_size_of(at) + "/apps"@,
    )
}

/// Where the manager keeps the bundle's icon.
pub open spec fn icon_path_of(record: AppImageView, d: DesktopView) -> Seq<char> {
    named_in(d.icons, record.executable, ".png"@)
}

/// Where the manager keeps the bundle's desktop entry.
pub open spec fn entry_path_of(record: AppImageView, d: DesktopView) -> Seq<char> {
    named_in(d.desktops, record.executable, ".desktop"@)
}

/// Where the desktop environment finds the bundle's desktop entry.
pub open spec fn published_path_of(record: AppImageView, d: DesktopView) -> Seq<char> {
    named_in(d.applications, record.executable, ".desktop"@)
}

/// One run of the bundle that unpacks its files matching `pattern`.
pub open spec fn extraction(record: AppImageView, scratch: Seq<char>, pattern: Seq<char>) -> TaskView {
    TaskView::Do(ActionView::Extract { bundle: record.file_path, pattern, dir: scratch })
}

/// The plan that unpacks what integration needs: the scratch directory is
/// made, then the bundle unpacks the desktop entries at its root, those in its
/// applications directory, and its icons.
pub open spec fn extraction_plan(record: AppImageView, scratch: Seq<char>) -> Seq<TaskView> {
    seq![
        TaskView::Do(ActionView::EnsureDir { path: scratch }),
        extraction(record, scratch, "*.desktop"@),
        extraction(record, scratch, "usr/share/applications/*.desktop"@),
        extraction(record, scratch, "usr/share/icons/hicolor/*/apps/*.png"@),
    ]
}

/// The plan that integration begins with: the bundle is unpacked and the
/// three directories that receive files are made.
pub open spec fn preparation_plan(record: AppImageView, d: DesktopView) -> Seq<TaskView> {
    extraction_plan(record, d.scratch) + seq![
        TaskView::Do(ActionView::EnsureDir { path: d.desktops }),
        TaskView::Do(ActionView::EnsureDir { path: d.icons }),
        TaskView::Do(ActionView::EnsureDir { path: d.applications }),
    ]
}

/// What is being done with one desktop entry of the unpacked bundle.
#[derive(Debug, Clone, Copy, PartialEq, Eq, Structural)]
pub enum EntryPhase {
    /// The links on its path are followed.
    Resolving,
    /// It is copied to the manager's directory.
    Copying,
    /// The copy is read.
    Reading,
    /// The copy is written back, rewritten.
    Writing,
    /// The copy is copied to where the desktop environment reads.
    Publishing,
}

/// How far an integration has come.
#[derive(Debug, Clone, PartialEq, Eq)]
pub enum Integration {
    /// Nothing was asked yet.
    Start,
    /// The bundle is unpacked and the directories are made.
    Preparing(Script),
    /// The host is asked whether the icon directory of the size at `at` exists.
    ProbingIcons { at: usize },
    /// The host is listing the icon directory of the size at `at`.
    ListingIcons { at: usize },
    /// The icon is copied.
    CopyingIcon,
    /// The host is listing the root of the unpacked bundle.
    ListingRoot { icon_found: bool },
    /// The desktop entry at `at` among the `entries` is installed; they are
    /// those of the bundle's applications directory where `nested` is set,
    /// those of its root else.
    Entry { icon_found: bool, nested: bool, entries: Vec<String>, at: usize, phase: EntryPhase },
    /// The host is asked whether the unpacked bundle has an applications directory.
    ProbingNested { icon_found: bool },
    /// The host is listing the applications directory of the unpacked bundle.
    ListingNested { icon_found: bool },
    /// The scratch directory is removed; `failure` is what went wrong before, if anything.
    Cleaning { failure: Option<Error> },
    Done,
    Failed(Error),
}

pub enum IntegrationView {
    Start,
    Preparing(ScriptView),
    ProbingIcons { at: usize },
    ListingIcons { at: usize },
    CopyingIcon,
    ListingRoot { icon_found: bool },
    Entry {
        icon_found: bool,
        nested: bool,
        entries: Seq<Seq<char>>,
        at: usize,
        phase: EntryPhase,
    },
    ProbingNested { icon_found: bool },
    ListingNested { icon_found: bool },
    Cleaning { failure: Option<ErrorView> },
    Done,
    Failed(ErrorView),
}

impl DeepView for Integration {
    type V = IntegrationView;

    open spec fn deep_view(&self) -> IntegrationView {
        match self {
            Integration::Start => IntegrationView::Start,
            Integration::Preparing(script) => IntegrationView::Preparing(script.deep_view()),
            Integration::ProbingIcons { at } => IntegrationView::ProbingIcons { at: *at },
            Integration::ListingIcons { at } => IntegrationView::ListingIcons { at: *at },
            Integration::CopyingIcon => IntegrationView::CopyingIcon,
            Integration::ListingRoot { icon_found } => IntegrationView::ListingRoot {
                icon_found: *icon_found,
            },
            Integration::Entry { icon_found, nested, entries, at, phase } => IntegrationView::Entry {
                icon_found: *icon_found,
                nested: *nested,
                entries: entries.deep_view(),
                at: *at,
                phase: *phase,
            },
            Integration::ProbingNested { icon_found } => IntegrationView::ProbingNested {
                icon_found: *icon_found,
            },
            Integration::ListingNested { icon_found } => IntegrationView::ListingNested {
                icon_found: *icon_found,
            },
            Integration::Cleaning { failure } => IntegrationView::Cleaning {
                failure: failure.deep_view(),
            },
            Integration::Done => IntegrationView::Done,
            Integration::Failed(e) => IntegrationView::Failed(e.deep_view()),
        }
    }
}

/// Integration ends: the scratch directory is removed, whatever came before.
pub open spec fn clean_up(d: DesktopView, failure: Option<ErrorView>) -> (
    IntegrationView,
    Option<ActionView>,
) {
    (IntegrationView::Cleaning { failure }, Some(ActionView::RemoveTree { path: d.scratch }))
}

/// The root of the unpacked bundle is listed for its desktop entries.
pub open spec fn list_root(d: DesktopView, icon_found: bool) -> (
    IntegrationView,
    Option<ActionView>,
) {
    (
        IntegrationView::ListingRoot { icon_found },
        Some(ActionView::ListDir { path: unpacked_root(d) }),
    )
}

/// The icon directory of the size at `at` is looked for; once the sizes are
/// through, no icon was found.
pub open spec fn probe_icons(d: DesktopView, at: int) -> (IntegrationView, Option<ActionView>) {
    if 0 <= at < ICON_SIZES {
        (
            IntegrationView::ProbingIcons { at: at as usize },
            Some(ActionView::Probe { path: icon_dir_of(d, at) }),
        )
    } else {
        list_root(d, false)
    }
}

/// What follows the entries of a directory: after those of the root, the
/// applications directory of the unpacked bundle is looked for; after those of
/// the applications directory, integration ends well.
pub open spec fn after_entries(d: DesktopView, icon_found: bool, nested: bool) -> (
    IntegrationView,
    Option<ActionView>,
) {
    if nested {
        clean_up(d, None)
    } else {
        (
            IntegrationView::ProbingNested { icon_found },
            Some(ActionView::Probe { path: unpacked_applications(d) }),
        )
    }
}

/// The next desktop entry at or after `from` is taken up; once the entries
/// of the directory are through, what follows them.
pub open spec fn visit(
    record: AppImageView,
    d: DesktopView,
    icon_found: bool,
    nested: bool,
    entries: Seq<Seq<char>>,
    from: int,
) -> (IntegrationView, Option<ActionView>) {
    let at = next_with_extension(entries, from, "desktop"@);
    if 0 <= at < entries.len() && at <= usize::MAX {
        (
            IntegrationView::Entry {
                icon_found,
                nested,
                entries,
                at: at as usize,
                phase: EntryPhase::Resolving,
            },
            Some(ActionView::Canonicalize { path: join(entries_dir(d, nested), entries[at]) }),
        )
    } else {
        after_entries(d, icon_found, nested)
    }
}

/// One step of the preparation.
pub open spec fn prepare(
    record: AppImageView,
    d: DesktopView,
    script: ScriptView,
    event: EventView,
) -> (IntegrationView, Option<ActionView>) {
    let step = script_next(preparation_plan(record, d), script, event);
    match step.0 {
        ScriptView::Done => probe_icons(d, 0),
        ScriptView::Failed(e) => clean_up(d, Some(e)),
        _ => (IntegrationView::Preparing(step.0), step.1),
    }
}

/// What a failed or unexpected answer makes of an integration under way.
pub open spec fn give_up(d: DesktopView, event: EventView) -> (IntegrationView, Option<ActionView>) {
    match event {
        EventView::Failed(e) => clean_up(d, Some(e)),
        _ => clean_up(d, Some(ErrorView::Unexpected)),
    }
}

/// One step of the installation of one desktop entry: it is copied to the
/// manager's directory, rewritten there, and the result copied to where the
/// desktop environment reads.
pub open spec fn entry_next(
    record: AppImageView,
    d: DesktopView,
    icon_found: bool,
    nested: bool,
    entries: Seq<Seq<char>>,
    at: usize,
    phase: EntryPhase,
    event: EventView,
) -> (IntegrationView, Option<ActionView>) {
    let target = entry_path_of(record, d);
    match (phase, event) {
        (EntryPhase::Resolving, EventView::Path(source)) => (
            IntegrationView::Entry { icon_found, nested, entries, at, phase: EntryPhase::Copying },
            Some(ActionView::CopyFile { from: source, to: target }),
        ),
        (EntryPhase::Copying, EventView::Done) => (
            IntegrationView::Entry { icon_found, nested, entries, at, phase: EntryPhase::Reading },
            Some(ActionView::ReadFile { path: target }),
        ),
        (EntryPhase::Reading, EventView::Content(text)) => (
            IntegrationView::Entry { icon_found, nested, entries, at, phase: EntryPhase::Writing },
            Some(
                ActionView::WriteFile {
                    path: target,
                    content: rewritten(
                        text,
                        record.file_path,
                        if icon_found {
                            Some(icon_path_of(record, d))
                        } else {
                            None
                        },
                    ),
                },
            ),
        ),
        (EntryPhase::Writing, EventView::Done) => (
            IntegrationView::Entry { icon_found, nested, entries, at, phase: EntryPhase::Publishing },
            Some(ActionView::CopyFile { from: target, to: published_path_of(record, d) }),
        ),
        (EntryPhase::Publishing, EventView::Done) => visit(
            record,
            d,
            icon_found,
            nested,
            entries,
            at + 1,
        ),
        _ => give_up(d, event),
    }
}

/// One step of the integration of a bundle into the desktop.
///
/// The bundle unpacks its desktop entries and icons into the scratch
/// directory. The icon sizes are gone through from the largest down: the first
/// size whose directory exists and holds a PNG file gives the icon, its first
/// such file, and no further size is looked at. Every desktop entry that the
/// bundle unpacked is then installed: those at the root of the unpacked
/// bundle, then those of its applications directory where it has one. Each is
/// installed over the one before, so the last is the one that stays. Whether
/// all went well or a step failed, the scratch directory is removed before the
/// integration ends, and a failure that came before the removal is the one
/// reported.
pub open spec fn integration_next(
    record: AppImageView,
    d: DesktopView,
    state: IntegrationView,
    event: EventView,
) -> (IntegrationView, Option<ActionView>) {
    match state {
        IntegrationView::Start => match event {
            EventView::Begin => prepare(record, d, ScriptView::Start, event),
            _ => give_up(d, event),
        },
        IntegrationView::Preparing(script) => prepare(record, d, script, event),
        IntegrationView::ProbingIcons { at } => match event {
            EventView::Exists(present) => if at >= ICON_SIZES {
                clean_up(d, Some(ErrorView::Unexpected))
            } else if present {
                (
                    IntegrationView::ListingIcons { at },
                    Some(ActionView::ListDir { path: icon_dir_of(d, at as int) }),
                )
            } else {
                probe_icons(d, at + 1)
            },
            _ => give_up(d, event),
        },
        IntegrationView::ListingIcons { at } => match event {
            EventView::Entries(names) => {
                let found = next_with_extension(names, 0, "png"@);
                if at >= ICON_SIZES {
                    clean_up(d, Some(ErrorView::Unexpected))
                } else if 0 <= found < names.len() {
                    (
                        IntegrationView::CopyingIcon,
                        Some(
                            ActionView::CopyFile {
                                from: join(icon_dir_of(d, at as int), names[found]),
                                to: icon_path_of(record, d),
                            },
                        ),
                    )
                } else {
                    probe_icons(d, at + 1)
                }
            },
            _ => give_up(d, event),
        },
        IntegrationView::CopyingIcon => match event {
            EventView::Done => list_root(d, true),
            _ => give_up(d, event),
        },
        IntegrationView::ListingRoot { icon_found } => match event {
            EventView::Entries(names) => visit(record, d, icon_found, false, names, 0),
            _ => give_up(d, event),
        },
        IntegrationView::Entry { icon_found, nested, entries, at, phase } => entry_next(
            record,
            d,
            icon_found,
            nested,
            entries,
            at,
            phase,
            event,
        ),
        IntegrationView::ProbingNested { icon_found } => match event {
            EventView::Exists(present) => if present {
                (
                    IntegrationView::ListingNested { icon_found },
                    Some(ActionView::ListDir { path: unpacked_applications(d) }),
                )
            } else {
                clean_up(d, None)
            },
            _ => give_up(d, event),
        },
        IntegrationView::ListingNested { icon_found } => match event {
            EventView::Entries(names) => visit(record, d, icon_found, true, names, 0),
            _ => give_up(d, event),
        },
        IntegrationView::Cleaning { failure } => match failure {
            Some(e) => (IntegrationView::Failed(e), None),
            None => match event {
                EventView::Done => (IntegrationView::Done, None),
                EventView::Failed(e) => (IntegrationView::Failed(e), None),
                _ => (IntegrationView::Failed(ErrorView::Unexpected), None),
            },
        },
        IntegrationView::Done => (IntegrationView::Done, None),
        IntegrationView::Failed(e) => (IntegrationView::Failed(e), None),
    }
}

impl Desktop {
    /// The directories for a user whose home is `home`, on a system whose
    /// temporary files lie in `temp`.
    pub fn new(home: &str, temp: &str) -> (r: Desktop)
        ensures
            r.deep_view() == desktop_of(home@, temp@),
    {
        Desktop {
            desktops: desktops_dir(home),
            applications: applications_dir(home),
            icons: icons_dir(home),
            scratch: scratch_dir(temp),
        }
    }

    /// The root of the unpacked bundle.
    pub fn unpacked_root(&self) -> (r: String)
        ensures
            r@ == unpacked_root(self.deep_view()),
    {
        join_path(self.scratch.as_str(), "squashfs-root")
    }

    /// The applications directory of the unpacked bundle.
    pub fn unpacked_applications(&self) -> (r: String)
        ensures
            r@ == unpacked_applications(self.deep_view()),
    {
        let root = self.unpacked_root();
        join_path(root.as_str(), "usr/share/applications")
    }

    fn after_entries(&self, icon_found: bool, nested: bool) -> (r: (Integration, Option<Action>))
        ensures
            r.0.deep_view() == after_entries(self.deep_view(), icon_found, nested).0,
            r.1.deep_view() == after_entries(self.deep_view(), icon_found, nested).1,
    {
        if nested {
            self.clean_up(None)
        } else {
            (
                Integration::ProbingNested { icon_found },
                Some(Action::Probe { path: self.unpacked_applications() }),
            )
        }
    }

    /// The directory of the unpacked bundle that holds the icons of the size at `at`.
    pub fn icon_dir(&self, at: usize) -> (r: String)
        ensures
            r@ == icon_dir_of(self.deep_view(), at as int),
    {
        let size = icon_size(at);
        let mut name = join3("usr/share/icons/hicolor/", size, "x");
        name.append(size);
        name.append("/apps");
        let root = self.unpacked_root();
        join_path(root.as_str(), name.as_str())
    }

    fn clean_up(&self, failure: Option<Error>) -> (r: (Integration, Option<Action>))
        ensures
            r.0.deep_view() == clean_up(self.deep_view(), failure.deep_view()).0,
            r.1.deep_view() == clean_up(self.deep_view(), failure.deep_view()).1,
    {
        (Integration::Cleaning { failure }, Some(Action::RemoveTree { path: self.scratch.clone() }))
    }

    fn give_up(&self, event: Event) -> (r: (Integration, Option<Action>))
        ensures
            r.0.deep_view() == give_up(self.deep_view(), event.deep_view()).0,
            r.1.deep_view() == give_up(self.deep_view(), event.deep_view()).1,
    {
        match event {
            Event::Failed(e) => self.clean_up(Some(e)),
            _ => self.clean_up(Some(Error::Unexpected)),
        }
    }

    fn list_root(&self, icon_found: bool) -> (r: (Integration, Option<Action>))
        ensures
            r.0.deep_view() == list_root(self.deep_view(), icon_found).0,
            r.1.deep_view() == list_root(self.deep_view(), icon_found).1,
    {
        (
            Integration::ListingRoot { icon_found },
            Some(Action::ListDir { path: self.unpacked_root() }),
        )
    }

    fn probe_icons(&self, at: usize) -> (r: (Integration, Option<Action>))
        ensures
            r.0.deep_view() == probe_icons(self.deep_view(), at as int).0,
            r.1.deep_view() == probe_icons(self.deep_view(), at as int).1,
    {
        if at < ICON_SIZES {
            (Integration::ProbingIcons { at }, Some(Action::Probe { path: self.icon_dir(at) }))
        } else {
            self.list_root(false)
        }
    }
}

/// The icon size at `at`, as it stands in the directory's name.
pub fn icon_size(at: usize) -> (r: &'static str)
    ensures
        r@ == icon_size_of(at as int),
{
    if at == 0 {
        "1024"
    } else if at == 1 {
        "720"
    } else if at == 2 {
        "512"
    } else if at == 3 {
        "256"
    } else if at == 4 {
        "192"
    } else if at == 5 {
        "128"
    } else if at == 6 {
        "96"
    } else if at == 7 {
        "72"
    } else if at == 8 {
        "64"
    } else if at == 9 {
        "48"
    } else if at == 10 {
        "36"
    } else if at == 11 {
        "32"
    } else if at == 12 {
        "24"
    } else if at == 13 {
        "22"
    } else {
        "16"
    }
}

impl AppImage {
    /// Where the manager keeps this bundle's icon.
    pub fn icon_path(&self, d: &Desktop) -> (r: String)
        ensures
            r@ == icon_path_of(self.deep_view(), d.deep_view()),
    {
        let name = join2(self.executable.as_str(), ".png");
        join_path(d.icons.as_str(), name.as_str())
    }

    /// Where the manager keeps this bundle's desktop entry.
    pub fn entry_path(&self, d: &Desktop) -> (r: String)
        ensures
            r@ == entry_path_of(self.deep_view(), d.deep_view()),
    {
        let name = join2(self.executable.as_str(), ".desktop");
        join_path(d.desktops.as_str(), name.as_str())
    }

    /// Where the desktop environment finds this bundle's desktop entry.
    pub fn published_path(&self, d: &Desktop) -> (r: String)
        ensures
            r@ == published_path_of(self.deep_view(), d.deep_view()),
    {
        let name = join2(self.executable.as_str(), ".desktop");
        join_path(d.applications.as_str(), name.as_str())
    }

    fn extraction(&self, scratch: &str, pattern: &str) -> (r: Task)
        ensures
            r.deep_view() == extraction(self.deep_view(), scratch@, pattern@),
    {
        Task::Do(
            Action::Extract {
                bundle: self.file_path.clone(),
                pattern: String::from_str(pattern),
                dir: String::from_str(scratch),
            },
        )
    }

    /// The plan that unpacks, below `scratch`, what integration needs of the bundle.
    pub fn extract_assets(&self, scratch: &str) -> (r: Vec<Task>)
        ensures
            r.deep_view() == extraction_plan(self.deep_view(), scratch@),
    {
        let mut r: Vec<Task> = Vec::new();
        r.push(Task::Do(Action::EnsureDir { path: String::from_str(scratch) }));
        r.push(self.extraction(scratch, "*.desktop"));
        r.push(self.extraction(scratch, "usr/share/applications/*.desktop"));
        r.push(self.extraction(scratch, "usr/share/icons/hicolor/*/apps/*.png"));
        assert(r.deep_view() =~= extraction_plan(self.deep_view(), scratch@));
        r
    }

    fn preparation(&self, d: &Desktop) -> (r: Vec<Task>)
        ensures
            r.deep_view() == preparation_plan(self.deep_view(), d.deep_view()),
    {
        let mut r = self.extract_assets(d.scratch.as_str());
        r.push(Task::Do(Action::EnsureDir { path: d.desktops.clone() }));
        r.push(Task::Do(Action::EnsureDir { path: d.icons.clone() }));
        r.push(Task::Do(Action::EnsureDir { path: d.applications.clone() }));
        assert(r.deep_view() =~= preparation_plan(self.deep_view(), d.deep_view()));
        r
    }

    fn prepare(&self, d: &Desktop, script: Script, event: Event) -> (r: (
        Integration,
        Option<Action>,
    ))
        ensures
            r.0.deep_view() == prepare(
                self.deep_view(),
                d.deep_view(),
                script.deep_view(),
                event.deep_view(),
            ).0,
            r.1.deep_view() == prepare(
                self.deep_view(),
                d.deep_view(),
                script.deep_view(),
                event.deep_view(),
            ).1,
    {
        let step = run_script(self.preparation(d), script, event);
        match step.0 {
            Script::Done => d.probe_icons(0),
            Script::Failed(e) => d.clean_up(Some(e)),
            _ => (Integration::Preparing(step.0), step.1),
        }
    }

    fn visit(
        &self,
        d: &Desktop,
        icon_found: bool,
        nested: bool,
        entries: Vec<String>,
        from: usize,
    ) -> (r: (Integration, Option<Action>))
        ensures
            r.0.deep_view() == visit(
                self.deep_view(),
                d.deep_view(),
                icon_found,
                nested,
                entries.deep_view(),
                from as int,
            ).0,
            r.1.deep_view() == visit(
                self.deep_view(),
                d.deep_view(),
                icon_found,
                nested,
                entries.deep_view(),
                from as int,
            ).1,
    {
        let at = find_extension(&entries, from, "desktop");
        if at < entries.len() {
            let dir = if nested {
                d.unpacked_applications()
            } else {
                d.unpacked_root()
            };
            let path = join_path(dir.as_str(), entries[at].as_str());
            assert(entries.deep_view()[at as int] == entries@[at as int]@);
            (
                Integration::Entry { icon_found, nested, entries, at, phase: EntryPhase::Resolving },
                Some(Action::Canonicalize { path }),
            )
        } else {
            d.after_entries(icon_found, nested)
        }
    }

    fn entry_next(
        &self,
        d: &Desktop,
        icon_found: bool,
        nested: bool,
        entries: Vec<String>,
        at: usize,
        phase: EntryPhase,
        event: Event,
    ) -> (r: (Integration, Option<Action>))
        ensures
            r.0.deep_view() == entry_next(
                self.deep_view(),
                d.deep_view(),
                icon_found,
                nested,
                entries.deep_view(),
                at,
                phase,
                event.deep_view(),
            ).0,
            r.1.deep_view() == entry_next(
                self.deep_view(),
                d.deep_view(),
                icon_found,
                nested,
                entries.deep_view(),
                at,
                phase,
                event.deep_view(),
            ).1,
    {
        match (phase, event) {
            (EntryPhase::Resolving, Event::Path(source)) => (
                Integration::Entry { icon_found, nested, entries, at, phase: EntryPhase::Copying },
                Some(Action::CopyFile { from: source, to: self.entry_path(d) }),
            ),
            (EntryPhase::Copying, Event::Done) => (
                Integration::Entry { icon_found, nested, entries, at, phase: EntryPhase::Reading },
                Some(Action::ReadFile { path: self.entry_path(d) }),
            ),
            (EntryPhase::Reading, Event::Content(text)) => {
                let content = self.fix_desktop(text.as_str(), d.icons.as_str(), icon_found);
                (
                    Integration::Entry { icon_found, nested, entries, at, phase: EntryPhase::Writing },
                    Some(Action::WriteFile { path: self.entry_path(d), content }),
                )
            },
            (EntryPhase::Writing, Event::Done) => (
                Integration::Entry { icon_found, nested, entries, at, phase: EntryPhase::Publishing },
                Some(Action::CopyFile { from: self.entry_path(d), to: self.published_path(d) }),
            ),
            (EntryPhase::Publishing, Event::Done) => {
                if at < entries.len() {
                    self.visit(d, icon_found, nested, entries, at + 1)
                } else {
                    d.after_entries(icon_found, nested)
                }
            },
            (_, event) => d.give_up(event),
        }
    }

    /// One step of the integration of this bundle into the desktop.
    pub fn integrate_desktop(&self, d: &Desktop, state: Integration, event: Event) -> (r: (
        Integration,
        Option<Action>,
    ))
        ensures
            r.0.deep_view() == integration_next(
                self.deep_view(),
                d.deep_view(),
                state.deep_view(),
                event.deep_view(),
            ).0,
            r.1.deep_view() == integration_next(
                self.deep_view(),
                d.deep_view(),
                state.deep_view(),
                event.deep_view(),
            ).1,
    {
        match state {
            Integration::Start => match event {
                Event::Begin => self.prepare(d, Script::Start, Event::Begin),
                _ => d.give_up(event),
            },
            Integration::Preparing(script) => self.prepare(d, script, event),
            Integration::ProbingIcons { at } => match event {
                Event::Exists(present) => if at >= ICON_SIZES {
                    d.clean_up(Some(Error::Unexpected))
                } else if present {
                    (
                        Integration::ListingIcons { at },
                        Some(Action::ListDir { path: d.icon_dir(at) }),
                    )
                } else {
                    d.probe_icons(at + 1)
                },
                _ => d.give_up(event),
            },
            Integration::ListingIcons { at } => match event {
                Event::Entries(names) => {
                    let found = find_extension(&names, 0, "png");
                    if at >= ICON_SIZES {
                        d.clean_up(Some(Error::Unexpected))
                    } else if found < names.len() {
                        let dir = d.icon_dir(at);
                        assert(names.deep_view()[found as int] == names@[found as int]@);
                        (
                            Integration::CopyingIcon,
                            Some(
                                Action::CopyFile {
                                    from: join_path(dir.as_str(), names[found].as_str()),
                                    to: self.icon_path(d),
                                },
                            ),
                        )
                    } else {
                        d.probe_icons(at + 1)
                    }
                },
                _ => d.give_up(event),
            },
            Integration::CopyingIcon => match event {
                Event::Done => d.list_root(true),
                _ => d.give_up(event),
            },
            Integration::ListingRoot { icon_found } => match event {
                Event::Entries(names) => self.visit(d, icon_found, false, names, 0),
                _ => d.give_up(event),
            },
            Integration::Entry { icon_found, nested, entries, at, phase } => self.entry_next(
                d,
                icon_found,
                nested,
                entries,
                at,
                phase,
                event,
            ),
            Integration::ProbingNested { icon_found } => match event {
                Event::Exists(present) => if present {
                    (
                        Integration::ListingNested { icon_found },
                        Some(Action::ListDir { path: d.unpacked_applications() }),
                    )
                } else {
                    d.clean_up(None)
                },
                _ => d.give_up(event),
            },
            Integration::ListingNested { icon_found } => match event {
                Event::Entries(names) => self.visit(d, icon_found, true, names, 0),
                _ => d.give_up(event),
            },
            Integration::Cleaning { failure } => match failure {
                Some(e) => (Integration::Failed(e), None),
                None => match event {
                    Event::Done => (Integration::Done, None),
                    Event::Failed(e) => (Integration::Failed(e), None),
                    _ => (Integration::Failed(Error::Unexpected), None),
                },
            },
            Integration::Done => (Integration::Done, None),
            Integration::Failed(e) => (Integration::Failed(e), None),
        }
    }
}

} // verus!
