//! The index: one record for each installed bundle, each in a file of its own
//! named after the key it is kept under: the name of the bundle's executable.
use crate::appimage::{AppImage, AppImageView};
use crate::error::{Error, ErrorView, IoKind};
use crate::host::{Action, ActionView, Event, EventView, Task, TaskView};
use crate::paths::{index_dir, index_dir_of, join, join_path};
use crate::text::join2;
use vstd::prelude::*;

verus! {

/// The index in its directory.
#[derive(Debug, Clone, PartialEq, Eq)]
pub struct Index {
    /// The directory of the records.
    pub dir: String,
}

pub struct IndexView {
    pub dir: Seq<char>,
}

impl DeepView for Index {
    type V = IndexView;

    open spec fn deep_view(&self) -> IndexView {
        IndexView { dir: self.dir@ }
    }
}

/// The file that holds the record kept under `name`.
pub open spec fn record_path_of(index: IndexView, name: Seq<char>) -> Seq<char> {
    join(index.dir, name + ".json"@)
}

/// How far the question whether a record exists has come.
#[derive(Debug, Clone, PartialEq, Eq)]
pub enum Lookup {
    /// Nothing was asked yet.
    Start,
    /// The host is asked whether the record's file is there.
    Probing,
    /// Whether the record exists.
    Done(bool),
    Failed(Error),
}

pub enum LookupView {
    Start,
    Probing,
    Done(bool),
    Failed(ErrorView),
}

impl DeepView for Lookup {
    type V = LookupView;

    open spec fn deep_view(&self) -> LookupView {
        match self {
            Lookup::Start => LookupView::Start,
            Lookup::Probing => LookupView::Probing,
            Lookup::Done(present) => LookupView::Done(*present),
            Lookup::Failed(e) => LookupView::Failed(e.deep_view()),
        }
    }
}

/// How far the reading of a record has come.
#[derive(Debug, Clone, PartialEq, Eq)]
pub enum Fetch {
    /// Nothing was asked yet.
    Start,
    /// The host is reading and decoding the record's file.
    Reading,
    /// The record.
    Done(AppImage),
    Failed(Error),
}

pub enum FetchView {
    Start,
    Reading,
    Done(AppImageView),
    Failed(ErrorView),
}

impl DeepView for Fetch {
    type V = FetchView;

    open spec fn deep_view(&self) -> FetchView {
        match self {
            Fetch::Start => FetchView::Start,
            Fetch::Reading => FetchView::Reading,
            Fetch::Done(record) => FetchView::Done(record.deep_view()),
            Fetch::Failed(e) => FetchView::Failed(e.deep_view()),
        }
    }
}

/// One step of the question whether a record is kept under `name`: the
/// record's file is probed, and nothing of it is read.
pub open spec fn lookup_next(index: IndexView, name: Seq<char>, state: LookupView, event: EventView) -> (
    LookupView,
    Option<ActionView>,
) {
    match state {
        LookupView::Start => match event {
            EventView::Begin => (
                LookupView::Probing,
                Some(ActionView::Probe { path: record_path_of(index, name) }),
            ),
            _ => (LookupView::Failed(ErrorView::Unexpected), None),
        },
        LookupView::Probing => match event {
            EventView::Exists(present) => (LookupView::Done(present), None),
            EventView::Failed(e) => (LookupView::Failed(e), None),
            _ => (LookupView::Failed(ErrorView::Unexpected), None),
        },
        LookupView::Done(present) => (LookupView::Done(present), None),
        LookupView::Failed(e) => (LookupView::Failed(e), None),
    }
}

/// What a failed reading of the record kept under `name` ends in: a file that
/// is not there means that no such record exists; every other failure is
/// itself.
pub open spec fn fetch_failure(name: Seq<char>, e: ErrorView) -> ErrorView {
    match e {
        ErrorView::Io(failure) => if failure.kind == IoKind::NotFound {
            ErrorView::NotFound(name)
        } else {
            e
        },
        _ => e,
    }
}

/// One step of the reading of the record kept under `name`.
pub open spec fn fetch_next(index: IndexView, name: Seq<char>, state: FetchView, event: EventView) -> (
    FetchView,
    Option<ActionView>,
) {
    match state {
        FetchView::Start => match event {
            EventView::Begin => (
                FetchView::Reading,
                Some(ActionView::ReadRecord { path: record_path_of(index, name) }),
            ),
            _ => (FetchView::Failed(ErrorView::Unexpected), None),
        },
        FetchView::Reading => match event {
            EventView::Record(record) => (FetchView::Done(record), None),
            EventView::Failed(e) => (FetchView::Failed(fetch_failure(name, e)), None),
            _ => (FetchView::Failed(ErrorView::Unexpected), None),
        },
        FetchView::Done(record) => (FetchView::Done(record), None),
        FetchView::Failed(e) => (FetchView::Failed(e), None),
    }
}

/// The plan that keeps `record` under `name`: the directory is made where it
/// is missing, and the record written over whatever was kept under the name.
pub open spec fn add_plan(index: IndexView, record: AppImageView, name: Seq<char>) -> Seq<TaskView> {
    seq![
        TaskView::Do(ActionView::EnsureDir { path: index.dir }),
        TaskView::Do(ActionView::WriteRecord { path: record_path_of(index, name), record }),
    ]
}

/// The plan that drops the record kept under `name`; it fails where there is none.
pub open spec fn remove_plan(index: IndexView, name: Seq<char>) -> Seq<TaskView> {
    seq![TaskView::Do(ActionView::RemoveFile { path: record_path_of(index, name) })]
}

impl Index {
    /// The index of the user whose home is `home`.
    pub fn new(home: &str) -> (r: Index)
        ensures
            r.dir@ == index_dir_of(home@),
    {
        Index { dir: index_dir(home) }
    }

    /// The file that holds the record kept under `name`.
    pub fn record_path(&self, name: &str) -> (r: String)
        ensures
            r@ == record_path_of(self.deep_view(), name@),
    {
        let file = join2(name, ".json");
        join_path(self.dir.as_str(), file.as_str())
    }

    /// One step of the question whether a record is kept under `executable`.
    pub fn contains(&self, executable: &str, state: Lookup, event: Event) -> (r: (
        Lookup,
        Option<Action>,
    ))
        ensures
            r.0.deep_view() == lookup_next(
                self.deep_view(),
                executable@,
                state.deep_view(),
                event.deep_view(),
            ).0,
            r.1.deep_view() == lookup_next(
                self.deep_view(),
                executable@,
                state.deep_view(),
                event.deep_view(),
            ).1,
    {
        match state {
            Lookup::Start => match event {
                Event::Begin => (
                    Lookup::Probing,
                    Some(Action::Probe { path: self.record_path(executable) }),
                ),
                _ => (Lookup::Failed(Error::Unexpected), None),
            },
            Lookup::Probing => match event {
                Event::Exists(present) => (Lookup::Done(present), None),
                Event::Failed(e) => (Lookup::Failed(e), None),
                _ => (Lookup::Failed(Error::Unexpected), None),
            },
            Lookup::Done(present) => (Lookup::Done(present), None),
            Lookup::Failed(e) => (Lookup::Failed(e), None),
        }
    }

    /// One step of the reading of the record kept under `appname`.
    pub fn get(&self, appname: &str, state: Fetch, event: Event) -> (r: (Fetch, Option<Action>))
        ensures
            r.0.deep_view() == fetch_next(
                self.deep_view(),
                appname@,
                state.deep_view(),
                event.deep_view(),
            ).0,
            r.1.deep_view() == fetch_next(
                self.deep_view(),
                appname@,
                state.deep_view(),
                event.deep_view(),
            ).1,
    {
        match state {
            Fetch::Start => match event {
                Event::Begin => (
                    Fetch::Reading,
                    Some(Action::ReadRecord { path: self.record_path(appname) }),
                ),
                _ => (Fetch::Failed(Error::Unexpected), None),
            },
            Fetch::Reading => match event {
                Event::Record(record) => (Fetch::Done(record), None),
                Event::Failed(e) => {
                    let missing = match &e {
                        Error::Io(failure) => match failure.kind {
                            IoKind::NotFound => true,
                            IoKind::Other => false,
                        },
                        _ => false,
                    };
                    if missing {
                        (Fetch::Failed(Error::NotFound(String::from_str(appname))), None)
                    } else {
                        (Fetch::Failed(e), None)
                    }
                },
                _ => (Fetch::Failed(Error::Unexpected), None),
            },
            Fetch::Done(record) => (Fetch::Done(record), None),
            Fetch::Failed(e) => (Fetch::Failed(e), None),
        }
    }

    /// The plan that keeps `appimage` under `appname`.
    pub fn add(&self, appimage: &AppImage, appname: &str) -> (r: Vec<Task>)
        ensures
            r.deep_view() == add_plan(self.deep_view(), appimage.deep_view(), appname@),
    {
        let mut r: Vec<Task> = Vec::new();
        r.push(Task::Do(Action::EnsureDir { path: self.dir.clone() }));
        r.push(
            Task::Do(
                Action::WriteRecord {
                    path: self.record_path(appname),
                    record: appimage.duplicate(),
                },
            ),
        );
        assert(r.deep_view() =~= add_plan(self.deep_view(), appimage.deep_view(), appname@));
        r
    }

    /// The plan that drops the record kept under `appname`.
    pub fn remove(&self, appname: &str) -> (r: Vec<Task>)
        ensures
            r.deep_view() == remove_plan(self.deep_view(), appname@),
    {
        let mut r: Vec<Task> = Vec::new();
        r.push(Task::Do(Action::RemoveFile { path: self.record_path(appname) }));
        assert(r.deep_view() =~= remove_plan(self.deep_view(), appname@));
        r
    }
}

} // verus!
