//! The one entry in the user's PATH that an installed bundle has: a symbolic
//! link named after the executable.
use crate::appimage::{AppImage, AppImageView};
use crate::host::{Action, ActionView, Task, TaskView};
use crate::paths::{bin_dir, bin_dir_of, join, join_path};
use vstd::prelude::*;

verus! {

/// Keeps the links in the user's directory of executables.
#[derive(Debug, Clone, PartialEq, Eq)]
pub struct SymlinkManager {
    /// The user's directory of executables.
    pub dir: String,
}

pub struct SymlinkManagerView {
    pub dir: Seq<char>,
}

impl DeepView for SymlinkManager {
    type V = SymlinkManagerView;

    open spec fn deep_view(&self) -> SymlinkManagerView {
        SymlinkManagerView { dir: self.dir@ }
    }
}

/// The link of the executable `executable`.
pub open spec fn link_path_of(links: SymlinkManagerView, executable: Seq<char>) -> Seq<char> {
    join(links.dir, executable)
}

/// The plan that links the record's executable to its bundle: the directory
/// is made where it is missing, a link that is there already is removed, and
/// the link is made anew.
pub open spec fn create_plan(links: SymlinkManagerView, record: AppImageView) -> Seq<TaskView> {
    let link = link_path_of(links, record.executable);
    seq![
        TaskView::Do(ActionView::EnsureDir { path: links.dir }),
        TaskView::DoIfExists { path: link, action: ActionView::RemoveFile { path: link } },
        TaskView::Do(ActionView::Symlink { target: record.file_path, link }),
    ]
}

/// The plan that removes the link of `executable`; it fails where there is none.
pub open spec fn unlink_plan(links: SymlinkManagerView, executable: Seq<char>) -> Seq<TaskView> {
    seq![TaskView::Do(ActionView::RemoveFile { path: link_path_of(links, executable) })]
}

impl SymlinkManager {
    /// The links of the user whose home is `home`.
    pub fn new(home: &str) -> (r: SymlinkManager)
        ensures
            r.dir@ == bin_dir_of(home@),
    {
        SymlinkManager { dir: bin_dir(home) }
    }

    /// The link of the executable `executable`.
    pub fn link_path(&self, executable: &str) -> (r: String)
        ensures
            r@ == link_path_of(self.deep_view(), executable@),
    {
        join_path(self.dir.as_str(), executable)
    }

    /// The plan that removes the link of `executable`.
    pub fn remove(&self, executable: &str) -> (r: Vec<Task>)
        ensures
            r.deep_view() == unlink_plan(self.deep_view(), executable@),
    {
        let mut r: Vec<Task> = Vec::new();
        r.push(Task::Do(Action::RemoveFile { path: self.link_path(executable) }));
        assert(r.deep_view() =~= unlink_plan(self.deep_view(), executable@));
        r
    }

    /// The plan that links the record's executable to its bundle.
    pub fn create(&self, appimage: &AppImage) -> (r: Vec<Task>)
        ensures
            r.deep_view() == create_plan(self.deep_view(), appimage.deep_view()),
    {
        let mut r: Vec<Task> = Vec::new();
        r.push(Task::Do(Action::EnsureDir { path: self.dir.clone() }));
        r.push(
            Task::DoIfExists {
                path: self.link_path(appimage.executable.as_str()),
                action: Action::RemoveFile { path: self.link_path(appimage.executable.as_str()) },
            },
        );
        r.push(
            Task::Do(
                Action::Symlink {
                    target: appimage.file_path.clone(),
                    link: self.link_path(appimage.executable.as_str()),
                },
            ),
        );
        assert(r.deep_view() =~= create_plan(self.deep_view(), appimage.deep_view()));
        r
    }
}

} // verus!
