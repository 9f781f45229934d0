//! What the rules ask of the machine they run on, and what it answers.
//!
//! The rules touch no file, network or terminal. Each operation is a step
//! function: it takes the state it is in and the host's answer to the action
//! asked last, and gives the next state with the next action to carry out.
use crate::appimage::{AppImage, AppImageView};
use crate::downloader::{ResponseHead, ResponseHeadView};
use crate::error::{DownloadCause, DownloadCauseView, Error, ErrorView};
use crate::github::{Release, ReleaseView};
use vstd::prelude::*;

verus! {

/// One thing for the host to do.
#[derive(Debug, Clone, PartialEq, Eq)]
pub enum Action {
    /// Create the directory, and those above it, where they are missing.
    EnsureDir { path: String },
    /// Tell whether something is at the path: a file, a directory, or a link,
    /// whatever it points to. Answered by `Exists`.
    Probe { path: String },
    /// Name what the directory holds. Answered by `Entries`.
    ListDir { path: String },
    /// Read the file as text. Answered by `Content`.
    ReadFile { path: String },
    /// Write the text to the file, replacing what it held.
    WriteFile { path: String, content: String },
    /// Copy the file's contents to `to`.
    CopyFile { from: String, to: String },
    /// Follow the links on the path. Answered by `Path`.
    Canonicalize { path: String },
    /// Move the file to `to` in one step, replacing what was there.
    Rename { from: String, to: String },
    /// Delete the file.
    RemoveFile { path: String },
    /// Delete the directory and all below it.
    RemoveTree { path: String },
    /// Make `link` a symbolic link to `target`.
    Symlink { target: String, link: String },
    /// Set the file's permission bits.
    SetMode { path: String, mode: u32 },
    /// Read the file and decode the record in it. Answered by `Record`.
    ReadRecord { path: String },
    /// Encode the record and write it to the file.
    WriteRecord { path: String, record: AppImage },
    /// Run the bundle so that it unpacks, below `dir`, its files that match `pattern`.
    Extract { bundle: String, pattern: String, dir: String },
    /// Ask the server for the resource. Answered by `Response` or `Broken`.
    Request { url: String },
    /// Create the file empty and keep it open for `WriteChunk`.
    CreateFile { path: String },
    /// Read the next part of the body. Answered by `Chunk`, `EndOfStream` or `Broken`.
    NextChunk,
    /// Append the part read last to the open file.
    WriteChunk { path: String },
    /// List the repository's releases, newest first. Answered by `Releases`.
    ListReleases { owner: String, repo: String, per_page: u8 },
    /// Show the line to the user.
    Say { text: String },
    /// Show the prompt and read one line. Answered by `Answer`.
    Ask { prompt: String },
    /// Let the user pick one of the items. Answered by `Choice`.
    Choose { prompt: String, items: Vec<String> },
    /// Open the progress display for `total` bytes; 0 where the total is unknown.
    StartProgress { total: u64 },
    /// Report that `done` bytes have arrived.
    Progress { done: u64 },
    /// Close the progress display with a last word.
    FinishProgress { message: String },
}

/// The host's answer to an action.
#[derive(Debug, Clone, PartialEq, Eq)]
pub enum Event {
    /// Nothing was asked yet: the operation begins.
    Begin,
    /// The action was carried out.
    Done,
    /// The action failed.
    Failed(Error),
    Exists(bool),
    /// The names of a directory's entries, in the order the system gave them.
    Entries(Vec<String>),
    Content(String),
    Path(String),
    Record(AppImage),
    Response(ResponseHead),
    /// A part of the body arrived; its length in bytes.
    Chunk(u64),
    EndOfStream,
    /// The transfer failed.
    Broken(DownloadCause),
    Releases(Vec<Release>),
    Answer(String),
    /// The position of the item that the user picked.
    Choice(usize),
}

pub enum ActionView {
    EnsureDir { path: Seq<char> },
    Probe { path: Seq<char> },
    ListDir { path: Seq<char> },
    ReadFile { path: Seq<char> },
    WriteFile { path: Seq<char>, content: Seq<char> },
    CopyFile { from: Seq<char>, to: Seq<char> },
    Canonicalize { path: Seq<char> },
    Rename { from: Seq<char>, to: Seq<char> },
    RemoveFile { path: Seq<char> },
    RemoveTree { path: Seq<char> },
    Symlink { target: Seq<char>, link: Seq<char> },
    SetMode { path: Seq<char>, mode: u32 },
    ReadRecord { path: Seq<char> },
    WriteRecord { path: Seq<char>, record: AppImageView },
    Extract { bundle: Seq<char>, pattern: Seq<char>, dir: Seq<char> },
    Request { url: Seq<char> },
    CreateFile { path: Seq<char> },
    NextChunk,
    WriteChunk { path: Seq<char> },
    ListReleases { owner: Seq<char>, repo: Seq<char>, per_page: u8 },
    Say { text: Seq<char> },
    Ask { prompt: Seq<char> },
    Choose { prompt: Seq<char>, items: Seq<Seq<char>> },
    StartProgress { total: u64 },
    Progress { done: u64 },
    FinishProgress { message: Seq<char> },
}

pub enum EventView {
    Begin,
    Done,
    Failed(ErrorView),
    Exists(bool),
    Entries(Seq<Seq<char>>),
    Content(Seq<char>),
    Path(Seq<char>),
    Record(AppImageView),
    Response(ResponseHeadView),
    Chunk(u64),
    EndOfStream,
    Broken(DownloadCauseView),
    Releases(Seq<ReleaseView>),
    Answer(Seq<char>),
    Choice(usize),
}

impl DeepView for Action {
    type V = ActionView;

    open spec fn deep_view(&self) -> ActionView {
        match self {
            Action::EnsureDir { path } => ActionView::EnsureDir { path: path@ },
            Action::Probe { path } => ActionView::Probe { path: path@ },
            Action::ListDir { path } => ActionView::ListDir { path: path@ },
            Action::ReadFile { path } => ActionView::ReadFile { path: path@ },
            Action::WriteFile { path, content } => ActionView::WriteFile {
                path: path@,
                content: content@,
            },
            Action::CopyFile { from, to } => ActionView::CopyFile { from: from@, to: to@ },
            Action::Canonicalize { path } => ActionView::Canonicalize { path: path@ },
            Action::Rename { from, to } => ActionView::Rename { from: from@, to: to@ },
            Action::RemoveFile { path } => ActionView::RemoveFile { path: path@ },
            Action::RemoveTree { path } => ActionView::RemoveTree { path: path@ },
            Action::Symlink { target, link } => ActionView::Symlink {
                target: target@,
                link: link@,
            },
            Action::SetMode { path, mode } => ActionView::SetMode { path: path@, mode: *mode },
            Action::ReadRecord { path } => ActionView::ReadRecord { path: path@ },
            Action::WriteRecord { path, record } => ActionView::WriteRecord {
                path: path@,
                record: record.deep_view(),
            },
            Action::Extract { bundle, pattern, dir } => ActionView::Extract {
                bundle: bundle@,
                pattern: pattern@,
                dir: dir@,
            },
            Action::Request { url } => ActionView::Request { url: url@ },
            Action::CreateFile { path } => ActionView::CreateFile { path: path@ },
            Action::NextChunk => ActionView::NextChunk,
            Action::WriteChunk { path } => ActionView::WriteChunk { path: path@ },
            Action::ListReleases { owner, repo, per_page } => ActionView::ListReleases {
                owner: owner@,
                repo: repo@,
                per_page: *per_page,
            },
            Action::Say { text } => ActionView::Say { text: text@ },
            Action::Ask { prompt } => ActionView::Ask { prompt: prompt@ },
            Action::Choose { prompt, items } => ActionView::Choose {
                prompt: prompt@,
                items: items.deep_view(),
            },
            Action::StartProgress { total } => ActionView::StartProgress { total: *total },
            Action::Progress { done } => ActionView::Progress { done: *done },
            Action::FinishProgress { message } => ActionView::FinishProgress {
                message: message@,
            },
        }
    }
}

impl DeepView for Event {
    type V = EventView;

    open spec fn deep_view(&self) -> EventView {
        match self {
            Event::Begin => EventView::Begin,
            Event::Done => EventView::Done,
            Event::Failed(e) => EventView::Failed(e.deep_view()),
            Event::Exists(b) => EventView::Exists(*b),
            Event::Entries(names) => EventView::Entries(names.deep_view()),
            Event::Content(text) => EventView::Content(text@),
            Event::Path(path) => EventView::Path(path@),
            Event::Record(record) => EventView::Record(record.deep_view()),
            Event::Response(head) => EventView::Response(head.deep_view()),
            Event::Chunk(len) => EventView::Chunk(*len),
            Event::EndOfStream => EventView::EndOfStream,
            Event::Broken(cause) => EventView::Broken(cause.deep_view()),
            Event::Releases(releases) => EventView::Releases(releases.deep_view()),
            Event::Answer(text) => EventView::Answer(text@),
            Event::Choice(at) => EventView::Choice(*at),
        }
    }
}

/// One entry of a plan.
#[derive(Debug, Clone, PartialEq, Eq)]
pub enum Task {
    /// Carry the action out.
    Do(Action),
    /// Carry the action out if something is at the path; pass it over if not.
    DoIfExists { path: String, action: Action },
}

pub enum TaskView {
    Do(ActionView),
    DoIfExists { path: Seq<char>, action: ActionView },
}

impl DeepView for Task {
    type V = TaskView;

    open spec fn deep_view(&self) -> TaskView {
        match self {
            Task::Do(action) => TaskView::Do(action.deep_view()),
            Task::DoIfExists { path, action } => TaskView::DoIfExists {
                path: path@,
                action: action.deep_view(),
            },
        }
    }
}

/// How far a plan has been carried out.
#[derive(Debug, Clone, PartialEq, Eq)]
pub enum Script {
    /// Nothing was asked yet.
    Start,
    /// The host is asked whether the path of the entry at this position exists.
    Probing(usize),
    /// The host is carrying out the action of the entry at this position.
    Doing(usize),
    /// Every entry was carried out or passed over.
    Done,
    /// An action failed; those after it were not asked for.
    Failed(Error),
}

pub enum ScriptView {
    Start,
    Probing(usize),
    Doing(usize),
    Done,
    Failed(ErrorView),
}

impl DeepView for Script {
    type V = ScriptView;

    open spec fn deep_view(&self) -> ScriptView {
        match self {
            Script::Start => ScriptView::Start,
            Script::Probing(at) => ScriptView::Probing(*at),
            Script::Doing(at) => ScriptView::Doing(*at),
            Script::Done => ScriptView::Done,
            Script::Failed(e) => ScriptView::Failed(e.deep_view()),
        }
    }
}

/// The action of an entry.
pub open spec fn action_of(task: TaskView) -> ActionView {
    match task {
        TaskView::Do(action) => action,
        TaskView::DoIfExists { action, .. } => action,
    }
}

/// What a plan asks for when its entry at `at` is reached: the entry's action,
/// or first the probe that guards it; nothing once the plan is through.
pub open spec fn issue(plan: Seq<TaskView>, at: int) -> (ScriptView, Option<ActionView>) {
    if 0 <= at < plan.len() && at <= usize::MAX {
        match plan[at] {
            TaskView::Do(action) => (ScriptView::Doing(at as usize), Some(action)),
            TaskView::DoIfExists { path, .. } => (
                ScriptView::Probing(at as usize),
                Some(ActionView::Probe { path }),
            ),
        }
    } else {
        (ScriptView::Done, None)
    }
}

/// One step of a plan: the entries are taken in order, an entry whose path is
/// absent is passed over, and the first failure ends the plan.
pub open spec fn script_next(plan: Seq<TaskView>, state: ScriptView, event: EventView) -> (
    ScriptView,
    Option<ActionView>,
) {
    match state {
        ScriptView::Start => match event {
            EventView::Begin => issue(plan, 0),
            _ => (ScriptView::Failed(ErrorView::Unexpected), None),
        },
        ScriptView::Doing(at) => match event {
            EventView::Done => issue(plan, at + 1),
            EventView::Failed(e) => (ScriptView::Failed(e), None),
            _ => (ScriptView::Failed(ErrorView::Unexpected), None),
        },
        ScriptView::Probing(at) => match event {
            EventView::Exists(present) => if !present {
                issue(plan, at + 1)
            } else if at < plan.len() {
                (ScriptView::Doing(at), Some(action_of(plan[at as int])))
            } else {
                (ScriptView::Failed(ErrorView::Unexpected), None)
            },
            EventView::Failed(e) => (ScriptView::Failed(e), None),
            _ => (ScriptView::Failed(ErrorView::Unexpected), None),
        },
        ScriptView::Done => (ScriptView::Done, None),
        ScriptView::Failed(e) => (ScriptView::Failed(e), None),
    }
}

fn issue_task(plan: Vec<Task>, at: usize) -> (r: (Script, Option<Action>))
    ensures
        r.0.deep_view() == issue(plan.deep_view(), at as int).0,
        r.1.deep_view() == issue(plan.deep_view(), at as int).1,
{
    let mut plan = plan;
    if at < plan.len() {
        let ghost all = plan.deep_view();
        let task = plan.swap_remove(at);
        assert(task.deep_view() == all[at as int]);
        match task {
            Task::Do(action) => (Script::Doing(at), Some(action)),
            Task::DoIfExists { path, action } => (Script::Probing(at), Some(Action::Probe { path })),
        }
    } else {
        (Script::Done, None)
    }
}

/// One step of a plan.
pub fn run_script(plan: Vec<Task>, state: Script, event: Event) -> (r: (Script, Option<Action>))
    ensures
        r.0.deep_view() == script_next(plan.deep_view(), state.deep_view(), event.deep_view()).0,
        r.1.deep_view() == script_next(plan.deep_view(), state.deep_view(), event.deep_view()).1,
{
    match state {
        Script::Start => match event {
            Event::Begin => issue_task(plan, 0),
            _ => (Script::Failed(Error::Unexpected), None),
        },
        Script::Doing(at) => match event {
            Event::Done => if at < plan.len() {
                issue_task(plan, at + 1)
            } else {
                (Script::Done, None)
            },
            Event::Failed(e) => (Script::Failed(e), None),
            _ => (Script::Failed(Error::Unexpected), None),
        },
        Script::Probing(at) => match event {
            Event::Exists(present) => if !present {
                if at < plan.len() {
                    issue_task(plan, at + 1)
                } else {
                    (Script::Done, None)
                }
            } else if at < plan.len() {
                let mut plan = plan;
                let ghost all = plan.deep_view();
                let task = plan.swap_remove(at);
                assert(task.deep_view() == all[at as int]);
                match task {
                    Task::Do(action) => (Script::Doing(at), Some(action)),
                    Task::DoIfExists { path, action } => (Script::Doing(at), Some(action)),
                }
            } else {
                (Script::Failed(Error::Unexpected), None)
            },
            Event::Failed(e) => (Script::Failed(e), None),
            _ => (Script::Failed(Error::Unexpected), None),
        },
        Script::Done => (Script::Done, None),
        Script::Failed(e) => (Script::Failed(e), None),
    }
}

/// Where an operation stands after the host has given `events` one after the
/// other, and the actions that it asked for on the way, in their order.
pub open spec fn run<S>(
    next: spec_fn(S, EventView) -> (S, Option<ActionView>),
    state: S,
    events: Seq<EventView>,
) -> (S, Seq<ActionView>)
    decreases events.len(),
{
    if events.len() == 0 {
        (state, Seq::empty())
    } else {
        let first = next(state, events[0]);
        let rest = run(next, first.0, events.drop_first());
        (
            rest.0,
            match first.1 {
                Some(action) => seq![action] + rest.1,
                None => rest.1,
            },
        )
    }
}

/// A run over two series of events is the run over the first, carried on over
/// the second.
pub proof fn lemma_run_append<S>(
    next: spec_fn(S, EventView) -> (S, Option<ActionView>),
    state: S,
    first: Seq<EventView>,
    second: Seq<EventView>,
)
    ensures
        run(next, state, first + second).0 == run(next, run(next, state, first).0, second).0,
        run(next, state, first + second).1 == run(next, state, first).1 + run(
            next,
            run(next, state, first).0,
            second,
        ).1,
    decreases first.len(),
{
    if first.len() == 0 {
        assert(first + second =~= second);
        assert(run(next, state, first).1 + run(next, state, second).1 =~= run(
            next,
            state,
            second,
        ).1);
    } else {
        let all = first + second;
        assert(all[0] == first[0]);
        assert(all.drop_first() =~= first.drop_first() + second);
        let step = next(state, first[0]);
        lemma_run_append(next, step.0, first.drop_first(), second);
        let a = run(next, step.0, first.drop_first());
        let b = run(next, a.0, second);
        match step.1 {
            Some(action) => {
                assert(seq![action] + (a.1 + b.1) =~= (seq![action] + a.1) + b.1);
            },
            None => {},
        }
    }
}

/// The action puts something at `path`, or changes or removes what is there.
pub open spec fn touches(action: ActionView, path: Seq<char>) -> bool {
    match action {
        ActionView::EnsureDir { path: p } => p == path,
        ActionView::WriteFile { path: p, .. } => p == path,
        ActionView::CopyFile { to, .. } => to == path,
        ActionView::Rename { from, to } => from == path || to == path,
        ActionView::RemoveFile { path: p } => p == path,
        ActionView::RemoveTree { path: p } => p == path,
        ActionView::Symlink { link, .. } => link == path,
        ActionView::SetMode { path: p, .. } => p == path,
        ActionView::WriteRecord { path: p, .. } => p == path,
        ActionView::CreateFile { path: p } => p == path,
        ActionView::WriteChunk { path: p } => p == path,
        _ => false,
    }
}

/// `path` is the directory `dir` or lies below it.
pub open spec fn is_below(dir: Seq<char>, path: Seq<char>) -> bool {
    path == dir || (dir + seq!['/']).is_prefix_of(path)
}

/// The paths at which something is, once the host has carried `action` out
/// where `world` were the paths before.
pub open spec fn effect(action: ActionView, world: Set<Seq<char>>) -> Set<Seq<char>> {
    match action {
        ActionView::EnsureDir { path } => world.insert(path),
        ActionView::WriteFile { path, .. } => world.insert(path),
        ActionView::CopyFile { to, .. } => world.insert(to),
        ActionView::Rename { from, to } => world.remove(from).insert(to),
        ActionView::RemoveFile { path } => world.remove(path),
        ActionView::RemoveTree { path } => Set::new(
            |p: Seq<char>| world.contains(p) && !is_below(path, p),
        ),
        ActionView::Symlink { link, .. } => world.insert(link),
        ActionView::WriteRecord { path, .. } => world.insert(path),
        ActionView::CreateFile { path } => world.insert(path),
        _ => world,
    }
}

/// The paths at which something is, once the host has carried the actions
/// out one after the other.
pub open spec fn effects(actions: Seq<ActionView>, world: Set<Seq<char>>) -> Set<Seq<char>>
    decreases actions.len(),
{
    if actions.len() == 0 {
        world
    } else {
        effects(actions.drop_first(), effect(actions[0], world))
    }
}

/// The actions that a plan asks for from its entry at `at` on, on a host that
/// carries each out and answers each probe by what is at the path.
pub open spec fn asked_from(plan: Seq<TaskView>, at: int, world: Set<Seq<char>>) -> Seq<ActionView>
    decreases plan.len() - at,
{
    if at < 0 || at >= plan.len() {
        Seq::empty()
    } else {
        match plan[at] {
            TaskView::Do(action) => seq![action] + asked_from(plan, at + 1, effect(action, world)),
            TaskView::DoIfExists { path, action } => if world.contains(path) {
                seq![ActionView::Probe { path }, action] + asked_from(
                    plan,
                    at + 1,
                    effect(action, world),
                )
            } else {
                seq![ActionView::Probe { path }] + asked_from(plan, at + 1, world)
            },
        }
    }
}

/// The answers that such a host gives to the plan from its entry at `at` on.
pub open spec fn answers_from(plan: Seq<TaskView>, at: int, world: Set<Seq<char>>) -> Seq<EventView>
    decreases plan.len() - at,
{
    if at < 0 || at >= plan.len() {
        Seq::empty()
    } else {
        match plan[at] {
            TaskView::Do(action) => seq![EventView::Done] + answers_from(
                plan,
                at + 1,
                effect(action, world),
            ),
            TaskView::DoIfExists { path, action } => if world.contains(path) {
                seq![EventView::Exists(true), EventView::Done] + answers_from(
                    plan,
                    at + 1,
                    effect(action, world),
                )
            } else {
                seq![EventView::Exists(false)] + answers_from(plan, at + 1, world)
            },
        }
    }
}

/// The step function of a plan.
pub open spec fn script_steps(plan: Seq<TaskView>) -> spec_fn(ScriptView, EventView) -> (
    ScriptView,
    Option<ActionView>,
) {
    |state: ScriptView, event: EventView| script_next(plan, state, event)
}

/// The actions, with the one asked before them put first.
pub open spec fn with_pending(pending: Option<ActionView>, actions: Seq<ActionView>) -> Seq<
    ActionView,
> {
    match pending {
        Some(action) => seq![action] + actions,
        None => actions,
    }
}

/// On a host that carries every action out, a plan runs through: from the
/// entry at `at` on it asks for exactly the actions of `asked_from`.
pub proof fn lemma_script_follows_plan(plan: Seq<TaskView>, at: int, world: Set<Seq<char>>)
    requires
        0 <= at <= plan.len() <= usize::MAX,
    ensures
        run(script_steps(plan), issue(plan, at).0, answers_from(plan, at, world)).0
            == ScriptView::Done,
        with_pending(
            issue(plan, at).1,
            run(script_steps(plan), issue(plan, at).0, answers_from(plan, at, world)).1,
        ) == asked_from(plan, at, world),
    decreases plan.len() - at,
{
    let next = script_steps(plan);
    let start = issue(plan, at);
    let answers = answers_from(plan, at, world);
    if at < plan.len() {
        match plan[at] {
            TaskView::Do(action) => {
                let later = effect(action, world);
                let tail = answers_from(plan, at + 1, later);
                lemma_script_follows_plan(plan, at + 1, later);
                assert(answers[0] == EventView::Done);
                assert(answers.drop_first() =~= tail);
                let first = next(start.0, answers[0]);
                assert(first == issue(plan, at + 1));
                let rest = run(next, first.0, tail);
                assert(with_pending(first.1, rest.1) == asked_from(plan, at + 1, later));
                assert(run(next, start.0, answers).1 == with_pending(first.1, rest.1));
            },
            TaskView::DoIfExists { path, action } => {
                if world.contains(path) {
                    let later = effect(action, world);
                    let tail = answers_from(plan, at + 1, later);
                    lemma_script_follows_plan(plan, at + 1, later);
                    assert(answers[0] == EventView::Exists(true));
                    let middle = answers.drop_first();
                    assert(middle =~= seq![EventView::Done] + tail);
                    assert(middle[0] == EventView::Done);
                    assert(middle.drop_first() =~= tail);
                    let first = next(start.0, answers[0]);
                    assert(first == (ScriptView::Doing(at as usize), Some(action)));
                    let second = next(first.0, middle[0]);
                    assert(second == issue(plan, at + 1));
                    let rest = run(next, second.0, tail);
                    assert(run(next, first.0, middle).1 == with_pending(second.1, rest.1));
                    assert(run(next, start.0, answers).1 == seq![action] + with_pending(
                        second.1,
                        rest.1,
                    ));
                    assert(seq![ActionView::Probe { path }] + (seq![action] + asked_from(
                        plan,
                        at + 1,
                        later,
                    )) =~= seq![ActionView::Probe { path }, action] + asked_from(
                        plan,
                        at + 1,
                        later,
                    ));
                } else {
                    let tail = answers_from(plan, at + 1, world);
                    lemma_script_follows_plan(plan, at + 1, world);
                    assert(answers[0] == EventView::Exists(false));
                    assert(answers.drop_first() =~= tail);
                    let first = next(start.0, answers[0]);
                    assert(first == issue(plan, at + 1));
                    let rest = run(next, first.0, tail);
                    assert(run(next, start.0, answers).1 == with_pending(first.1, rest.1));
                }
            },
        }
    }
}

} // verus!
