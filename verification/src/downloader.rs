//! Fetching a bundle: where it is put, what is accepted as one, and the steps
//! by which it reaches its place whole or not at all.
use crate::error::{DownloadCause, DownloadCauseView, Error, ErrorView};
use crate::github::has_bundle_suffix;
use crate::host::{
    effect, effects, lemma_run_append, run, touches, Action, ActionView, Event, EventView,
};
use crate::paths::{
    appimages_dir, appimages_dir_of, is_plain, is_plain_name, join, join_path,
    lemma_plain_name_stays_in, with_separator,
};
use crate::text::{
    ends_with, join2, last_index, last_part, last_segment, lemma_last_index, lowercase,
    lowercase_of, same_text,
};
use vstd::prelude::*;

verus! {

/// What the rules read of a server's answer before its body.
#[derive(Debug, Clone, PartialEq, Eq)]
pub struct ResponseHead {
    /// The status code.
    pub status: u16,
    /// The address that answered, after redirects.
    pub url: String,
    /// The length that the server declares, if it declares one.
    pub content_length: Option<u64>,
    /// The content type that the server declares, if it can be read as text.
    pub content_type: Option<String>,
}

pub struct ResponseHeadView {
    pub status: u16,
    pub url: Seq<char>,
    pub content_length: Option<u64>,
    pub content_type: Option<Seq<char>>,
}

impl DeepView for ResponseHead {
    type V = ResponseHeadView;

    open spec fn deep_view(&self) -> ResponseHeadView {
        ResponseHeadView {
            status: self.status,
            url: self.url@,
            content_length: self.content_length,
            content_type: match self.content_type {
                Some(text) => Some(text@),
                None => None,
            },
        }
    }
}

/// Fetches bundles into the directory it was made for.
#[derive(Debug, Clone, PartialEq, Eq)]
pub struct Downloader {
    /// The directory of the bundles.
    pub dir: String,
}

pub struct DownloaderView {
    pub dir: Seq<char>,
}

impl DeepView for Downloader {
    type V = DownloaderView;

    open spec fn deep_view(&self) -> DownloaderView {
        DownloaderView { dir: self.dir@ }
    }
}

/// The smallest length that a server may declare for a bundle.
pub const MIN_BUNDLE_LENGTH: u64 = 1024;

/// The permission bits of a fetched bundle: its owner may write it, everyone
/// may read and run it.
pub const BUNDLE_MODE: u32 = 0o755;

/// The name that a bundle is stored under where its URL names none: the
/// executable's name with `.AppImage`; of an executable's name that holds
/// separators, only what follows the last of them.
pub open spec fn fallback_name(executable: Seq<char>) -> Seq<char> {
    last_segment(executable + ".AppImage"@, '/')
}

/// The name that a bundle is stored under, given the last segment of its URL
/// and that segment in lower case: the segment where it names a bundle and
/// one entry of a directory, the fallback name else.
pub open spec fn stored_name(segment: Seq<char>, lowered: Seq<char>, executable: Seq<char>) -> Seq<
    char,
> {
    if ends_with(lowered, ".appimage"@) && is_plain_name(segment) {
        segment
    } else {
        fallback_name(executable)
    }
}

/// The name that the bundle fetched from `url` is stored under.
pub open spec fn bundle_file_name(url: Seq<char>, executable: Seq<char>) -> Seq<char> {
    let segment = last_segment(url, '/');
    stored_name(segment, lowercase_of(segment), executable)
}

/// Where the bundle fetched from `url` is stored: under its name, in the
/// directory of the bundles itself.
pub open spec fn prepared_path(dir: Seq<char>, url: Seq<char>, executable: Seq<char>) -> Seq<char> {
    join(dir, bundle_file_name(url, executable))
}

/// The file that a transfer writes to until it is complete.
pub open spec fn part_path(path: Seq<char>) -> Seq<char> {
    path + ".part"@
}

/// The content types that a bundle is served with, in lower case.
pub open spec fn accepted_type(lowered: Seq<char>) -> bool {
    ||| lowered == "application/octet-stream"@
    ||| lowered == "application/vnd.appimage"@
    ||| lowered == "application/x-executable"@
    ||| lowered == "application/x-elf"@
    ||| lowered == "binary/octet-stream"@
    ||| lowered == "application/binary"@
}

/// The content type that the server declares; empty where it declares none.
pub open spec fn declared_type(head: ResponseHeadView) -> Seq<char> {
    match head.content_type {
        Some(text) => text,
        None => Seq::empty(),
    }
}

/// Why a transfer that the server answered with `status` failed.
pub open spec fn refused(status: u16) -> DownloadCauseView {
    DownloadCauseView { timeout: false, connect: false, status: Some(status), detail: Seq::empty() }
}

/// What is made of a server's answer, given its content type in lower case.
///
/// A status outside 200 to 299 is a failed download. A declared length below
/// `MIN_BUNDLE_LENGTH`, or a content type that is none of the accepted ones,
/// is no bundle. An answer that declares no length is not refused for that.
pub open spec fn validation(head: ResponseHeadView, lowered_type: Seq<char>) -> Result<
    (),
    ErrorView,
> {
    if !(200 <= head.status < 300) {
        Err(ErrorView::Download { url: head.url, source: refused(head.status) })
    } else if head.content_length is Some && head.content_length->0 < MIN_BUNDLE_LENGTH {
        Err(ErrorView::InvalidAppImage)
    } else if !accepted_type(lowered_type) {
        Err(ErrorView::InvalidAppImage)
    } else {
        Ok(())
    }
}

/// The result agrees with `expected`.
pub open spec fn agrees(r: Result<(), Error>, expected: Result<(), ErrorView>) -> bool {
    match expected {
        Ok(_) => r is Ok,
        Err(e) => r matches Err(x) && x.deep_view() == e,
    }
}

/// The number of bytes that the progress display is opened for.
pub open spec fn declared_total(head: ResponseHeadView) -> u64 {
    match head.content_length {
        Some(len) => len,
        None => 0,
    }
}

/// The sum of two byte counts, held at the largest count that can be written.
pub open spec fn counted(received: u64, len: u64) -> u64 {
    if received + len > u64::MAX {
        u64::MAX
    } else {
        (received + len) as u64
    }
}

/// How far a transfer has come.
#[derive(Debug, Clone, PartialEq, Eq)]
pub enum Download {
    /// Nothing was asked yet.
    Start,
    /// The directory of the bundles is made.
    MakingDir,
    /// The server is asked.
    Requesting,
    /// The progress display is opened.
    Announcing,
    /// The part file is created.
    Creating,
    /// The next part of the body is read; `received` bytes were written so far.
    Reading { received: u64 },
    /// A part is written; with it `received` bytes will have been written.
    Writing { received: u64 },
    /// The progress is reported.
    Reporting { received: u64 },
    /// The stream broke: the part file is removed.
    Cleaning { cause: DownloadCause },
    /// The body is complete: the progress display is closed.
    Closing,
    /// The part file is moved to the bundle's path.
    Renaming,
    /// The bundle is made executable.
    Marking,
    Done,
    Failed(Error),
}

pub enum DownloadView {
    Start,
    MakingDir,
    Requesting,
    Announcing,
    Creating,
    Reading { received: u64 },
    Writing { received: u64 },
    Reporting { received: u64 },
    Cleaning { cause: DownloadCauseView },
    Closing,
    Renaming,
    Marking,
    Done,
    Failed(ErrorView),
}

impl DeepView for Download {
    type V = DownloadView;

    open spec fn deep_view(&self) -> DownloadView {
        match self {
            Download::Start => DownloadView::Start,
            Download::MakingDir => DownloadView::MakingDir,
            Download::Requesting => DownloadView::Requesting,
            Download::Announcing => DownloadView::Announcing,
            Download::Creating => DownloadView::Creating,
            Download::Reading { received } => DownloadView::Reading { received: *received },
            Download::Writing { received } => DownloadView::Writing { received: *received },
            Download::Reporting { received } => DownloadView::Reporting { received: *received },
            Download::Cleaning { cause } => DownloadView::Cleaning { cause: cause.deep_view() },
            Download::Closing => DownloadView::Closing,
            Download::Renaming => DownloadView::Renaming,
            Download::Marking => DownloadView::Marking,
            Download::Done => DownloadView::Done,
            Download::Failed(e) => DownloadView::Failed(e.deep_view()),
        }
    }
}

/// What a transfer under way makes of an answer that reports no success.
pub open spec fn download_stops(event: EventView) -> (DownloadView, Option<ActionView>) {
    match event {
        EventView::Failed(e) => (DownloadView::Failed(e), None),
        _ => (DownloadView::Failed(ErrorView::Unexpected), None),
    }
}

/// One step of the transfer of `url` to `path`.
///
/// The body is written to the part file beside `path`, and the bytes written
/// are reported after every part. A stream that breaks has the part file
/// removed and the transfer fail with the stream's cause. Only a body that
/// was read to its end is moved to `path`, in one step, and made executable.
pub open spec fn download_next(
    d: DownloaderView,
    url: Seq<char>,
    path: Seq<char>,
    state: DownloadView,
    event: EventView,
) -> (DownloadView, Option<ActionView>) {
    let part = part_path(path);
    match state {
        DownloadView::Start => match event {
            EventView::Begin => (
                DownloadView::MakingDir,
                Some(ActionView::EnsureDir { path: d.dir }),
            ),
            _ => download_stops(event),
        },
        DownloadView::MakingDir => match event {
            EventView::Done => (DownloadView::Requesting, Some(ActionView::Request { url })),
            _ => download_stops(event),
        },
        DownloadView::Requesting => match event {
            EventView::Response(head) => match validation(
                head,
                lowercase_of(declared_type(head)),
            ) {
                Ok(_) => (
                    DownloadView::Announcing,
                    Some(ActionView::StartProgress { total: declared_total(head) }),
                ),
                Err(e) => (DownloadView::Failed(e), None),
            },
            EventView::Broken(cause) => (
                DownloadView::Failed(ErrorView::Download { url, source: cause }),
                None,
            ),
            _ => download_stops(event),
        },
        DownloadView::Announcing => match event {
            EventView::Done => (
                DownloadView::Creating,
                Some(ActionView::CreateFile { path: part }),
            ),
            _ => download_stops(event),
        },
        DownloadView::Creating => match event {
            EventView::Done => (
                DownloadView::Reading { received: 0 },
                Some(ActionView::NextChunk),
            ),
            _ => download_stops(event),
        },
        DownloadView::Reading { received } => match event {
            EventView::Chunk(len) => (
                DownloadView::Writing { received: counted(received, len) },
                Some(ActionView::WriteChunk { path: part }),
            ),
            EventView::EndOfStream => (
                DownloadView::Closing,
                Some(ActionView::FinishProgress { message: "Download complete!"@ }),
            ),
            EventView::Broken(cause) => (
                DownloadView::Cleaning { cause },
                Some(ActionView::RemoveFile { path: part }),
            ),
            _ => download_stops(event),
        },
        DownloadView::Writing { received } => match event {
            EventView::Done => (
                DownloadView::Reporting { received },
                Some(ActionView::Progress { done: received }),
            ),
            _ => download_stops(event),
        },
        DownloadView::Reporting { received } => match event {
            EventView::Done => (DownloadView::Reading { received }, Some(ActionView::NextChunk)),
            _ => download_stops(event),
        },
        DownloadView::Cleaning { cause } => match event {
            EventView::Done => (
                DownloadView::Failed(ErrorView::Download { url, source: cause }),
                None,
            ),
            _ => download_stops(event),
        },
        DownloadView::Closing => match event {
            EventView::Done => (
                DownloadView::Renaming,
                Some(ActionView::Rename { from: part, to: path }),
            ),
            _ => download_stops(event),
        },
        DownloadView::Renaming => match event {
            EventView::Done => (
                DownloadView::Marking,
                Some(ActionView::SetMode { path, mode: BUNDLE_MODE }),
            ),
            _ => download_stops(event),
        },
        DownloadView::Marking => match event {
            EventView::Done => (DownloadView::Done, None),
            _ => download_stops(event),
        },
        DownloadView::Done => (DownloadView::Done, None),
        DownloadView::Failed(e) => (DownloadView::Failed(e), None),
    }
}

/// The transfer has not read its body to the end, nor given up.
pub open spec fn in_transfer(state: DownloadView) -> bool {
    match state {
        DownloadView::Start => true,
        DownloadView::MakingDir => true,
        DownloadView::Requesting => true,
        DownloadView::Announcing => true,
        DownloadView::Creating => true,
        DownloadView::Reading { .. } => true,
        DownloadView::Writing { .. } => true,
        DownloadView::Reporting { .. } => true,
        _ => false,
    }
}

/// The step function of the transfer of `url` to `path`.
pub open spec fn download_steps(d: DownloaderView, url: Seq<char>, path: Seq<char>) -> spec_fn(
    DownloadView,
    EventView,
) -> (DownloadView, Option<ActionView>) {
    |state: DownloadView, event: EventView| download_next(d, url, path, state, event)
}

/// The fallback name is one entry of a directory and nothing else, and it
/// ends with `.AppImage`, whatever the executable's name is.
pub proof fn lemma_fallback_name_is_plain(executable: Seq<char>)
    ensures
        is_plain_name(fallback_name(executable)),
        ends_with(fallback_name(executable), ".AppImage"@),
{
    reveal_strlit(".AppImage");
    let ending = ".AppImage"@;
    let full = executable + ending;
    let name = fallback_name(executable);
    assert(ending.len() == 9);
    assert(forall|k: int| 0 <= k < 9 ==> ending[k] != '/');
    lemma_last_index(full, '/');
    let at = last_index(full, '/');
    if full.contains('/') {
        if at >= executable.len() {
            assert(full[at] == ending[at - executable.len()]);
        }
    }
    assert(at < executable.len());
    assert(name.len() >= 9);
    assert(name.skip(name.len() - 9) =~= ending);
    assert(!name.contains('/')) by {
        if name.contains('/') {
            let k = choose|k: int| 0 <= k < name.len() && name[k] == '/';
            assert(full[at + 1 + k] == '/');
            assert(full.contains('/'));
        }
    }
}

/// A bundle is stored in the directory of the bundles itself, whatever its
/// URL and the executable's name are.
///
/// The path is the directory, one separator and the bundle's name. The name
/// holds no separator and is neither `.` nor `..`, so it is all that follows
/// the path's last separator. And the name is that of a bundle: in lower case
/// it ends with `.appimage`, or it is the fallback name and ends with
/// `.AppImage`.
pub proof fn lemma_bundle_stays_in_its_directory(
    dir: Seq<char>,
    url: Seq<char>,
    executable: Seq<char>,
)
    ensures
        ({
            let name = bundle_file_name(url, executable);
            let path = prepared_path(dir, url, executable);
            &&& is_plain_name(name)
            &&& path == with_separator(dir) + name
            &&& last_segment(path, '/') == name
            &&& ends_with(lowercase_of(name), ".appimage"@) || ends_with(name, ".AppImage"@)
        }),
{
    lemma_fallback_name_is_plain(executable);
    lemma_plain_name_stays_in(dir, bundle_file_name(url, executable));
}

/// The part file is another file than the bundle.
pub proof fn lemma_part_path_differs(path: Seq<char>)
    ensures
        part_path(path) != path,
{
    reveal_strlit(".part");
    assert(part_path(path).len() == path.len() + 5);
}

/// While a transfer is still reading, nothing it asked for has touched the
/// bundle's path.
pub proof fn lemma_transfer_spares_destination(
    d: DownloaderView,
    url: Seq<char>,
    path: Seq<char>,
    state: DownloadView,
    events: Seq<EventView>,
)
    requires
        d.dir != path,
        in_transfer(run(download_steps(d, url, path), state, events).0),
    ensures
        in_transfer(state),
        forall|i: int|
            0 <= i < run(download_steps(d, url, path), state, events).1.len() ==> !touches(
                #[trigger] run(download_steps(d, url, path), state, events).1[i],
                path,
            ),
    decreases events.len(),
{
    let next = download_steps(d, url, path);
    lemma_part_path_differs(path);
    if events.len() > 0 {
        let step = next(state, events[0]);
        assert(step == download_next(d, url, path, state, events[0]));
        lemma_transfer_spares_destination(d, url, path, step.0, events.drop_first());
        let rest = run(next, step.0, events.drop_first());
        assert forall|i: int| 0 <= i < run(next, state, events).1.len() implies !touches(
            #[trigger] run(next, state, events).1[i],
            path,
        ) by {
            match step.1 {
                Some(action) => {
                    if i > 0 {
                        assert(run(next, state, events).1[i] == rest.1[i - 1]);
                    }
                },
                None => {},
            }
        }
    }
}

/// A stream that breaks while it is read leaves the bundle's path as it was:
/// the transfer removes the part file as its last action, touches the
/// bundle's path at no time, and fails with the stream's cause.
pub proof fn lemma_broken_stream_leaves_destination(
    d: DownloaderView,
    url: Seq<char>,
    path: Seq<char>,
    before: Seq<EventView>,
    cause: DownloadCauseView,
)
    requires
        d.dir != path,
        run(download_steps(d, url, path), DownloadView::Start, before).0 is Reading,
    ensures
        ({
            let whole = run(
                download_steps(d, url, path),
                DownloadView::Start,
                before + seq![EventView::Broken(cause), EventView::Done],
            );
            &&& whole.0 == DownloadView::Failed(ErrorView::Download { url, source: cause })
            &&& whole.1.len() > 0
            &&& whole.1.last() == ActionView::RemoveFile { path: part_path(path) }
            &&& forall|i: int| 0 <= i < whole.1.len() ==> !touches(#[trigger] whole.1[i], path)
        }),
{
    let next = download_steps(d, url, path);
    let tail = seq![EventView::Broken(cause), EventView::Done];
    let first = run(next, DownloadView::Start, before);
    lemma_transfer_spares_destination(d, url, path, DownloadView::Start, before);
    lemma_run_append(next, DownloadView::Start, before, tail);
    lemma_part_path_differs(path);
    let one = next(first.0, tail[0]);
    assert(one == download_next(d, url, path, first.0, tail[0]));
    let two = next(one.0, tail[1]);
    assert(two == download_next(d, url, path, one.0, tail[1]));
    assert(tail.drop_first() =~= seq![EventView::Done]);
    assert(tail.drop_first().drop_first() =~= Seq::<EventView>::empty());
    let last = run(next, first.0, tail);
    assert(run(next, two.0, Seq::<EventView>::empty()).1 =~= Seq::<ActionView>::empty());
    assert(run(next, one.0, tail.drop_first()).1 =~= Seq::<ActionView>::empty());
    assert(last.1 =~= seq![ActionView::RemoveFile { path: part_path(path) }]);
    assert(last.0 == two.0);
}

/// The transfer has asked for the part file to be moved to the bundle's path.
pub open spec fn has_moved(state: DownloadView) -> bool {
    state is Renaming || state is Marking || state is Done
}

proof fn lemma_moved_stays(
    d: DownloaderView,
    url: Seq<char>,
    path: Seq<char>,
    state: DownloadView,
    events: Seq<EventView>,
    world: Set<Seq<char>>,
)
    requires
        has_moved(state) ==> world.contains(path) && !world.contains(part_path(path)),
    ensures
        ({
            let r = run(download_steps(d, url, path), state, events);
            has_moved(r.0) ==> effects(r.1, world).contains(path) && !effects(r.1, world).contains(
                part_path(path),
            )
        }),
    decreases events.len(),
{
    let next = download_steps(d, url, path);
    lemma_part_path_differs(path);
    if events.len() > 0 {
        let step = next(state, events[0]);
        assert(step == download_next(d, url, path, state, events[0]));
        let later = match step.1 {
            Some(action) => effect(action, world),
            None => world,
        };
        lemma_moved_stays(d, url, path, step.0, events.drop_first(), later);
        let rest = run(next, step.0, events.drop_first());
        match step.1 {
            Some(action) => {
                assert((seq![action] + rest.1).drop_first() =~= rest.1);
            },
            None => {},
        }
    }
}

/// A transfer that ends well has put the bundle in its place.
///
/// Once a transfer has ended as `Done`, and the host has carried out what it
/// asked for, the bundle is at its path and the part file is gone.
pub proof fn lemma_finished_transfer_is_in_place(
    d: DownloaderView,
    url: Seq<char>,
    path: Seq<char>,
    events: Seq<EventView>,
    world: Set<Seq<char>>,
)
    requires
        run(download_steps(d, url, path), DownloadView::Start, events).0 is Done,
    ensures
        ({
            let r = run(download_steps(d, url, path), DownloadView::Start, events);
            effects(r.1, world).contains(path) && !effects(r.1, world).contains(part_path(path))
        }),
{
    lemma_moved_stays(d, url, path, DownloadView::Start, events, world);
}

impl ResponseHead {
    /// The number of bytes that the progress display is opened for: the
    /// declared length, or 0 where none is declared.
    pub fn total(&self) -> (r: u64)
        ensures
            r == declared_total(self.deep_view()),
    {
        match self.content_length {
            Some(len) => len,
            None => 0,
        }
    }
}

/// Whether a bundle is served with this content type, given in lower case.
pub fn is_accepted_type(lowered: &str) -> (r: bool)
    ensures
        r == accepted_type(lowered@),
{
    same_text(lowered, "application/octet-stream") || same_text(
        lowered,
        "application/vnd.appimage",
    ) || same_text(lowered, "application/x-executable") || same_text(lowered, "application/x-elf")
        || same_text(lowered, "binary/octet-stream") || same_text(lowered, "application/binary")
}

impl Downloader {
    /// A downloader for the user whose home is `home`.
    pub fn new(home: &str) -> (r: Downloader)
        ensures
            r.dir@ == appimages_dir_of(home@),
    {
        Downloader { dir: appimages_dir(home) }
    }

    /// The name that a bundle is stored under, given the last segment of its
    /// URL and that segment in lower case.
    pub fn file_name(segment: &str, lowered: &str, executable: &str) -> (r: String)
        ensures
            r@ == stored_name(segment@, lowered@, executable@),
    {
        if has_bundle_suffix(lowered) && is_plain(segment) {
            String::from_str(segment)
        } else {
            let full = join2(executable, ".AppImage");
            last_part(full.as_str(), '/')
        }
    }

    /// Where the bundle fetched from `url` is stored: in the directory of the
    /// bundles itself, under the last segment of the URL where that names a
    /// bundle, under the fallback name of the executable else.
    pub fn prepare_path(&self, url: &str, executable: &str) -> (r: String)
        ensures
            r@ == prepared_path(self.dir@, url@, executable@),
    {
        let segment = last_part(url, '/');
        let lowered = lowercase(segment.as_str());
        let name = Downloader::file_name(segment.as_str(), lowered.as_str(), executable);
        join_path(self.dir.as_str(), name.as_str())
    }

    /// The file that a transfer to `path` writes to until it is complete.
    pub fn part_path(path: &str) -> (r: String)
        ensures
            r@ == part_path(path@),
    {
        join2(path, ".part")
    }

    /// What is made of a server's answer, given its content type in lower case.
    pub fn check_response(head: &ResponseHead, lowered_type: &str) -> (r: Result<(), Error>)
        ensures
            agrees(r, validation(head.deep_view(), lowered_type@)),
    {
        if !(200 <= head.status && head.status < 300) {
            return Err(
                Error::Download {
                    url: head.url.clone(),
                    source: DownloadCause {
                        timeout: false,
                        connect: false,
                        status: Some(head.status),
                        detail: String::new(),
                    },
                },
            );
        }
        match head.content_length {
            Some(len) => {
                if len < MIN_BUNDLE_LENGTH {
                    return Err(Error::InvalidAppImage);
                }
            },
            None => {},
        }
        if !is_accepted_type(lowered_type) {
            return Err(Error::InvalidAppImage);
        }
        Ok(())
    }

    /// What is made of a server's answer before its body is read.
    pub fn validate_response(&self, head: &ResponseHead) -> (r: Result<(), Error>)
        ensures
            agrees(r, validation(head.deep_view(), lowercase_of(declared_type(head.deep_view())))),
    {
        let lowered = match &head.content_type {
            Some(text) => lowercase(text.as_str()),
            None => {
                proof {
                    reveal_strlit("");
                    assert(""@ =~= Seq::<char>::empty());
                }
                lowercase("")
            },
        };
        Downloader::check_response(head, lowered.as_str())
    }

    /// One step of the transfer of `url` to `path`.
    pub fn download_with_progress(&self, url: &str, path: &str, state: Download, event: Event) -> (r:
        (Download, Option<Action>))
        ensures
            r.0.deep_view() == download_next(
                self.deep_view(),
                url@,
                path@,
                state.deep_view(),
                event.deep_view(),
            ).0,
            r.1.deep_view() == download_next(
                self.deep_view(),
                url@,
                path@,
                state.deep_view(),
                event.deep_view(),
            ).1,
    {
        match (state, event) {
            (Download::Start, Event::Begin) => (
                Download::MakingDir,
                Some(Action::EnsureDir { path: self.dir.clone() }),
            ),
            (Download::MakingDir, Event::Done) => (
                Download::Requesting,
                Some(Action::Request { url: String::from_str(url) }),
            ),
            (Download::Requesting, Event::Response(head)) => match self.validate_response(&head) {
                Ok(_) => (
                    Download::Announcing,
                    Some(Action::StartProgress { total: head.total() }),
                ),
                Err(e) => (Download::Failed(e), None),
            },
            (Download::Requesting, Event::Broken(cause)) => (
                Download::Failed(Error::Download { url: String::from_str(url), source: cause }),
                None,
            ),
            (Download::Announcing, Event::Done) => (
                Download::Creating,
                Some(Action::CreateFile { path: Downloader::part_path(path) }),
            ),
            (Download::Creating, Event::Done) => (
                Download::Reading { received: 0 },
                Some(Action::NextChunk),
            ),
            (Download::Reading { received }, Event::Chunk(len)) => (
                Download::Writing { received: received.saturating_add(len) },
                Some(Action::WriteChunk { path: Downloader::part_path(path) }),
            ),
            (Download::Reading { .. }, Event::EndOfStream) => (
                Download::Closing,
                Some(Action::FinishProgress { message: String::from_str("Download complete!") }),
            ),
            (Download::Reading { .. }, Event::Broken(cause)) => (
                Download::Cleaning { cause },
                Some(Action::RemoveFile { path: Downloader::part_path(path) }),
            ),
            (Download::Writing { received }, Event::Done) => (
                Download::Reporting { received },
                Some(Action::Progress { done: received }),
            ),
            (Download::Reporting { received }, Event::Done) => (
                Download::Reading { received },
                Some(Action::NextChunk),
            ),
            (Download::Cleaning { cause }, Event::Done) => (
                Download::Failed(Error::Download { url: String::from_str(url), source: cause }),
                None,
            ),
            (Download::Closing, Event::Done) => (
                Download::Renaming,
                Some(
                    Action::Rename {
                        from: Downloader::part_path(path),
                        to: String::from_str(path),
                    },
                ),
            ),
            (Download::Renaming, Event::Done) => (
                Download::Marking,
                Some(Action::SetMode { path: String::from_str(path), mode: BUNDLE_MODE }),
            ),
            (Download::Marking, Event::Done) => (Download::Done, None),
            (Download::Done, _) => (Download::Done, None),
            (Download::Failed(e), _) => (Download::Failed(e), None),
            (_, Event::Failed(e)) => (Download::Failed(e), None),
            (_, _) => (Download::Failed(Error::Unexpected), None),
        }
    }
}

} // verus!
