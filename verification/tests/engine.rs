use std::collections::BTreeMap;
use std::collections::VecDeque;
use zap_rs::{
    Action, AppImage, Asset, DownloadCause, Error, Event, Install, InstallArgs, Installed, IoFailure,
    IoKind, Listing, PackageManager, Release, Removal, ResponseHead, Source, Update,
};

#[derive(Debug, Clone, PartialEq)]
enum Node {
    Dir,
    File(Vec<u8>),
    Link(String),
    Record(AppImage),
}

enum Part {
    Bytes(Vec<u8>),
    Break(DownloadCause),
}

struct Served {
    head: ResponseHead,
    parts: Vec<Part>,
}

#[derive(Default)]
struct Host {
    nodes: BTreeMap<String, Node>,
    modes: BTreeMap<String, u32>,
    servers: BTreeMap<String, Served>,
    bundles: BTreeMap<String, Vec<(String, String)>>,
    releases: Vec<Release>,
    answers: VecDeque<String>,
    choices: VecDeque<usize>,
    said: Vec<String>,
    asked: Vec<Action>,
    reported: Vec<u64>,
    stream: VecDeque<Part>,
    pending: Vec<u8>,
}

fn missing(path: &str) -> Event {
    Event::Failed(Error::Io(IoFailure { kind: IoKind::NotFound, message: format!("{path}: not found") }))
}

fn refused(path: &str) -> Event {
    Event::Failed(Error::Io(IoFailure { kind: IoKind::Other, message: format!("{path}: refused") }))
}

fn segment_matches(pattern: &str, name: &str) -> bool {
    match pattern.split_once('*') {
        Some((before, after)) => {
            name.len() >= before.len() + after.len() && name.starts_with(before) && name.ends_with(after)
        }
        None => pattern == name,
    }
}

fn glob_matches(pattern: &str, path: &str) -> bool {
    let ps: Vec<&str> = pattern.split('/').collect();
    let ns: Vec<&str> = path.split('/').collect();
    ps.len() == ns.len() && ps.iter().zip(ns.iter()).all(|(p, n)| segment_matches(p, n))
}

impl Host {
    fn make_dirs(&mut self, path: &str) {
        let mut at = String::new();
        for part in path.split('/') {
            if part.is_empty() {
                continue;
            }
            at.push('/');
            at.push_str(part);
            self.nodes.entry(at.clone()).or_insert(Node::Dir);
        }
    }

    fn put(&mut self, path: &str, node: Node) {
        if let Some((dir, _)) = path.rsplit_once('/') {
            self.make_dirs(dir);
        }
        self.nodes.insert(path.to_string(), node);
    }

    fn names_in(&self, dir: &str) -> Vec<String> {
        let prefix = format!("{}/", dir.trim_end_matches('/'));
        self.nodes
            .keys()
            .filter_map(|k| k.strip_prefix(&prefix))
            .filter(|rest| !rest.contains('/'))
            .map(|rest| rest.to_string())
            .collect()
    }

    fn perform(&mut self, action: Action) -> Event {
        self.asked.push(action.clone());
        match action {
            Action::EnsureDir { path } => {
                self.make_dirs(&path);
                Event::Done
            }
            Action::Probe { path } => Event::Exists(self.nodes.contains_key(&path)),
            Action::ListDir { path } => match self.nodes.get(path.trim_end_matches('/')) {
                Some(Node::Dir) => Event::Entries(self.names_in(&path)),
                _ => missing(&path),
            },
            Action::ReadFile { path } => match self.nodes.get(&path) {
                Some(Node::File(bytes)) => Event::Content(String::from_utf8(bytes.clone()).unwrap()),
                _ => missing(&path),
            },
            Action::WriteFile { path, content } => {
                self.put(&path, Node::File(content.into_bytes()));
                Event::Done
            }
            Action::CopyFile { from, to } => match self.nodes.get(&from).cloned() {
                Some(node) => {
                    self.put(&to, node);
                    Event::Done
                }
                None => missing(&from),
            },
            Action::Canonicalize { path } => {
                if self.nodes.contains_key(&path) {
                    Event::Path(path)
                } else {
                    missing(&path)
                }
            }
            Action::Rename { from, to } => match self.nodes.remove(&from) {
                Some(node) => {
                    self.put(&to, node);
                    Event::Done
                }
                None => missing(&from),
            },
            Action::RemoveFile { path } => match self.nodes.remove(&path) {
                Some(_) => Event::Done,
                None => missing(&path),
            },
            Action::RemoveTree { path } => {
                let below = format!("{path}/");
                self.nodes.retain(|k, _| k != &path && !k.starts_with(&below));
                Event::Done
            }
            Action::Symlink { target, link } => {
                if self.nodes.contains_key(&link) {
                    refused(&link)
                } else {
                    self.put(&link, Node::Link(target));
                    Event::Done
                }
            }
            Action::SetMode { path, mode } => {
                self.modes.insert(path, mode);
                Event::Done
            }
            Action::ReadRecord { path } => match self.nodes.get(&path) {
                Some(Node::Record(record)) => Event::Record(record.clone()),
                Some(_) => Event::Failed(Error::Json("expected value".to_string())),
                None => missing(&path),
            },
            Action::WriteRecord { path, record } => {
                self.put(&path, Node::Record(record));
                Event::Done
            }
            Action::Extract { bundle, pattern, dir } => {
                let files = self.bundles.get(&bundle).cloned().unwrap_or_default();
                for (inner, content) in files {
                    if glob_matches(&pattern, &inner) {
                        self.put(&format!("{dir}/squashfs-root/{inner}"), Node::File(content.into_bytes()));
                    }
                }
                self.make_dirs(&format!("{dir}/squashfs-root"));
                Event::Done
            }
            Action::Request { url } => match self.servers.remove(&url) {
                Some(served) => {
                    self.stream = served.parts.into();
                    Event::Response(served.head)
                }
                None => Event::Broken(DownloadCause {
                    timeout: false,
                    connect: true,
                    status: None,
                    detail: "no route".to_string(),
                }),
            },
            Action::CreateFile { path } => {
                self.put(&path, Node::File(Vec::new()));
                Event::Done
            }
            Action::NextChunk => match self.stream.pop_front() {
                Some(Part::Bytes(bytes)) => {
                    let len = bytes.len() as u64;
                    self.pending = bytes;
                    Event::Chunk(len)
                }
                Some(Part::Break(cause)) => Event::Broken(cause),
                None => Event::EndOfStream,
            },
            Action::WriteChunk { path } => match self.nodes.get_mut(&path) {
                Some(Node::File(bytes)) => {
                    bytes.extend_from_slice(&self.pending);
                    Event::Done
                }
                _ => missing(&path),
            },
            Action::ListReleases { .. } => Event::Releases(self.releases.clone()),
            Action::Say { text } => {
                self.said.push(text);
                Event::Done
            }
            Action::Ask { .. } => Event::Answer(self.answers.pop_front().unwrap_or_default()),
            Action::Choose { items, .. } => match self.choices.pop_front() {
                Some(at) if at < items.len() => Event::Choice(at),
                _ => Event::Failed(Error::Dialoguer("nothing chosen".to_string())),
            },
            Action::StartProgress { .. } => Event::Done,
            Action::Progress { done } => {
                self.reported.push(done);
                Event::Done
            }
            Action::FinishProgress { .. } => Event::Done,
        }
    }

    fn serve(&mut self, url: &str, length: Option<u64>, parts: Vec<Part>) {
        let head = ResponseHead {
            status: 200,
            url: url.to_string(),
            content_length: length,
            content_type: Some("application/octet-stream".to_string()),
        };
        self.servers.insert(url.to_string(), Served { head, parts });
    }

    fn install(&mut self, pm: &PackageManager, record: &mut AppImage) -> Install {
        let mut state = Install::Start;
        let mut event = Event::Begin;
        loop {
            let (next, action) = pm.install(record, state, event);
            state = next;
            match action {
                Some(action) => event = self.perform(action),
                None => return state,
            }
        }
    }

    fn remove(&mut self, pm: &PackageManager, appname: &str) -> Removal {
        let mut state = Removal::Start;
        let mut event = Event::Begin;
        loop {
            let (next, action) = pm.remove(appname, state, event);
            state = next;
            match action {
                Some(action) => event = self.perform(action),
                None => return state,
            }
        }
    }

    fn update(&mut self, pm: &PackageManager, record: &AppImage) -> Update {
        let mut state = Update::Start;
        let mut event = Event::Begin;
        loop {
            let (next, action) = pm.update(record, state, event);
            state = next;
            match action {
                Some(action) => event = self.perform(action),
                None => return state,
            }
        }
    }

    fn list(&mut self, pm: &PackageManager) -> Listing {
        let mut state = Listing::Start;
        let mut event = Event::Begin;
        loop {
            let (next, action) = pm.list(state, event);
            state = next;
            match action {
                Some(action) => event = self.perform(action),
                None => return state,
            }
        }
    }
}

const HOME: &str = "/home/u";
const URL: &str = "https://example.com/App.AppImage";
const BUNDLE: &str = "/home/u/.local/share/zap-rs/appimages/App.AppImage";
const PART: &str = "/home/u/.local/share/zap-rs/appimages/App.AppImage.part";
const RECORD: &str = "/home/u/.local/share/zap-rs/index/myapp.json";
const LINK: &str = "/home/u/.local/bin/myapp";
const ENTRY: &str = "/home/u/.local/share/zap-rs/desktops/myapp.desktop";
const PUBLISHED: &str = "/home/u/.local/share/applications/myapp.desktop";
const ICON: &str = "/home/u/.local/share/zap-rs/icons/myapp.png";
const SCRATCH: &str = "/tmp/zap-rs";

fn manager() -> PackageManager {
    PackageManager::new(HOME, "/tmp")
}

fn direct(appname: &str) -> AppImage {
    AppImage::new(&InstallArgs {
        appname: appname.to_string(),
        from: URL.to_string(),
        executable: None,
        github: false,
    })
}

fn body() -> Vec<Part> {
    vec![Part::Bytes(vec![7; 2000]), Part::Bytes(vec![9; 1000])]
}

fn installed_host(answer: &str) -> (Host, AppImage) {
    let mut host = Host::default();
    host.serve(URL, Some(3000), body());
    host.answers.push_back(answer.to_string());
    host.bundles.insert(
        BUNDLE.to_string(),
        vec![
            ("app.desktop".to_string(), "[Desktop Entry]\nExec=app %U\nIcon=app\n".to_string()),
            ("readme.txt".to_string(), "hello".to_string()),
            ("usr/share/icons/hicolor/256x256/apps/app.png".to_string(), "png256".to_string()),
            ("usr/share/icons/hicolor/128x128/apps/app.png".to_string(), "png128".to_string()),
            ("usr/share/icons/hicolor/64x64/apps/app.png".to_string(), "png64".to_string()),
            ("usr/share/icons/hicolor/scalable/apps/app.svg".to_string(), "svg".to_string()),
        ],
    );
    let mut record = direct("myapp");
    let state = host.install(&manager(), &mut record);
    assert!(matches!(state, Install::Done(Installed::Fresh { .. })), "{state:?}");
    (host, record)
}

#[test]
fn manager_is_made_of_the_directories_below_home() {
    let pm = manager();
    assert_eq!(pm.downloader.dir, "/home/u/.local/share/zap-rs/appimages");
    assert_eq!(pm.index.dir, "/home/u/.local/share/zap-rs/index");
    assert_eq!(pm.symlink_manager.dir, "/home/u/.local/bin");
    assert_eq!(pm.desktop.desktops, "/home/u/.local/share/zap-rs/desktops");
    assert_eq!(pm.desktop.icons, "/home/u/.local/share/zap-rs/icons");
    assert_eq!(pm.desktop.applications, "/home/u/.local/share/applications/");
    assert_eq!(pm.desktop.scratch, SCRATCH);
}

#[test]
fn install_from_a_direct_url_then_remove() {
    let (mut host, record) = installed_host("n");
    assert_eq!(record.file_path, BUNDLE);
    assert_eq!(host.nodes.get(BUNDLE), Some(&Node::File([vec![7u8; 2000], vec![9u8; 1000]].concat())));
    assert_eq!(host.modes.get(BUNDLE), Some(&0o755));
    match host.nodes.get(RECORD) {
        Some(Node::Record(stored)) => {
            assert_eq!(stored, &record);
            assert_eq!(stored.source.identifier(), "raw_url");
            assert_eq!(stored.executable, "myapp");
        }
        other => panic!("no record: {other:?}"),
    }
    assert_eq!(host.nodes.get(LINK), Some(&Node::Link(BUNDLE.to_string())));
    assert!(!host.nodes.contains_key(PART));
    assert_eq!(host.reported, vec![2000, 3000]);

    assert_eq!(host.list(&manager()), Listing::Done);
    assert_eq!(host.said, vec!["- myapp".to_string()]);

    assert_eq!(host.remove(&manager(), "myapp"), Removal::Done);
    assert!(!host.nodes.contains_key(BUNDLE));
    assert!(!host.nodes.contains_key(LINK));
    assert!(!host.nodes.contains_key(RECORD));

    host.said.clear();
    assert_eq!(host.list(&manager()), Listing::Done);
    assert_eq!(host.said, Vec::<String>::new());
}

#[test]
fn installing_twice_does_the_work_once() {
    let (mut host, _) = installed_host("n");
    let before = host.nodes.clone();
    host.asked.clear();
    host.serve(URL, Some(3000), body());
    let mut again = direct("myapp");
    let state = host.install(&manager(), &mut again);
    assert_eq!(state, Install::Done(Installed::AlreadyInstalled));
    assert_eq!(
        host.asked,
        vec![
            Action::Probe { path: RECORD.to_string() },
            Action::Say { text: "myapp is already installed.".to_string() },
        ]
    );
    assert_eq!(host.nodes, before);
    assert_eq!(again.file_path, "");
    assert!(host.servers.contains_key(URL));
}

#[test]
fn a_stream_that_fails_leaves_no_bundle_behind() {
    let mut host = Host::default();
    let cause = DownloadCause { timeout: false, connect: false, status: None, detail: "reset".to_string() };
    host.serve(URL, Some(3000), vec![Part::Bytes(vec![1; 2000]), Part::Break(cause.clone())]);
    let mut record = direct("myapp");
    let state = host.install(&manager(), &mut record);
    assert_eq!(state, Install::Failed(Error::Download { url: URL.to_string(), source: cause }));
    assert!(!host.nodes.contains_key(BUNDLE));
    assert!(!host.nodes.contains_key(PART));
    assert!(!host.nodes.contains_key(RECORD));
    assert!(!host.nodes.contains_key(LINK));

    host.serve(URL, Some(3000), body());
    host.answers.push_back("no".to_string());
    let mut record = direct("myapp");
    let state = host.install(&manager(), &mut record);
    assert_eq!(state, Install::Done(Installed::Fresh { integrated: false }));
    match host.nodes.get(BUNDLE) {
        Some(Node::File(bytes)) => assert_eq!(bytes.len(), 3000),
        other => panic!("no bundle: {other:?}"),
    }
}

#[test]
fn an_unreachable_server_fails_the_installation() {
    let mut host = Host::default();
    let mut record = direct("myapp");
    let state = host.install(&manager(), &mut record);
    match state {
        Install::Failed(e) => assert_eq!(e.message(), "Failed to connect to: https://example.com/App.AppImage"),
        other => panic!("{other:?}"),
    }
    assert!(!host.nodes.contains_key(RECORD));
}

#[test]
fn only_y_and_yes_in_any_case_ask_for_integration() {
    for (answer, integrated) in [
        ("y\n", true),
        ("Y\n", true),
        ("yes\n", true),
        ("  YES  \r\n", true),
        ("n\n", false),
        ("\n", false),
        ("", false),
        ("yeah\n", false),
        ("y es\n", false),
        ("ja\n", false),
    ] {
        let mut host = Host::default();
        host.serve(URL, None, body());
        host.answers.push_back(answer.to_string());
        let mut record = direct("myapp");
        let state = host.install(&manager(), &mut record);
        assert_eq!(state, Install::Done(Installed::Fresh { integrated }), "{answer:?}");
    }
}

#[test]
fn integration_takes_the_largest_icon_that_is_there() {
    let (host, _) = installed_host("y");
    assert_eq!(host.nodes.get(ICON), Some(&Node::File(b"png256".to_vec())));
    let copies: Vec<&Action> = host
        .asked
        .iter()
        .filter(|a| matches!(a, Action::CopyFile { to, .. } if to == ICON))
        .collect();
    assert_eq!(
        copies,
        vec![&Action::CopyFile {
            from: "/tmp/zap-rs/squashfs-root/usr/share/icons/hicolor/256x256/apps/app.png".to_string(),
            to: ICON.to_string(),
        }]
    );
    let probed: Vec<&str> = host
        .asked
        .iter()
        .filter_map(|a| match a {
            Action::Probe { path } if path.contains("/icons/hicolor/") => Some(path.as_str()),
            _ => None,
        })
        .collect();
    assert_eq!(
        probed,
        vec![
            "/tmp/zap-rs/squashfs-root/usr/share/icons/hicolor/1024x1024/apps",
            "/tmp/zap-rs/squashfs-root/usr/share/icons/hicolor/720x720/apps",
            "/tmp/zap-rs/squashfs-root/usr/share/icons/hicolor/512x512/apps",
            "/tmp/zap-rs/squashfs-root/usr/share/icons/hicolor/256x256/apps",
        ]
    );
}

#[test]
fn integration_installs_the_rewritten_entry_twice_and_cleans_up() {
    let (host, _) = installed_host("yes");
    let expected = format!("[Desktop Entry]\nExec={BUNDLE} %U\nIcon={ICON}");
    assert_eq!(host.nodes.get(ENTRY), Some(&Node::File(expected.clone().into_bytes())));
    assert_eq!(host.nodes.get(PUBLISHED), Some(&Node::File(expected.into_bytes())));
    assert!(!host.nodes.keys().any(|k| k.starts_with(SCRATCH)));
    assert_eq!(host.asked.last(), Some(&Action::RemoveTree { path: SCRATCH.to_string() }));
}

#[test]
fn removal_deletes_the_desktop_files_where_they_are_there() {
    let (mut host, _) = installed_host("y");
    assert_eq!(host.remove(&manager(), "myapp"), Removal::Done);
    for path in [BUNDLE, LINK, RECORD, ENTRY, PUBLISHED, ICON] {
        assert!(!host.nodes.contains_key(path), "{path}");
    }
}

#[test]
fn removal_passes_over_desktop_files_that_were_never_made() {
    let (mut host, _) = installed_host("n");
    host.asked.clear();
    assert_eq!(host.remove(&manager(), "myapp"), Removal::Done);
    assert_eq!(
        host.asked,
        vec![
            Action::ReadRecord { path: RECORD.to_string() },
            Action::RemoveFile { path: BUNDLE.to_string() },
            Action::RemoveFile { path: LINK.to_string() },
            Action::RemoveFile { path: RECORD.to_string() },
            Action::Probe { path: ENTRY.to_string() },
            Action::Probe { path: PUBLISHED.to_string() },
            Action::Probe { path: ICON.to_string() },
        ]
    );
}

#[test]
fn removal_of_a_half_integrated_bundle_deletes_what_is_there() {
    let (mut host, _) = installed_host("y");
    host.nodes.remove(PUBLISHED);
    host.nodes.remove(ICON);
    assert_eq!(host.remove(&manager(), "myapp"), Removal::Done);
    assert!(!host.nodes.contains_key(ENTRY));
}

#[test]
fn removal_of_what_is_not_installed_is_not_found() {
    let mut host = Host::default();
    assert_eq!(host.remove(&manager(), "ghost"), Removal::Failed(Error::NotFound("ghost".to_string())));
    assert_eq!(
        host.asked,
        vec![Action::ReadRecord { path: "/home/u/.local/share/zap-rs/index/ghost.json".to_string() }]
    );
}

#[test]
fn removal_stops_at_the_first_deletion_that_fails() {
    let (mut host, _) = installed_host("n");
    host.nodes.remove(LINK);
    let state = host.remove(&manager(), "myapp");
    assert!(matches!(state, Removal::Failed(Error::Io(_))), "{state:?}");
    assert!(!host.nodes.contains_key(BUNDLE));
    assert!(host.nodes.contains_key(RECORD));
}

#[test]
fn a_malformed_record_is_a_json_failure() {
    let mut host = Host::default();
    host.put(RECORD, Node::File(b"{".to_vec()));
    assert_eq!(host.remove(&manager(), "myapp"), Removal::Failed(Error::Json("expected value".to_string())));
}

#[test]
fn a_link_that_is_there_is_replaced() {
    let mut host = Host::default();
    host.put(LINK, Node::Link("/old".to_string()));
    host.serve(URL, None, body());
    let mut record = direct("myapp");
    let state = host.install(&manager(), &mut record);
    assert_eq!(state, Install::Done(Installed::Fresh { integrated: false }));
    assert_eq!(host.nodes.get(LINK), Some(&Node::Link(BUNDLE.to_string())));
}

#[test]
fn listing_shows_one_line_for_each_file_of_the_index() {
    let mut host = Host::default();
    for name in ["b.json", "a.json", "notes", ".hidden"] {
        host.put(&format!("/home/u/.local/share/zap-rs/index/{name}"), Node::File(Vec::new()));
    }
    assert_eq!(host.list(&manager()), Listing::Done);
    assert_eq!(host.said, vec!["- .hidden", "- a", "- b", "- notes"]);
}

#[test]
fn listing_without_an_index_fails() {
    let mut host = Host::default();
    assert!(matches!(host.list(&manager()), Listing::Failed(Error::Io(_))));
}

#[test]
fn a_record_with_a_link_cannot_be_updated() {
    let (mut host, record) = installed_host("n");
    host.asked.clear();
    assert_eq!(host.update(&manager(), &record), Update::Failed(Error::CantUpdatePkg));
    assert_eq!(host.asked, Vec::<Action>::new());
}

fn offered() -> Vec<Release> {
    let asset = |name: &str| Asset { name: name.to_string(), url: format!("https://gh.example/{name}") };
    vec![
        Release { tag_name: "v2".to_string(), assets: vec![asset("tool-x86.AppImage"), asset("tool-arm.AppImage")] },
        Release { tag_name: "nightly".to_string(), assets: vec![asset("src.zip")] },
        Release { tag_name: "v1".to_string(), assets: vec![asset("tool.appimage")] },
    ]
}

fn from_repo() -> AppImage {
    AppImage::new(&InstallArgs {
        appname: "tool".to_string(),
        from: "owner/tool".to_string(),
        executable: None,
        github: true,
    })
}

#[test]
fn install_from_a_repository_and_update() {
    let mut host = Host::default();
    host.releases = offered();
    host.choices.push_back(0);
    host.choices.push_back(1);
    host.serve("https://gh.example/tool-arm.AppImage", None, vec![Part::Bytes(vec![1; 10])]);
    host.answers.push_back("n".to_string());
    let mut record = from_repo();
    let state = host.install(&manager(), &mut record);
    assert_eq!(state, Install::Done(Installed::Fresh { integrated: false }));
    let path = "/home/u/.local/share/zap-rs/appimages/tool.AppImage";
    assert_eq!(record.file_path, path);
    assert_eq!(record.source, Source::GitHub { slug: "owner/tool".to_string() });
    assert_eq!(host.nodes.get(path), Some(&Node::File(vec![1; 10])));
    assert!(host.asked.contains(&Action::ListReleases {
        owner: "owner".to_string(),
        repo: "tool".to_string(),
        per_page: 100,
    }));
    assert!(host.asked.contains(&Action::Choose {
        prompt: "Choose a release".to_string(),
        items: vec!["v2".to_string(), "v1".to_string()],
    }));

    host.asked.clear();
    host.choices.push_back(1);
    host.serve("https://gh.example/tool.appimage", None, vec![Part::Bytes(vec![2; 20])]);
    assert_eq!(host.update(&manager(), &record), Update::Done);
    assert_eq!(host.nodes.get(path), Some(&Node::File(vec![2; 20])));
    assert!(!host.asked.iter().any(|a| matches!(a, Action::WriteRecord { .. } | Action::Symlink { .. })));
    assert_eq!(
        host.asked.iter().filter(|a| matches!(a, Action::Choose { .. })).count(),
        1
    );
}

#[test]
fn a_repository_without_bundles_fails_before_any_prompt() {
    let mut host = Host::default();
    host.releases = vec![Release { tag_name: "v1".to_string(), assets: Vec::new() }];
    let mut record = from_repo();
    let state = host.install(&manager(), &mut record);
    assert_eq!(state, Install::Failed(Error::NoReleasesFound));
    assert!(!host.asked.iter().any(|a| matches!(a, Action::Choose { .. })));
}

#[test]
fn a_bad_slug_fails_the_installation() {
    let mut host = Host::default();
    let mut record = AppImage::new(&InstallArgs {
        appname: "tool".to_string(),
        from: "ownerrepo".to_string(),
        executable: None,
        github: true,
    });
    let state = host.install(&manager(), &mut record);
    assert_eq!(state, Install::Failed(Error::InvalidSlug("ownerrepo".to_string())));
}

#[test]
fn a_failed_integration_still_removes_the_scratch_directory() {
    let mut host = Host::default();
    host.serve(URL, None, body());
    host.answers.push_back("y".to_string());
    host.bundles.insert(BUNDLE.to_string(), vec![("app.desktop".to_string(), "Exec=app\n".to_string())]);
    host.put(ENTRY, Node::Dir);
    host.put(&format!("{ENTRY}/x"), Node::Dir);
    let mut record = direct("myapp");
    let pm = manager();
    let mut state = Install::Start;
    let mut event = Event::Begin;
    let end = loop {
        let (next, action) = pm.install(&mut record, state, event);
        state = next;
        match action {
            Some(Action::ReadFile { path }) => {
                host.asked.push(Action::ReadFile { path: path.clone() });
                event = refused(&path);
            }
            Some(action) => event = host.perform(action),
            None => break state,
        }
    };
    assert!(matches!(end, Install::Failed(Error::Io(_))), "{end:?}");
    assert_eq!(host.asked.last(), Some(&Action::RemoveTree { path: SCRATCH.to_string() }));
    assert!(!host.nodes.keys().any(|k| k.starts_with(SCRATCH)));
}

fn integrated(files: Vec<(&str, &str)>) -> Host {
    let mut host = Host::default();
    host.serve(URL, None, body());
    host.answers.push_back("y".to_string());
    host.bundles.insert(
        BUNDLE.to_string(),
        files.into_iter().map(|(path, content)| (path.to_string(), content.to_string())).collect(),
    );
    let mut record = direct("myapp");
    let state = host.install(&manager(), &mut record);
    assert_eq!(state, Install::Done(Installed::Fresh { integrated: true }));
    host
}

#[test]
fn a_desktop_entry_below_the_applications_directory_is_installed() {
    let host = integrated(vec![
        ("AppRun", "#!/bin/sh"),
        ("usr/share/applications/app.desktop", "[Desktop Entry]\nExec=app --run %F\nIcon=app\n"),
    ]);
    let expected = format!("[Desktop Entry]\nExec={BUNDLE} --run %F\nIcon=app");
    assert_eq!(host.nodes.get(ENTRY), Some(&Node::File(expected.clone().into_bytes())));
    assert_eq!(host.nodes.get(PUBLISHED), Some(&Node::File(expected.into_bytes())));
    assert!(!host.nodes.keys().any(|k| k.starts_with(SCRATCH)));
}

#[test]
fn entries_of_the_applications_directory_come_after_those_of_the_root() {
    let host = integrated(vec![
        ("app.desktop", "Exec=outer\n"),
        ("usr/share/applications/app.desktop", "Exec=inner arg\n"),
    ]);
    let written: Vec<&str> = host
        .asked
        .iter()
        .filter_map(|a| match a {
            Action::Canonicalize { path } => Some(path.as_str()),
            _ => None,
        })
        .collect();
    assert_eq!(
        written,
        vec![
            "/tmp/zap-rs/squashfs-root/app.desktop",
            "/tmp/zap-rs/squashfs-root/usr/share/applications/app.desktop",
        ]
    );
    let expected = format!("Exec={BUNDLE} arg");
    assert_eq!(host.nodes.get(ENTRY), Some(&Node::File(expected.clone().into_bytes())));
    assert_eq!(host.nodes.get(PUBLISHED), Some(&Node::File(expected.into_bytes())));
}

#[test]
fn a_bundle_without_desktop_entries_integrates_nothing() {
    let host = integrated(vec![("AppRun", "#!/bin/sh")]);
    assert!(!host.nodes.contains_key(ENTRY));
    assert!(!host.nodes.contains_key(PUBLISHED));
    assert_eq!(host.asked.last(), Some(&Action::RemoveTree { path: SCRATCH.to_string() }));
}

#[test]
fn the_record_is_kept_under_the_executable_whatever_the_appname() {
    let args = InstallArgs {
        appname: "Foo Browser".to_string(),
        from: URL.to_string(),
        executable: Some("foo".to_string()),
        github: false,
    };
    let mut host = Host::default();
    host.serve(URL, None, body());
    host.answers.push_back("n".to_string());
    let mut record = AppImage::new(&args);
    let state = host.install(&manager(), &mut record);
    assert_eq!(state, Install::Done(Installed::Fresh { integrated: false }));
    let stored = "/home/u/.local/share/zap-rs/index/foo.json";
    assert_eq!(host.nodes.get(stored), Some(&Node::Record(record.clone())));
    assert!(!host.nodes.contains_key("/home/u/.local/share/zap-rs/index/Foo Browser.json"));
    assert_eq!(host.nodes.get("/home/u/.local/bin/foo"), Some(&Node::Link(BUNDLE.to_string())));

    host.asked.clear();
    host.serve(URL, None, body());
    let mut again = AppImage::new(&InstallArgs { appname: "Another Name".to_string(), ..args });
    let state = host.install(&manager(), &mut again);
    assert_eq!(state, Install::Done(Installed::AlreadyInstalled));
    assert_eq!(
        host.asked,
        vec![
            Action::Probe { path: stored.to_string() },
            Action::Say { text: "foo is already installed.".to_string() },
        ]
    );

    assert_eq!(host.remove(&manager(), "foo"), Removal::Done);
    assert!(!host.nodes.contains_key(stored));
    assert!(!host.nodes.contains_key(BUNDLE));
    assert!(!host.nodes.contains_key("/home/u/.local/bin/foo"));
}

#[test]
fn the_bundle_stays_in_its_directory_whatever_the_executable_is_called() {
    let mut host = Host::default();
    host.serve("https://example.com/download", None, body());
    host.answers.push_back("n".to_string());
    let mut record = AppImage::new(&InstallArgs {
        appname: "x".to_string(),
        from: "https://example.com/download".to_string(),
        executable: Some("../x".to_string()),
        github: false,
    });
    let state = host.install(&manager(), &mut record);
    assert_eq!(state, Install::Done(Installed::Fresh { integrated: false }));
    let place = "/home/u/.local/share/zap-rs/appimages/x.AppImage";
    assert_eq!(record.file_path, place);
    assert_eq!(host.nodes.get(place), Some(&Node::File([vec![7u8; 2000], vec![9u8; 1000]].concat())));
}
