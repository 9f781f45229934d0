use zap_rs::desktop::{icon_size, EntryPhase, ICON_SIZES};
use zap_rs::manager::{answer_is_yes, wants_integration};
use zap_rs::{
    run_script, Action, AppImage, Desktop, Error, Event, Fetch, Index, Integration, IoFailure, IoKind,
    Lookup, PackageManager, Script, Source, SymlinkManager, Task,
};

fn record() -> AppImage {
    AppImage {
        file_path: "/cache/App.AppImage".to_string(),
        executable: "app".to_string(),
        source: Source::RawUrl { url: "https://example.com/App.AppImage".to_string() },
    }
}

fn desktop() -> Desktop {
    Desktop::new("/home/u", "/tmp")
}

fn plan() -> Vec<Task> {
    vec![
        Task::Do(Action::EnsureDir { path: "/d".to_string() }),
        Task::DoIfExists { path: "/d/x".to_string(), action: Action::RemoveFile { path: "/d/x".to_string() } },
        Task::Do(Action::Say { text: "end".to_string() }),
    ]
}

fn io(kind: IoKind) -> Error {
    Error::Io(IoFailure { kind, message: "no".to_string() })
}

#[test]
fn a_plan_is_carried_out_entry_by_entry() {
    let (state, action) = run_script(plan(), Script::Start, Event::Begin);
    assert_eq!((state.clone(), action), (Script::Doing(0), Some(Action::EnsureDir { path: "/d".to_string() })));
    let (state, action) = run_script(plan(), state, Event::Done);
    assert_eq!((state.clone(), action), (Script::Probing(1), Some(Action::Probe { path: "/d/x".to_string() })));
    let (state, action) = run_script(plan(), state, Event::Exists(true));
    assert_eq!((state.clone(), action), (Script::Doing(1), Some(Action::RemoveFile { path: "/d/x".to_string() })));
    let (state, action) = run_script(plan(), state, Event::Done);
    assert_eq!((state.clone(), action), (Script::Doing(2), Some(Action::Say { text: "end".to_string() })));
    let (state, action) = run_script(plan(), state, Event::Done);
    assert_eq!((state, action), (Script::Done, None));
}

#[test]
fn a_guarded_entry_is_passed_over_where_its_path_is_absent() {
    let (state, action) = run_script(plan(), Script::Probing(1), Event::Exists(false));
    assert_eq!((state, action), (Script::Doing(2), Some(Action::Say { text: "end".to_string() })));
}

#[test]
fn a_failure_ends_a_plan() {
    let (state, action) = run_script(plan(), Script::Doing(0), Event::Failed(io(IoKind::Other)));
    assert_eq!((state, action), (Script::Failed(io(IoKind::Other)), None));
    let (state, _) = run_script(plan(), Script::Probing(1), Event::Failed(io(IoKind::Other)));
    assert_eq!(state, Script::Failed(io(IoKind::Other)));
    let (state, _) = run_script(plan(), Script::Failed(io(IoKind::Other)), Event::Done);
    assert_eq!(state, Script::Failed(io(IoKind::Other)));
}

#[test]
fn an_empty_plan_is_done_at_once() {
    assert_eq!(run_script(Vec::new(), Script::Start, Event::Begin), (Script::Done, None));
}

#[test]
fn a_plan_gives_up_on_answers_it_does_not_wait_for() {
    assert_eq!(run_script(plan(), Script::Start, Event::Done).0, Script::Failed(Error::Unexpected));
    assert_eq!(run_script(plan(), Script::Doing(0), Event::Exists(true)).0, Script::Failed(Error::Unexpected));
    assert_eq!(run_script(plan(), Script::Probing(1), Event::Done).0, Script::Failed(Error::Unexpected));
    assert_eq!(run_script(plan(), Script::Probing(7), Event::Exists(true)).0, Script::Failed(Error::Unexpected));
    assert_eq!(run_script(plan(), Script::Doing(usize::MAX), Event::Done), (Script::Done, None));
    assert_eq!(run_script(plan(), Script::Done, Event::Begin), (Script::Done, None));
}

#[test]
fn the_index_names_one_file_for_each_record() {
    let index = Index::new("/home/u");
    assert_eq!(index.dir, "/home/u/.local/share/zap-rs/index");
    assert_eq!(index.record_path("myapp"), "/home/u/.local/share/zap-rs/index/myapp.json");
}

#[test]
fn the_index_probes_the_file_of_a_record() {
    let index = Index::new("/home/u");
    let (state, action) = index.contains("myapp", Lookup::Start, Event::Begin);
    assert_eq!(state, Lookup::Probing);
    assert_eq!(action, Some(Action::Probe { path: "/home/u/.local/share/zap-rs/index/myapp.json".to_string() }));
    assert_eq!(index.contains("myapp", Lookup::Probing, Event::Exists(true)), (Lookup::Done(true), None));
    assert_eq!(index.contains("myapp", Lookup::Probing, Event::Exists(false)), (Lookup::Done(false), None));
    assert_eq!(
        index.contains("myapp", Lookup::Probing, Event::Failed(io(IoKind::Other))),
        (Lookup::Failed(io(IoKind::Other)), None)
    );
    assert_eq!(index.contains("myapp", Lookup::Start, Event::Done).0, Lookup::Failed(Error::Unexpected));
    assert_eq!(index.contains("myapp", Lookup::Done(true), Event::Done).0, Lookup::Done(true));
}

#[test]
fn the_index_hands_on_the_record_it_is_given() {
    let index = Index::new("/home/u");
    let (state, action) = index.get("myapp", Fetch::Start, Event::Begin);
    assert_eq!(state, Fetch::Reading);
    assert_eq!(action, Some(Action::ReadRecord { path: "/home/u/.local/share/zap-rs/index/myapp.json".to_string() }));
    assert_eq!(index.get("myapp", state, Event::Record(record())), (Fetch::Done(record()), None));
}

#[test]
fn a_missing_record_is_not_found_and_other_failures_are_themselves() {
    let index = Index::new("/home/u");
    assert_eq!(
        index.get("myapp", Fetch::Reading, Event::Failed(io(IoKind::NotFound))).0,
        Fetch::Failed(Error::NotFound("myapp".to_string()))
    );
    assert_eq!(
        index.get("myapp", Fetch::Reading, Event::Failed(io(IoKind::Other))).0,
        Fetch::Failed(io(IoKind::Other))
    );
    assert_eq!(
        index.get("myapp", Fetch::Reading, Event::Failed(Error::Json("eof".to_string()))).0,
        Fetch::Failed(Error::Json("eof".to_string()))
    );
    assert_eq!(index.get("myapp", Fetch::Reading, Event::Done).0, Fetch::Failed(Error::Unexpected));
}

#[test]
fn adding_a_record_makes_the_directory_and_writes_the_file() {
    let index = Index::new("/home/u");
    assert_eq!(
        index.add(&record(), "myapp"),
        vec![
            Task::Do(Action::EnsureDir { path: "/home/u/.local/share/zap-rs/index".to_string() }),
            Task::Do(Action::WriteRecord {
                path: "/home/u/.local/share/zap-rs/index/myapp.json".to_string(),
                record: record(),
            }),
        ]
    );
    assert_eq!(
        index.remove("myapp"),
        vec![Task::Do(Action::RemoveFile { path: "/home/u/.local/share/zap-rs/index/myapp.json".to_string() })]
    );
}

#[test]
fn a_link_is_made_anew_in_the_directory_of_executables() {
    let links = SymlinkManager::new("/home/u");
    assert_eq!(links.dir, "/home/u/.local/bin");
    assert_eq!(links.link_path("app"), "/home/u/.local/bin/app");
    assert_eq!(
        links.create(&record()),
        vec![
            Task::Do(Action::EnsureDir { path: "/home/u/.local/bin".to_string() }),
            Task::DoIfExists {
                path: "/home/u/.local/bin/app".to_string(),
                action: Action::RemoveFile { path: "/home/u/.local/bin/app".to_string() },
            },
            Task::Do(Action::Symlink {
                target: "/cache/App.AppImage".to_string(),
                link: "/home/u/.local/bin/app".to_string(),
            }),
        ]
    );
    assert_eq!(links.remove("app"), vec![Task::Do(Action::RemoveFile { path: "/home/u/.local/bin/app".to_string() })]);
}

#[test]
fn the_plans_of_the_manager() {
    let pm = PackageManager::new("/home/u", "/tmp");
    let commit = pm.commit(&record());
    assert_eq!(commit.len(), 5);
    assert_eq!(commit[..2], pm.index.add(&record(), "app")[..]);
    assert_eq!(
        commit[1],
        Task::Do(Action::WriteRecord {
            path: "/home/u/.local/share/zap-rs/index/app.json".to_string(),
            record: record(),
        })
    );
    assert_eq!(commit[2..], pm.symlink_manager.create(&record())[..]);
    let gone = |path: &str| Task::DoIfExists {
        path: path.to_string(),
        action: Action::RemoveFile { path: path.to_string() },
    };
    assert_eq!(
        pm.removal(&record(), "myapp"),
        vec![
            Task::Do(Action::RemoveFile { path: "/cache/App.AppImage".to_string() }),
            Task::Do(Action::RemoveFile { path: "/home/u/.local/bin/app".to_string() }),
            Task::Do(Action::RemoveFile { path: "/home/u/.local/share/zap-rs/index/myapp.json".to_string() }),
            gone("/home/u/.local/share/zap-rs/desktops/app.desktop"),
            gone("/home/u/.local/share/applications/app.desktop"),
            gone("/home/u/.local/share/zap-rs/icons/app.png"),
        ]
    );
}

#[test]
fn the_icon_sizes_from_the_largest_down() {
    let sizes: Vec<&str> = (0..ICON_SIZES).map(icon_size).collect();
    assert_eq!(
        sizes,
        vec!["1024", "720", "512", "256", "192", "128", "96", "72", "64", "48", "36", "32", "24", "22", "16"]
    );
}

#[test]
fn the_paths_of_desktop_integration() {
    let d = desktop();
    assert_eq!(d.unpacked_root(), "/tmp/zap-rs/squashfs-root");
    assert_eq!(d.icon_dir(3), "/tmp/zap-rs/squashfs-root/usr/share/icons/hicolor/256x256/apps");
    assert_eq!(d.icon_dir(14), "/tmp/zap-rs/squashfs-root/usr/share/icons/hicolor/16x16/apps");
    assert_eq!(record().icon_path(&d), "/home/u/.local/share/zap-rs/icons/app.png");
    assert_eq!(record().entry_path(&d), "/home/u/.local/share/zap-rs/desktops/app.desktop");
    assert_eq!(record().published_path(&d), "/home/u/.local/share/applications/app.desktop");
}

#[test]
fn the_bundle_unpacks_entries_and_icons() {
    let extract = |pattern: &str| {
        Task::Do(Action::Extract {
            bundle: "/cache/App.AppImage".to_string(),
            pattern: pattern.to_string(),
            dir: "/tmp/zap-rs".to_string(),
        })
    };
    assert_eq!(
        record().extract_assets("/tmp/zap-rs"),
        vec![
            Task::Do(Action::EnsureDir { path: "/tmp/zap-rs".to_string() }),
            extract("*.desktop"),
            extract("usr/share/applications/*.desktop"),
            extract("usr/share/icons/hicolor/*/apps/*.png"),
        ]
    );
}

fn names(list: &[&str]) -> Vec<String> {
    list.iter().map(|s| s.to_string()).collect()
}

#[test]
fn icons_fall_back_from_size_to_size() {
    let app = record();
    let d = desktop();
    let (state, action) = app.integrate_desktop(&d, Integration::ProbingIcons { at: 3 }, Event::Exists(false));
    assert_eq!(state, Integration::ProbingIcons { at: 4 });
    assert_eq!(action, Some(Action::Probe { path: d.icon_dir(4) }));
    let (state, action) = app.integrate_desktop(&d, state, Event::Exists(true));
    assert_eq!(state, Integration::ListingIcons { at: 4 });
    assert_eq!(action, Some(Action::ListDir { path: d.icon_dir(4) }));
    let (state, action) = app.integrate_desktop(&d, state, Event::Entries(names(&["a.svg", "readme"])));
    assert_eq!(state, Integration::ProbingIcons { at: 5 });
    assert_eq!(action, Some(Action::Probe { path: d.icon_dir(5) }));
    let (state, _) = app.integrate_desktop(&d, state, Event::Exists(true));
    let (state, action) = app.integrate_desktop(&d, state, Event::Entries(names(&["a.txt", "b.png", "c.png"])));
    assert_eq!(state, Integration::CopyingIcon);
    assert_eq!(
        action,
        Some(Action::CopyFile {
            from: "/tmp/zap-rs/squashfs-root/usr/share/icons/hicolor/128x128/apps/b.png".to_string(),
            to: "/home/u/.local/share/zap-rs/icons/app.png".to_string(),
        })
    );
    let (state, action) = app.integrate_desktop(&d, state, Event::Done);
    assert_eq!(state, Integration::ListingRoot { icon_found: true });
    assert_eq!(action, Some(Action::ListDir { path: "/tmp/zap-rs/squashfs-root".to_string() }));
}

#[test]
fn no_icon_is_found_once_the_sizes_are_through() {
    let (state, action) =
        record().integrate_desktop(&desktop(), Integration::ProbingIcons { at: 14 }, Event::Exists(false));
    assert_eq!(state, Integration::ListingRoot { icon_found: false });
    assert_eq!(action, Some(Action::ListDir { path: "/tmp/zap-rs/squashfs-root".to_string() }));
}

#[test]
fn every_desktop_entry_of_the_root_is_installed() {
    let app = record();
    let d = desktop();
    let entries = names(&["AppRun", "a.desktop", "usr", "b.desktop"]);
    let entry = |at: usize, phase: EntryPhase| Integration::Entry {
        icon_found: false,
        nested: false,
        entries: entries.clone(),
        at,
        phase,
    };
    let target = "/home/u/.local/share/zap-rs/desktops/app.desktop".to_string();
    let (state, action) =
        app.integrate_desktop(&d, Integration::ListingRoot { icon_found: false }, Event::Entries(entries.clone()));
    assert_eq!(state, entry(1, EntryPhase::Resolving));
    assert_eq!(action, Some(Action::Canonicalize { path: "/tmp/zap-rs/squashfs-root/a.desktop".to_string() }));
    let (state, action) = app.integrate_desktop(&d, state, Event::Path("/real/a.desktop".to_string()));
    assert_eq!(state, entry(1, EntryPhase::Copying));
    assert_eq!(action, Some(Action::CopyFile { from: "/real/a.desktop".to_string(), to: target.clone() }));
    let (state, action) = app.integrate_desktop(&d, state, Event::Done);
    assert_eq!(state, entry(1, EntryPhase::Reading));
    assert_eq!(action, Some(Action::ReadFile { path: target.clone() }));
    let (state, action) = app.integrate_desktop(&d, state, Event::Content("Exec=a b\nIcon=i".to_string()));
    assert_eq!(state, entry(1, EntryPhase::Writing));
    assert_eq!(
        action,
        Some(Action::WriteFile { path: target.clone(), content: "Exec=/cache/App.AppImage b\nIcon=i".to_string() })
    );
    let (state, action) = app.integrate_desktop(&d, state, Event::Done);
    assert_eq!(state, entry(1, EntryPhase::Publishing));
    assert_eq!(
        action,
        Some(Action::CopyFile { from: target, to: "/home/u/.local/share/applications/app.desktop".to_string() })
    );
    let (state, action) = app.integrate_desktop(&d, state, Event::Done);
    assert_eq!(state, entry(3, EntryPhase::Resolving));
    assert_eq!(action, Some(Action::Canonicalize { path: "/tmp/zap-rs/squashfs-root/b.desktop".to_string() }));
    let (state, action) = app.integrate_desktop(&d, entry(3, EntryPhase::Publishing), Event::Done);
    assert_eq!(state, Integration::ProbingNested { icon_found: false });
    assert_eq!(
        action,
        Some(Action::Probe { path: "/tmp/zap-rs/squashfs-root/usr/share/applications".to_string() })
    );
    let (state, action) = app.integrate_desktop(&d, state, Event::Exists(false));
    assert_eq!(state, Integration::Cleaning { failure: None });
    assert_eq!(action, Some(Action::RemoveTree { path: "/tmp/zap-rs".to_string() }));
    assert_eq!(app.integrate_desktop(&d, state, Event::Done), (Integration::Done, None));
}

#[test]
fn the_desktop_entries_of_the_applications_directory_are_installed_after_those_of_the_root() {
    let app = record();
    let d = desktop();
    let nested_dir = "/tmp/zap-rs/squashfs-root/usr/share/applications".to_string();
    let target = "/home/u/.local/share/zap-rs/desktops/app.desktop".to_string();
    let (state, action) = app.integrate_desktop(
        &d,
        Integration::ListingRoot { icon_found: true },
        Event::Entries(names(&["AppRun", "usr"])),
    );
    assert_eq!(state, Integration::ProbingNested { icon_found: true });
    assert_eq!(action, Some(Action::Probe { path: nested_dir.clone() }));
    let (state, action) = app.integrate_desktop(&d, state, Event::Exists(true));
    assert_eq!(state, Integration::ListingNested { icon_found: true });
    assert_eq!(action, Some(Action::ListDir { path: nested_dir.clone() }));
    let entries = names(&["app.desktop", "notes.txt"]);
    let (state, action) = app.integrate_desktop(&d, state, Event::Entries(entries.clone()));
    let entry = |phase: EntryPhase| Integration::Entry {
        icon_found: true,
        nested: true,
        entries: entries.clone(),
        at: 0,
        phase,
    };
    assert_eq!(state, entry(EntryPhase::Resolving));
    assert_eq!(action, Some(Action::Canonicalize { path: format!("{nested_dir}/app.desktop") }));
    let (state, _) = app.integrate_desktop(&d, state, Event::Path(format!("{nested_dir}/app.desktop")));
    let (state, _) = app.integrate_desktop(&d, state, Event::Done);
    let (state, action) = app.integrate_desktop(&d, state, Event::Content("Exec=app\nIcon=app".to_string()));
    assert_eq!(
        action,
        Some(Action::WriteFile {
            path: target,
            content: "Exec=/cache/App.AppImage\nIcon=/home/u/.local/share/zap-rs/icons/app.png".to_string(),
        })
    );
    let (state, _) = app.integrate_desktop(&d, state, Event::Done);
    assert_eq!(state, entry(EntryPhase::Publishing));
    let (state, action) = app.integrate_desktop(&d, state, Event::Done);
    assert_eq!(state, Integration::Cleaning { failure: None });
    assert_eq!(action, Some(Action::RemoveTree { path: "/tmp/zap-rs".to_string() }));
}

#[test]
fn a_failure_is_reported_after_the_scratch_directory_is_removed() {
    let app = record();
    let d = desktop();
    let e = io(IoKind::Other);
    let (state, action) = app.integrate_desktop(&d, Integration::CopyingIcon, Event::Failed(e.clone()));
    assert_eq!(state, Integration::Cleaning { failure: Some(e.clone()) });
    assert_eq!(action, Some(Action::RemoveTree { path: "/tmp/zap-rs".to_string() }));
    assert_eq!(app.integrate_desktop(&d, state.clone(), Event::Done), (Integration::Failed(e.clone()), None));
    assert_eq!(
        app.integrate_desktop(&d, state, Event::Failed(io(IoKind::NotFound))),
        (Integration::Failed(e), None)
    );
    assert_eq!(
        app.integrate_desktop(&d, Integration::Cleaning { failure: None }, Event::Failed(io(IoKind::NotFound))),
        (Integration::Failed(io(IoKind::NotFound)), None)
    );
    let (state, _) = app.integrate_desktop(&d, Integration::ListingRoot { icon_found: true }, Event::Done);
    assert_eq!(state, Integration::Cleaning { failure: Some(Error::Unexpected) });
}

#[test]
fn answers_that_say_yes() {
    for lowered in ["y", "yes", " y ", "yes\n", "\tyes\r\n"] {
        assert!(answer_is_yes(lowered), "{lowered:?}");
    }
    for lowered in ["", "n", "no", "Y", "YES", "yes please", "ye", "yy"] {
        assert!(!answer_is_yes(lowered), "{lowered:?}");
    }
    assert!(wants_integration("Y"));
    assert!(wants_integration("YeS\n"));
    assert!(!wants_integration("N"));
}
