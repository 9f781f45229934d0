use zap_rs::{AppImage, InstallArgs, Source, SourceMetadata};

fn args(appname: &str, from: &str, executable: Option<&str>, github: bool) -> InstallArgs {
    InstallArgs {
        appname: appname.to_string(),
        from: from.to_string(),
        executable: executable.map(|s| s.to_string()),
        github,
    }
}

#[test]
fn a_new_record_is_named_by_the_appname_by_default() {
    let record = AppImage::new(&args("myapp", "https://example.com/App.AppImage", None, false));
    assert_eq!(record.file_path, "");
    assert_eq!(record.executable, "myapp");
    assert_eq!(record.source, Source::RawUrl { url: "https://example.com/App.AppImage".to_string() });
}

#[test]
fn a_new_record_takes_the_executable_where_one_is_given() {
    let record = AppImage::new(&args("myapp", "owner/repo", Some("run-me"), true));
    assert_eq!(record.executable, "run-me");
    assert_eq!(record.source, Source::GitHub { slug: "owner/repo".to_string() });
}

#[test]
fn the_stored_words_of_the_two_kinds_of_source() {
    let url = Source::RawUrl { url: "https://e.com/a".to_string() };
    let repo = Source::GitHub { slug: "o/r".to_string() };
    assert_eq!(url.identifier(), "raw_url");
    assert_eq!(repo.identifier(), "git.github");
    assert_eq!(url.meta(), SourceMetadata { url: "https://e.com/a".to_string() });
    assert_eq!(repo.meta(), SourceMetadata { url: "o/r".to_string() });
    assert!(!url.is_github());
    assert!(repo.is_github());
}

#[test]
fn a_source_is_read_back_from_its_stored_form() {
    let sources = [
        Source::RawUrl { url: "https://e.com/a".to_string() },
        Source::GitHub { slug: "o/r".to_string() },
        Source::RawUrl { url: String::new() },
        Source::RawUrl { url: "git.github".to_string() },
    ];
    for source in sources {
        let back = Source::from_stored(&source.identifier(), source.meta());
        assert_eq!(back, source);
    }
}

#[test]
fn an_unknown_stored_word_is_read_as_a_link() {
    let meta = SourceMetadata { url: "x".to_string() };
    assert_eq!(Source::from_stored("something", meta.clone()), Source::RawUrl { url: "x".to_string() });
    assert_eq!(Source::from_stored("GIT.GITHUB", meta), Source::RawUrl { url: "x".to_string() });
}

#[test]
fn duplicate_gives_an_equal_record() {
    let record = AppImage {
        file_path: "/a/b".to_string(),
        executable: "app".to_string(),
        source: Source::GitHub { slug: "o/r".to_string() },
    };
    assert_eq!(record.duplicate(), record);
    assert_eq!(record.source.duplicate(), record.source);
}

fn to_json(record: &AppImage) -> String {
    let mut meta = serde_json::Map::new();
    meta.insert("url".to_string(), serde_json::Value::String(record.source.meta().url));
    let mut source = serde_json::Map::new();
    source.insert("identifier".to_string(), serde_json::Value::String(record.source.identifier()));
    source.insert("meta".to_string(), serde_json::Value::Object(meta));
    let mut whole = serde_json::Map::new();
    whole.insert("file_path".to_string(), serde_json::Value::String(record.file_path.clone()));
    whole.insert("executable".to_string(), serde_json::Value::String(record.executable.clone()));
    whole.insert("source".to_string(), serde_json::Value::Object(source));
    serde_json::to_string_pretty(&serde_json::Value::Object(whole)).unwrap()
}

fn from_json(text: &str) -> AppImage {
    let whole: serde_json::Value = serde_json::from_str(text).unwrap();
    let field = |value: &serde_json::Value, name: &str| value[name].as_str().unwrap().to_string();
    AppImage {
        file_path: field(&whole, "file_path"),
        executable: field(&whole, "executable"),
        source: Source::from_stored(
            &field(&whole["source"], "identifier"),
            SourceMetadata { url: field(&whole["source"]["meta"], "url") },
        ),
    }
}

#[test]
fn a_record_survives_its_json_form() {
    let records = [
        AppImage {
            file_path: "/home/u/.local/share/zap-rs/appimages/App.AppImage".to_string(),
            executable: "myapp".to_string(),
            source: Source::RawUrl { url: "https://example.com/App.AppImage".to_string() },
        },
        AppImage {
            file_path: "/a \"b\"/é.AppImage".to_string(),
            executable: "tool".to_string(),
            source: Source::GitHub { slug: "owner/tool".to_string() },
        },
    ];
    for record in records {
        let text = to_json(&record);
        assert_eq!(from_json(&text), record);
    }
}

#[test]
fn the_json_form_of_a_record_names_its_source() {
    let record = AppImage {
        file_path: "/p".to_string(),
        executable: "myapp".to_string(),
        source: Source::RawUrl { url: "https://example.com/App.AppImage".to_string() },
    };
    let whole: serde_json::Value = serde_json::from_str(&to_json(&record)).unwrap();
    assert_eq!(whole["source"]["identifier"], "raw_url");
    assert_eq!(whole["source"]["meta"]["url"], "https://example.com/App.AppImage");
    assert_eq!(whole["executable"], "myapp");
    assert_eq!(whole["file_path"], "/p");
}
