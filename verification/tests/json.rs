use codingame_monaco_vscode_server::json::JsonValue;
use codingame_monaco_vscode_server::version::{detect_version, DetectEvent, DetectStep};
use codingame_monaco_vscode_server::ServerError;

fn member(key: &str, value: JsonValue) -> (String, JsonValue) {
    (key.to_string(), value)
}

#[test]
fn member_lookup() {
    let doc = JsonValue::Object(vec![
        member("a", JsonValue::Bool(true)),
        member("b", JsonValue::Text("x".to_string())),
        member("a", JsonValue::Null),
    ]);
    assert_eq!(doc.get("a"), Some(&JsonValue::Bool(true)));
    assert_eq!(doc.get("b"), Some(&JsonValue::Text("x".to_string())));
    assert_eq!(doc.get("c"), None);
    assert_eq!(doc.get(""), None);
    assert_eq!(JsonValue::Object(vec![]).get("a"), None);
    assert_eq!(JsonValue::Array(vec![doc]).get("a"), None);
    assert_eq!(JsonValue::Text("a".to_string()).get("a"), None);
}

#[test]
fn text_and_array_access() {
    assert_eq!(JsonValue::Text("hi".to_string()).as_text(), Some("hi"));
    assert_eq!(JsonValue::Number("1".to_string()).as_text(), None);
    assert_eq!(JsonValue::Null.as_text(), None);
    let items = || vec![JsonValue::Null, JsonValue::Bool(false)];
    assert_eq!(JsonValue::Array(items()).as_array(), Some(&items()));
    assert_eq!(JsonValue::Object(vec![]).as_array(), None);
}

#[test]
fn parser_reads_escapes_and_nesting() {
    let tags = r#"[{"commit": [1, 2.5, null, true], "name": "v1.\"0\""}]"#;
    match detect_version(DetectEvent::Tags(tags.to_string()), "linux", "x86_64") {
        DetectStep::FetchManifest { tag, url } => {
            assert_eq!(tag, "v1.\"0\"");
            assert_eq!(
                url,
                "https://raw.githubusercontent.com/CodinGame/monaco-vscode-api/v1.\"0\"/package.json"
            );
        }
        other => panic!("unexpected step {:?}", other),
    }
}

#[test]
fn parser_takes_the_last_of_repeated_members() {
    let manifest = r#"{"config":{"vscode":{"commit":"old","commit":"new"}}}"#;
    match detect_version(
        DetectEvent::Manifest { tag: "v1".to_string(), body: manifest.to_string() },
        "linux",
        "x86_64",
    ) {
        DetectStep::Done(Ok(info)) => assert_eq!(info.vscode_commit, "new"),
        other => panic!("unexpected step {:?}", other),
    }
}

#[test]
fn parser_decodes_unicode_escapes() {
    let tags = r#"[{"name": "v\u00e9-\ud83d\ude00"}]"#;
    match detect_version(DetectEvent::Tags(tags.to_string()), "linux", "x86_64") {
        DetectStep::FetchManifest { tag, .. } => assert_eq!(tag, "v\u{e9}-\u{1f600}"),
        other => panic!("unexpected step {:?}", other),
    }
}

#[test]
fn parser_refuses_trailing_text() {
    let manifest = r#"{"config":{"vscode":{"commit":"deadbeef"}}} trailing"#;
    match detect_version(
        DetectEvent::Manifest { tag: "v1".to_string(), body: manifest.to_string() },
        "linux",
        "x86_64",
    ) {
        DetectStep::Done(Err(ServerError::VersionDetectionFailed(m))) => {
            assert!(m.starts_with("Invalid package.json: trailing characters"), "{}", m);
        }
        other => panic!("unexpected step {:?}", other),
    }
}

#[test]
fn parser_refuses_bottomless_nesting() {
    let tags = "[".repeat(100_000);
    match detect_version(DetectEvent::Tags(tags), "linux", "x86_64") {
        DetectStep::Done(Err(ServerError::VersionDetectionFailed(m))) => {
            assert!(m.starts_with("Invalid tag list: recursion limit exceeded"), "{}", m);
        }
        other => panic!("unexpected step {:?}", other),
    }
}

#[test]
fn parser_reads_deep_documents_within_the_limit() {
    let mut manifest = String::new();
    for _ in 0..100 {
        manifest.push_str(r#"{"config":"#);
    }
    manifest.push_str("null");
    for _ in 0..100 {
        manifest.push('}');
    }
    assert_eq!(
        detect_version(
            DetectEvent::Manifest { tag: "v1".to_string(), body: manifest },
            "linux",
            "x86_64"
        ),
        DetectStep::Done(Err(ServerError::VersionDetectionFailed(
            "Invalid package.json: config.vscode.commit is missing".to_string()
        )))
    );
}
