use codex_usage::adapter::{
    check_binding, scan_result, CodexAdapter, CodexBindingOutcome, SessionIdentity, SourceId,
};
use codex_usage::config::{
    default_candidate, fingerprint, is_under, join, metadata_path_within_home, CodexConfig,
    CodexConfigResolution, CodexMetadataPaths, PrefixFact, PrefixStatus,
};
use codex_usage::platform::Platform;
use sha2::Digest;

fn ready(home: &str) -> CodexConfig {
    match CodexConfig::from_home(Platform::here(), home.to_owned(), Some(home.to_owned()), [true; 3]) {
        CodexConfigResolution::Ready(config) => config,
        CodexConfigResolution::Invalid(error) => panic!("{error:?}"),
    }
}

fn code(resolution: &CodexConfigResolution) -> Option<&'static str> {
    match resolution {
        CodexConfigResolution::Ready(_) => None,
        CodexConfigResolution::Invalid(error) => Some(error.code()),
    }
}

#[test]
fn codex_identity_keeps_native_session_id_as_thread_id() {
    let native = "00000000-0000-4000-8000-000000000001";
    let identity = SessionIdentity::new(native, SourceId::Codex, native)
        .expect("Codex identity must be valid");
    assert_eq!(identity.thread_id, native);
    assert_eq!(identity.native_session_id, native);
    assert_eq!(identity.source, SourceId::Codex);
}

#[test]
fn an_identity_needs_both_ids() {
    assert!(SessionIdentity::new("", SourceId::Codex, "a").is_err());
    assert!(SessionIdentity::new("a", SourceId::Codex, "").is_err());
    assert_eq!(SourceId::Codex.as_str(), "codex");
}

#[test]
fn relative_candidate_is_normalized_before_absolute_guard() {
    let resolution = CodexConfig::from_home(
        Platform::here(),
        ".codex".to_owned(),
        Some("/work/.codex".to_owned()),
        [false; 3],
    );
    assert!(matches!(
        &resolution,
        CodexConfigResolution::Invalid(error)
            if error.code() != "CODEX_HOME_NOT_ABSOLUTE"
                && error.resolved_home().is_some_and(|home| home.starts_with('/'))
    ));
}

#[test]
fn fingerprint_is_lowercase_sha256_of_normalized_home() {
    let home = "/tmp/usagi-codex-config-fingerprint";
    let config = ready(home);
    assert_eq!(config.home_fingerprint().len(), 64);
    assert!(config
        .home_fingerprint()
        .chars()
        .all(|c| c.is_ascii_hexdigit()));
    let expected: String = sha2::Sha256::digest(home.as_bytes())
        .iter()
        .map(|byte| format!("{byte:02x}"))
        .collect();
    assert_eq!(config.home_fingerprint(), expected);
    assert_eq!(fingerprint(home), expected);
    assert_eq!(
        fingerprint("abc"),
        "ba7816bf8f01cfea414140de5dae2223b00361a396177a9cb410ff61f20015ad"
    );
}

#[test]
fn a_ready_home_holds_its_files() {
    let config = ready("/home/codex");
    assert_eq!(config.home(), "/home/codex");
    assert_eq!(config.metadata().state_index_path(), "/home/codex/state_5.sqlite");
    assert_eq!(config.metadata().session_index_path(), "/home/codex/session_index.jsonl");
    assert_eq!(config.metadata().global_state_path(), "/home/codex/.codex-global-state.json");
    assert!(is_under(Platform::here(), config.metadata().state_index_path(), config.home()));
}

#[test]
fn each_fault_of_a_home_has_its_code() {
    let unresolved = CodexConfig::from_home(Platform::here(), "/h".to_owned(), None, [true; 3]);
    assert_eq!(code(&unresolved), Some("CODEX_HOME_RESOLUTION_FAILED"));
    assert_eq!(unresolved.quota_home(), "/h");
    let relative = CodexConfig::from_home(Platform::here(), "h".to_owned(), Some("h".to_owned()), [true; 3]);
    assert_eq!(code(&relative), Some("CODEX_HOME_NOT_ABSOLUTE"));
    let outside = CodexConfig::with_metadata_paths(
        Platform::here(),
        "/h".to_owned(),
        Some("/real/h".to_owned()),
        CodexMetadataPaths {
            state_index_path: "/real/h/state".to_owned(),
            session_index_path: "/else/session".to_owned(),
            global_state_path: "/else/global".to_owned(),
        },
        [true, false, false],
    );
    assert_eq!(code(&outside), Some("CODEX_METADATA_HOME_MISMATCH"));
    assert_eq!(outside.quota_home(), "/real/h");
    match outside {
        CodexConfigResolution::Invalid(error) => {
            assert_eq!(error.metadata_path().map(String::as_str), Some("/else/session"));
            assert_eq!(error.message(), "CODEX_METADATA_HOME_MISMATCH");
        }
        CodexConfigResolution::Ready(_) => unreachable!(),
    }
    assert_eq!(CodexConfigResolution::Ready(ready("/r")).quota_home(), "/r");
}

#[test]
fn the_configured_home_comes_first() {
    let user = Some("/home/u".to_owned());
    assert_eq!(default_candidate(Platform::here(), Some("/c".to_owned()), &user), "/c");
    assert_eq!(default_candidate(Platform::here(), Some(String::new()), &user), "/home/u/.codex");
    assert_eq!(default_candidate(Platform::here(), None, &user), "/home/u/.codex");
    assert_eq!(default_candidate(Platform::here(), None, &None), ".codex");
}

#[test]
fn paths_are_under_whole_components() {
    assert_eq!(join(Platform::here(), "/a", "b"), "/a/b");
    assert_eq!(join(Platform::here(), "/a/", "b"), "/a/b");
    assert_eq!(join(Platform::here(), "", "b"), "b");
    assert_eq!(join(Platform::here(), "/a", "/b"), "/b");
    assert!(is_under(Platform::here(), "/a/b", "/a"));
    assert!(is_under(Platform::here(), "/a", "/a"));
    assert!(!is_under(Platform::here(), "/ab", "/a"));
    assert!(is_under(Platform::here(), "/x", "/"));
}

fn directory(path: &str, canonical: &str) -> PrefixFact {
    PrefixFact {
        path: path.to_owned(),
        status: PrefixStatus::Present { directory: true, symlink: false },
        canonical: Some(canonical.to_owned()),
    }
}

fn link(path: &str, canonical: &str) -> PrefixFact {
    PrefixFact {
        path: path.to_owned(),
        status: PrefixStatus::Present { directory: false, symlink: true },
        canonical: Some(canonical.to_owned()),
    }
}

fn missing(path: &str) -> PrefixFact {
    PrefixFact { path: path.to_owned(), status: PrefixStatus::Missing, canonical: None }
}

#[test]
fn metadata_path_rejects_external_symlink_with_missing_child() {
    let home = Some("/root/codex".to_owned());
    let prefixes = vec![
        directory("/", "/"),
        directory("/root", "/root"),
        directory("/root/codex", "/root/codex"),
        link("/root/codex/alias", "/root/outside"),
        missing("/root/codex/alias/missing.sqlite"),
    ];
    let inside = [
        metadata_path_within_home(Platform::here(), &home, &None, &prefixes),
        metadata_path_within_home(
            Platform::here(),
            &home,
            &None,
            &vec![directory("/root/codex", "/root/codex"), missing("/root/codex/state.jsonl")],
        ),
        metadata_path_within_home(
            Platform::here(),
            &home,
            &None,
            &vec![directory("/root/codex", "/root/codex"), missing("/root/codex/global.json")],
        ),
    ];
    assert_eq!(inside, [false, true, true]);
    let resolution = CodexConfig::with_metadata_paths(
        Platform::here(),
        "/root/codex".to_owned(),
        home,
        CodexMetadataPaths {
            state_index_path: "/root/codex/alias/missing.sqlite".to_owned(),
            session_index_path: "/root/codex/state.jsonl".to_owned(),
            global_state_path: "/root/codex/global.json".to_owned(),
        },
        inside,
    );
    assert!(matches!(
        resolution,
        CodexConfigResolution::Invalid(error)
            if error.code() == "CODEX_METADATA_HOME_MISMATCH"
    ));
}

#[test]
fn metadata_path_accepts_private_var_alias_for_missing_child() {
    let home = Some("/private/var/codex".to_owned());
    let by_alias = vec![
        directory("/", "/"),
        link("/var", "/private/var"),
        directory("/var/codex", "/private/var/codex"),
        missing("/var/codex/missing.sqlite"),
    ];
    assert!(metadata_path_within_home(Platform::here(), &home, &None, &by_alias));
    let by_name = vec![
        directory("/", "/"),
        directory("/private", "/private"),
        directory("/private/var", "/private/var"),
        directory("/private/var/codex", "/private/var/codex"),
        missing("/private/var/codex/missing.sqlite"),
    ];
    assert!(metadata_path_within_home(Platform::here(), &home, &None, &by_name));
}

#[test]
fn an_existing_path_counts_by_where_it_leads() {
    let home = Some("/h".to_owned());
    assert!(metadata_path_within_home(Platform::here(), &home, &Some("/h/f".to_owned()), &vec![]));
    assert!(!metadata_path_within_home(Platform::here(), &home, &Some("/g/f".to_owned()), &vec![]));
    assert!(!metadata_path_within_home(Platform::here(), &None, &Some("/h/f".to_owned()), &vec![]));
    let failed = PrefixFact {
        path: "/h/f".to_owned(),
        status: PrefixStatus::Failed,
        canonical: None,
    };
    assert!(!metadata_path_within_home(Platform::here(), &home, &None, &vec![directory("/h", "/h"), failed]));
    let file = PrefixFact {
        path: "/h/f".to_owned(),
        status: PrefixStatus::Present { directory: false, symlink: false },
        canonical: Some("/h/f".to_owned()),
    };
    assert!(!metadata_path_within_home(Platform::here(), &home, &None, &vec![file, missing("/h/f/g")]));
}

#[test]
fn the_adapter_answers_for_its_configuration() {
    let adapter = CodexAdapter::new(CodexConfigResolution::Ready(ready("/r")));
    assert!(adapter.availability().is_ok());
    assert_eq!(adapter.begin_scan(false).unwrap().home(), "/r");
    assert_eq!(adapter.begin_scan(true).unwrap_err().code, "SCAN_CANCELLED");
    let none = CodexAdapter::new(CodexConfig::from_home(Platform::here(), "/h".to_owned(), None, [true; 3]));
    assert_eq!(none.availability().unwrap_err().code, "CODEX_HOME_RESOLUTION_FAILED");
    assert_eq!(none.begin_scan(false).unwrap_err().code, "CODEX_HOME_RESOLUTION_FAILED");
    assert!(check_binding(CodexBindingOutcome::Bound).is_ok());
    assert_eq!(
        check_binding(CodexBindingOutcome::SourceChanged).unwrap_err().code,
        "SOURCE_CHANGED"
    );
    assert!(scan_result(Ok(())).is_ok());
    assert_eq!(scan_result(Err("X")).unwrap_err().code, "X");
}
