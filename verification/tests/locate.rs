use rustfs_launcher::errors::LaunchError;
use rustfs_launcher::locate::build_candidates;
use rustfs_launcher::locate::push_candidate;
use rustfs_launcher::locate::resolve_binary;

#[test]
fn push_candidate_deduplicates_and_keeps_first_position() {
    let mut v: Vec<String> = Vec::new();
    push_candidate(&mut v, String::from("/a/binaries/rustfs"));
    push_candidate(&mut v, String::from("/b/binaries/rustfs"));
    push_candidate(&mut v, String::from("/a/binaries/rustfs"));
    assert_eq!(v, vec![String::from("/a/binaries/rustfs"), String::from("/b/binaries/rustfs")]);
}

#[test]
fn candidates_follow_priority_order() {
    let v = build_candidates(
        "/app",
        false,
        &Some(String::from("/opt/override")),
        &Some(String::from("/work")),
        "rustfs",
    );
    assert_eq!(
        v,
        vec![
            String::from("/app/binaries/rustfs"),
            String::from("/opt/override/rustfs"),
            String::from("/work/src-tauri/binaries/rustfs"),
            String::from("/work/binaries/rustfs"),
            String::from("src-tauri/binaries/rustfs"),
        ]
    );
}

#[test]
fn candidates_include_packaged_resources_when_asked() {
    let v = build_candidates("/app", true, &None, &None, "rustfs");
    assert_eq!(
        v,
        vec![
            String::from("/app/binaries/rustfs"),
            String::from("/app/../Resources/binaries/rustfs"),
            String::from("src-tauri/binaries/rustfs"),
        ]
    );
}

#[test]
fn duplicate_environment_directory_yields_one_entry() {
    let v = build_candidates("/app", false, &Some(String::from("/app/binaries")), &None, "rustfs");
    assert_eq!(
        v,
        vec![String::from("/app/binaries/rustfs"), String::from("src-tauri/binaries/rustfs")]
    );
}

#[test]
fn skipped_environment_and_cwd_leave_their_candidates_out() {
    let v = build_candidates("/app", false, &None, &None, "rustfs");
    assert_eq!(
        v,
        vec![String::from("/app/binaries/rustfs"), String::from("src-tauri/binaries/rustfs")]
    );
}

#[test]
fn resolution_returns_first_existing_candidate() {
    let candidates = vec![String::from("/one"), String::from("/two"), String::from("/three")];
    let present = vec![false, true, true];
    assert_eq!(resolve_binary(&candidates, &present), Ok(String::from("/two")));
}

#[test]
fn resolution_prefers_earlier_candidates() {
    let candidates = vec![String::from("/one"), String::from("/two")];
    let present = vec![true, true];
    assert_eq!(resolve_binary(&candidates, &present), Ok(String::from("/one")));
}

#[test]
fn resolution_accepts_a_lower_priority_candidate_when_higher_ones_miss() {
    let candidates = vec![String::from("/one"), String::from("/two"), String::from("/three")];
    let present = vec![false, false, true];
    assert_eq!(resolve_binary(&candidates, &present), Ok(String::from("/three")));
}

#[test]
fn resolution_failure_reports_first_candidate() {
    let candidates = vec![String::from("/one"), String::from("/two")];
    let present = vec![false, false];
    assert_eq!(
        resolve_binary(&candidates, &present),
        Err(LaunchError::BinaryNotFound { candidate: String::from("/one") })
    );
}

#[test]
fn resolution_with_empty_candidate_list_reports_unknown() {
    let candidates: Vec<String> = Vec::new();
    let present: Vec<bool> = Vec::new();
    assert_eq!(
        resolve_binary(&candidates, &present),
        Err(LaunchError::BinaryNotFound { candidate: String::from("<unknown>") })
    );
}
