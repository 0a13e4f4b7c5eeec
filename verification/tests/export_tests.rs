use kryonix_home::export::{generate_event_id, is_forbidden_path, parse_export_source, scan_events, sha256_hex, ExportSource};
use kryonix_home::metadata::{FileMetadata, FileStatus};
use kryonix_home::scanner::ScanResult;

fn file(path: &str) -> FileMetadata {
    FileMetadata {
        path: path.to_string(),
        filename: path.rsplit('/').next().unwrap().to_string(),
        extension: "txt".to_string(),
        mime: "text/plain".to_string(),
        size_bytes: 7,
        modified_at: None,
        is_dir: false,
        is_file: true,
        is_symlink: false,
        is_hidden: false,
        is_project_member: false,
        project_root: None,
        source_zone: None,
        readable: true,
        content_sampled: false,
        metadata_only: false,
        protected_reason: None,
        warnings: vec![],
        content: None,
        context: None,
        status: FileStatus::Analyzed,
    }
}

#[test]
fn sha256_of_known_input() {
    assert_eq!(sha256_hex(&b"abc".to_vec()), "ba7816bf8f01cfea414140de5dae2223b00361a396177a9cb410ff61f20015ad");
}

#[test]
fn event_ids_are_deterministic() {
    let id = generate_event_id("scan", "run1", "/home/user/a.txt", None, "scan", "/home/user/a.txt");
    assert_eq!(id, "evt_8eda16c55e13d526cce459a656703cdb");
    assert_eq!(generate_event_id("plan", "r", "/p/ç.txt", Some("abc"), "move", "/t"), "evt_0ade4ca7363d40138a7afc878eced4cb");
    assert_eq!(id.len(), 36);
}

#[test]
fn forbidden_folders_are_never_exported() {
    assert!(is_forbidden_path("/home/user/.config/app.toml"));
    assert!(is_forbidden_path("/home/user/project/.git/HEAD"));
    assert!(!is_forbidden_path("/home/user/Documents/.gitignore"));
    assert!(!is_forbidden_path("/home/user/Downloads/a.pdf"));
}

#[test]
fn export_sources() {
    assert_eq!(parse_export_source("latest-scan"), Ok(ExportSource::LatestScan));
    assert_eq!(parse_export_source("latest-audit"), Ok(ExportSource::LatestAudit));
    assert_eq!(
        parse_export_source("x"),
        Err("Fonte de exportação 'x' não reconhecida. Use latest-scan, latest-plan, latest-manifest ou latest-audit".to_string())
    );
}

#[test]
fn scan_events_skip_forbidden_files() {
    let scan = ScanResult {
        run_id: "run1".to_string(),
        timestamp: "2026-05-09T12:00:00Z".to_string(),
        home_dir: "/home/user".to_string(),
        dirs_scanned: vec![],
        files: vec![file("/home/user/a.txt"), file("/home/user/.ssh/known_hosts")],
        projects: vec![],
        files_analyzed: 2,
        files_ignored: 0,
        files_error: 0,
        total_size_bytes: 14,
        warnings: vec![],
        full_home: false,
        schema_version: "1.0".to_string(),
        denied_count: 0,
        skipped_count: 0,
        protected_count: 0,
        inbox_count: 0,
        project_count: 0,
    };
    let events = scan_events(&scan, &vec![None, None], &"host".to_string(), &"me".to_string());
    assert_eq!(events.len(), 1);
    let e = &events[0];
    assert_eq!(e.event_id, "evt_8eda16c55e13d526cce459a656703cdb");
    assert_eq!(e.schema_version, "kryonix.home.memory.v1");
    assert_eq!(e.reason, "Arquivo escaneado na run run1");
    assert_eq!(e.action_status, "none");
    assert_eq!(e.size, 7);
}

#[test]
fn sha256_str_hashes_the_utf8_bytes() {
    assert_eq!(
        kryonix_home::export::sha256_str("abc"),
        "ba7816bf8f01cfea414140de5dae2223b00361a396177a9cb410ff61f20015ad"
    );
}
