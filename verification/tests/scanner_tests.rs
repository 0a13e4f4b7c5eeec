use kryonix_home::metadata::{collect_metadata, FileMetadata, FileStatus, FsFacts};
use kryonix_home::project::ProjectCandidate;
use kryonix_home::scanner::{
    finish_scan, force_metadata_only, generate_run_id, ignored_file_record, is_file_skipped, project_candidate, scan_targets,
    skip_in_project_stats,
};

fn file(path: &str, size: u64, status: FileStatus) -> FileMetadata {
    FileMetadata {
        path: path.to_string(),
        filename: path.rsplit('/').next().unwrap().to_string(),
        extension: String::new(),
        mime: String::new(),
        size_bytes: size,
        modified_at: None,
        is_dir: false,
        is_file: true,
        is_symlink: false,
        is_hidden: false,
        is_project_member: false,
        project_root: None,
        source_zone: None,
        readable: true,
        content_sampled: false,
        metadata_only: false,
        protected_reason: None,
        warnings: vec![],
        content: None,
        context: None,
        status,
    }
}

#[test]
fn scan_targets_by_mode() {
    assert_eq!(scan_targets(true), vec!["Downloads".to_string(), "Desktop".to_string(), "Área de Trabalho".to_string()]);
    let all = scan_targets(false);
    assert_eq!(all.len(), 13);
    assert_eq!(all[0], "Downloads");
    assert_eq!(all[12], "Projetos");
}

#[test]
fn run_ids() {
    assert_eq!(generate_run_id("20260509-120000", "inspiron"), "20260509-120000-inspiron");
}

#[test]
fn skipped_files_are_recorded_unread() {
    assert!(is_file_skipped("/home/user/Downloads/.env", false));
    assert!(!is_file_skipped("/home/user/Downloads/report.pdf", false));
    let r = ignored_file_record("/home/user/Downloads/.env", false);
    assert_eq!(r.filename, ".env");
    assert_eq!(r.status, FileStatus::Ignored);
    assert!(r.metadata_only);
    assert_eq!(r.protected_reason, Some("Ignored or secret file".to_string()));
    assert_eq!(r.source_zone, Some("unknown".to_string()));
    let mut m = file("/home/user/a.txt", 3, FileStatus::Analyzed);
    force_metadata_only(&mut m);
    assert!(m.metadata_only);
    assert_eq!(m.protected_reason, Some("Forced metadata-only scan".to_string()));
}

#[test]
fn projects_out_of_place_need_review() {
    let p: ProjectCandidate = project_candidate("/home/user/Downloads/meu-app", vec![".git".to_string(), "Cargo.toml".to_string()], 10, 2);
    assert_eq!(p.name, "meu-app");
    assert_eq!(p.risk, "high");
    assert!(p.needs_review);
    assert_eq!(p.warnings, vec!["Projeto detectado em diretório não ideal".to_string()]);
    let q = project_candidate("/home/user/Projetos/lib", vec!["Cargo.toml".to_string()], 10, 2);
    assert_eq!(q.risk, "medium");
    assert!(!q.needs_review);
    assert!(q.warnings.is_empty());
    let r = project_candidate("/home/user/Desktop/lib", vec!["Cargo.toml".to_string()], 10, 2);
    assert_eq!(r.risk, "medium");
    assert!(r.needs_review);
}

#[test]
fn project_statistics_skip_build_folders() {
    assert!(skip_in_project_stats("/p/target/debug/x"));
    assert!(skip_in_project_stats("/p/node_modules"));
    assert!(!skip_in_project_stats("/p/src/main.rs"));
    assert!(!skip_in_project_stats("/p/targets.txt"));
}

#[test]
fn scan_totals() {
    let files = vec![
        file("/home/user/Downloads/a.pdf", 100, FileStatus::Analyzed),
        file("/home/user/Documents/b.pdf", 50, FileStatus::Analyzed),
        file("/home/user/Desktop/.env", 0, FileStatus::Ignored),
        file("/home/user/x", 0, FileStatus::Error),
    ];
    let projects = vec![project_candidate("/home/user/Projetos/p", vec!["Cargo.toml".to_string()], 1000, 3)];
    let s = finish_scan("r".to_string(), "t".to_string(), "/home/user".to_string(), vec![], files, projects, vec![], false);
    assert_eq!((s.files_analyzed, s.files_ignored, s.files_error), (2, 1, 1));
    assert_eq!(s.total_size_bytes, 1150);
    assert_eq!(s.inbox_count, 2);
    assert_eq!(s.protected_count, 1);
    assert_eq!(s.project_count, 1);
    assert_eq!(s.denied_count, 1);
    assert_eq!(s.skipped_count, 1);
}

#[test]
fn collected_metadata() {
    let facts = FsFacts { size_bytes: 10, modified_at: None, is_dir: false, is_file: true, is_symlink: false, can_open: true };
    let m = collect_metadata("/home/user/Downloads/Nota.PDF", "/home/user", facts, true, None, None, None);
    assert_eq!(m.filename, "Nota.PDF");
    assert_eq!(m.extension, "pdf");
    assert_eq!(m.mime, "application/pdf");
    assert_eq!(m.source_zone, Some("downloads".to_string()));
    assert!(m.readable && m.content_sampled && !m.metadata_only);
    assert_eq!(m.status, FileStatus::Analyzed);
    let facts = FsFacts { size_bytes: 10, modified_at: None, is_dir: false, is_file: true, is_symlink: false, can_open: true };
    let s = collect_metadata("/home/user/.ssh/id_rsa", "/home/user", facts, true, None, None, None);
    assert!(s.metadata_only && !s.readable && !s.content_sampled);
    assert_eq!(s.warnings, vec!["Protected path - metadata only scan".to_string()]);
}
