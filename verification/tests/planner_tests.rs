use kryonix_home::decision::DecisionClass;
use kryonix_home::metadata::{FileMetadata, FileStatus};
use kryonix_home::planner::{generate_plan, mask_protected_path, plan_inputs_valid, PlanOptions};
use kryonix_home::scanner::ScanResult;
use kryonix_home::taxonomy::default_taxonomy_config;

fn create_mock_file(path: &str, protected: bool) -> FileMetadata {
    let filename = path.rsplit('/').next().unwrap().to_string();
    let extension = match filename.rfind('.') {
        Some(i) if i > 0 => filename[i + 1..].to_string(),
        _ => String::new(),
    };
    FileMetadata {
        path: path.to_string(),
        filename,
        extension,
        mime: if protected { "application/octet-stream" } else { "application/pdf" }.to_string(),
        size_bytes: 1024,
        modified_at: None,
        is_dir: false,
        is_file: true,
        is_symlink: false,
        is_hidden: path.contains("/."),
        is_project_member: false,
        project_root: None,
        source_zone: None,
        readable: !protected,
        content_sampled: false,
        metadata_only: protected,
        protected_reason: if protected { Some("protected".to_string()) } else { None },
        warnings: vec![],
        content: None,
        context: None,
        status: FileStatus::Analyzed,
    }
}

fn scan_of(files: Vec<FileMetadata>, full_home: bool, total: u64) -> ScanResult {
    let n = files.len();
    ScanResult {
        schema_version: "1.0".to_string(),
        run_id: "test".to_string(),
        timestamp: "2026-05-11T12:00:00Z".to_string(),
        home_dir: "/home/user".to_string(),
        dirs_scanned: vec!["/home/user".to_string()],
        files,
        projects: vec![],
        files_analyzed: n,
        files_ignored: 0,
        files_error: 0,
        total_size_bytes: total,
        warnings: vec![],
        full_home,
        denied_count: 0,
        skipped_count: 0,
        protected_count: 0,
        inbox_count: 1,
        project_count: 0,
    }
}

#[test]
fn test_planner_absolute_protection_enforcement() {
    let files = vec![
        create_mock_file("/home/user/.ssh/id_rsa", true),
        create_mock_file("/home/user/.gnupg/secring.gpg", true),
        create_mock_file("/home/user/.config/app/secrets.env", true),
        create_mock_file("/home/user/Downloads/public.pdf", false),
    ];
    let scan = scan_of(files, true, 4096);
    let options = PlanOptions { full_home: true, ..Default::default() };
    assert!(plan_inputs_valid(&scan, &options));
    let plan = generate_plan(&scan, &options, &default_taxonomy_config(), &vec![]);
    assert_eq!(plan.proposals.len(), 1);
    assert_eq!(plan.proposals[0].old_path, "/home/user/Downloads/public.pdf");
    assert_eq!(plan.protected_files.len(), 3);
    let protected_paths: Vec<_> = plan.protected_files.iter().map(|f| &f.path).collect();
    assert!(protected_paths.contains(&&"~/.ssh/[PROTECTED: protected]".to_string()));
    assert!(protected_paths.contains(&&"~/.gnupg/[PROTECTED: protected]".to_string()));
    assert!(protected_paths.contains(&&"~/.config/[PROTECTED: protected]".to_string()));
}

#[test]
fn test_autopilot_safety_hardfloor() {
    let f1 = create_mock_file("/home/user/Downloads/test_doc.pdf", false);
    let scan = scan_of(vec![f1], false, 1024);
    let options = PlanOptions { min_confidence_bp: Some(5000), ..Default::default() };
    let plan = generate_plan(&scan, &options, &default_taxonomy_config(), &vec![]);
    assert!(!plan.proposals.is_empty());
    let proposal = &plan.proposals[0];
    assert_ne!(proposal.decision_class, DecisionClass::AutoMoveCertified);
    assert!(!proposal.auto_apply_allowed);
}

#[test]
fn test_uncertain_destination_never_automove() {
    let f1 = create_mock_file("/home/user/Downloads/revisar_doc.pdf", false);
    let scan = scan_of(vec![f1], false, 1024);
    let options = PlanOptions::default();
    let plan = generate_plan(&scan, &options, &default_taxonomy_config(), &vec![]);
    assert!(!plan.proposals.is_empty());
    let proposal = &plan.proposals[0];
    assert_ne!(proposal.decision_class, DecisionClass::AutoMoveCertified);
    assert!(!proposal.auto_apply_allowed);
}

#[test]
fn plan_is_a_dry_run_of_the_scan() {
    let scan = scan_of(vec![create_mock_file("/home/user/Downloads/a.pdf", false)], false, 1024);
    let plan = generate_plan(&scan, &PlanOptions::default(), &default_taxonomy_config(), &vec![]);
    assert_eq!(plan.mode, "dry-run");
    assert_eq!(plan.run_id, "test");
    assert_eq!(plan.schema_version, "1.0");
    assert_eq!(plan.files_seen, 1);
}

#[test]
fn limit_bounds_the_proposals() {
    let files = vec![
        create_mock_file("/home/user/Downloads/a.pdf", false),
        create_mock_file("/home/user/Downloads/b.pdf", false),
        create_mock_file("/home/user/Downloads/c.pdf", false),
    ];
    let scan = scan_of(files, false, 3072);
    let options = PlanOptions { limit: Some(2), ..Default::default() };
    let plan = generate_plan(&scan, &options, &default_taxonomy_config(), &vec![]);
    assert!(plan.proposals.len() <= 2);
}

#[test]
fn protected_paths_are_masked() {
    assert_eq!(mask_protected_path("/home/user/.ssh/id_rsa", "protected"), "~/.ssh/[PROTECTED: protected]");
}

#[test]
fn file_already_in_place_is_not_proposed() {
    let files = vec![
        create_mock_file("/home/user/Documentos/Revisar/a.pdf", false),
        create_mock_file("/home/user/Downloads/b.pdf", false),
    ];
    let scan = scan_of(files, false, 2048);
    let plan = generate_plan(&scan, &PlanOptions::default(), &default_taxonomy_config(), &vec![]);
    assert_eq!(plan.proposals.len(), 1);
    assert_eq!(plan.proposals[0].old_path, "/home/user/Downloads/b.pdf");
    assert_eq!(plan.proposals[0].new_dir, "Documentos/Revisar");
}

#[test]
fn limit_keeps_the_first_proposals_of_the_full_plan() {
    let files = vec![
        create_mock_file("/home/user/Downloads/a.pdf", false),
        create_mock_file("/home/user/Downloads/b.pdf", false),
        create_mock_file("/home/user/Downloads/c.pdf", false),
    ];
    let scan = scan_of(files, false, 3072);
    let full = generate_plan(&scan, &PlanOptions::default(), &default_taxonomy_config(), &vec![]);
    let cut = generate_plan(&scan, &PlanOptions { limit: Some(2), ..Default::default() }, &default_taxonomy_config(), &vec![]);
    assert_eq!(full.proposals.len(), 3);
    assert_eq!(cut.proposals.len(), 2);
    for k in 0..2 {
        assert_eq!(cut.proposals[k].old_path, full.proposals[k].old_path);
    }
    assert!(full.proposals.iter().all(|p| !p.already_organized || p.action == "rename"));
}

#[test]
fn renames_are_applied_when_asked() {
    let mut f = create_mock_file("/home/user/Downloads/Relatorio Final (1).pdf", false);
    f.modified_at = Some("2024-03-05T10:00:00Z".to_string());
    let scan = scan_of(vec![f], false, 1024);
    let options = PlanOptions { rename_suggestions: true, ..Default::default() };
    let plan = generate_plan(&scan, &options, &default_taxonomy_config(), &vec![]);
    assert_eq!(plan.proposals.len(), 1);
    let p = &plan.proposals[0];
    assert_eq!(p.action, "rename");
    let name = p.new_filename.as_ref().unwrap();
    assert!(name.starts_with("2024-03-05_"));
    assert!(name.ends_with(".pdf"));
}

#[test]
fn review_flag_follows_the_classification() {
    let scan = scan_of(vec![create_mock_file("/home/user/Downloads/a.pdf", false)], false, 1024);
    let plan = generate_plan(&scan, &PlanOptions::default(), &default_taxonomy_config(), &vec![]);
    // A PDF classified by MIME has confidence 0.85, so it is not flagged by the band.
    assert!(!plan.proposals[0].needs_review);
    let mut f = create_mock_file("/home/user/Downloads/x.bin2", false);
    f.mime = "application/octet-stream".to_string();
    let scan = scan_of(vec![f], false, 1024);
    let plan = generate_plan(&scan, &PlanOptions::default(), &default_taxonomy_config(), &vec![]);
    assert!(plan.proposals[0].needs_review);
}

#[test]
fn checked_plan_refuses_paths_without_parent() {
    let mut f = create_mock_file("/home/user/Downloads/a.pdf", false);
    f.path = "".to_string();
    let scan = scan_of(vec![f], false, 1024);
    assert!(kryonix_home::planner::generate_plan_checked(&scan, &PlanOptions::default(), &default_taxonomy_config(), &vec![]).is_none());
    let scan = scan_of(vec![create_mock_file("/home/user/Downloads/a.pdf", false)], false, 1024);
    assert!(kryonix_home::planner::generate_plan_checked(&scan, &PlanOptions::default(), &default_taxonomy_config(), &vec![]).is_some());
    let big = FileMetadata { size_bytes: 3_000_000_000, ..create_mock_file("/home/user/Downloads/big.iso", false) };
    assert!(!kryonix_home::planner::is_plan_candidate(&big, &PlanOptions::default()));
    assert!(kryonix_home::planner::is_plan_candidate(&big, &PlanOptions { include_large_files: true, ..Default::default() }));
}
