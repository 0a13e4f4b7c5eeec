use kryonix_home::apply::{apply_verdict, cleanup_stops, effective_dry_run, performs_move, record_move, record_verdict, tally_step, ApplyTally, ApplyVerdict, MoveOutcome};
use kryonix_home::decision::DecisionClass;
use kryonix_home::manifest::{
    build_manifest, default_medium, default_needs_human, default_schema_version, file_stamp, gate_manifest_actions,
    manifest_report, markdown_report, summarize_manifest, Manifest, ManifestAction,
};
use kryonix_home::metadata::{FileMetadata, FileStatus};
use kryonix_home::planner::{Plan, PlanProposal};
use kryonix_home::project::ProjectCandidate;
use kryonix_home::review::{apply_review_command, parse_review_command, review_confidence, review_queue_counts, review_shows, ReviewCommand, ReviewOptions};
use kryonix_home::rollback::{record_rollback, rollback_order, rollback_tally_step, rollback_verdict, RollbackTally, RollbackVerdict};
use kryonix_home::scanner::ScanResult;

fn action(src: &str, status: &str, class: &str, risk: &str, auto: bool, blocked: bool) -> ManifestAction {
    ManifestAction {
        source_path: src.to_string(),
        target_path: format!("/home/user/Docs/{}", src.rsplit('/').next().unwrap()),
        action_type: "move".to_string(),
        old_hash: None,
        size_bytes: 100,
        mime: "application/pdf".to_string(),
        reason: "r".to_string(),
        risk: risk.to_string(),
        status: status.to_string(),
        error_msg: None,
        old_filename: None,
        new_filename: None,
        rules_applied: None,
        naming_profile: None,
        operation_kind: Some("move".to_string()),
        category_id: Some("financeiro.bancos".to_string()),
        category_label: Some("Bancos".to_string()),
        category_dir: Some("Documentos/Financeiro/Bancos".to_string()),
        taxonomy_score_bp: Some(7550),
        matched_keywords: None,
        taxonomy_reason: None,
        taxonomy_profile: None,
        candidate_categories: None,
        already_organized: false,
        decision_class: class.to_string(),
        auto_apply_allowed: auto,
        blocked_from_apply: blocked,
        staging_only: false,
    }
}

fn manifest_of(actions: Vec<ManifestAction>) -> Manifest {
    Manifest {
        run_id: "test-123".to_string(),
        timestamp: "2026-05-09T12:30:45Z".to_string(),
        hostname: "testhost".to_string(),
        user: "testuser".to_string(),
        tool_version: "1.0".to_string(),
        actions,
        protected_count: 5,
        schema_version: "1.0".to_string(),
    }
}

fn proposal(action: &str, path: &str, new_dir: &str, new_filename: Option<&str>) -> PlanProposal {
    PlanProposal {
        action: action.to_string(),
        risk: "low".to_string(),
        confidence_bp: 6000,
        old_path: path.to_string(),
        source: path.to_string(),
        new_dir: new_dir.to_string(),
        destination: String::new(),
        reason: "motivo".to_string(),
        evidence: vec![],
        needs_review: false,
        protected: false,
        new_filename: new_filename.map(|s| s.to_string()),
        rules_applied: None,
        naming_profile: None,
        category_id: None,
        category_label: None,
        category_dir: None,
        taxonomy_score_bp: None,
        matched_keywords: None,
        taxonomy_reason: None,
        taxonomy_profile: None,
        candidate_categories: None,
        already_organized: false,
        is_project: None,
        project_markers: None,
        project_file_count: None,
        project_total_size: None,
        decision_class: DecisionClass::NeedsHumanReview,
        auto_apply_allowed: false,
        blocked_from_apply: false,
        staging_only: false,
        confidence_breakdown: None,
        content_profile: None,
        context_profile: None,
        project_evidence: None,
        safety_flags: vec![],
        rollback_hint: None,
    }
}

fn file(path: &str, size: u64, mime: &str) -> FileMetadata {
    FileMetadata {
        path: path.to_string(),
        filename: path.rsplit('/').next().unwrap().to_string(),
        extension: String::new(),
        mime: mime.to_string(),
        size_bytes: size,
        modified_at: None,
        is_dir: false,
        is_file: true,
        is_symlink: false,
        is_hidden: false,
        is_project_member: false,
        project_root: None,
        source_zone: None,
        readable: true,
        content_sampled: false,
        metadata_only: false,
        protected_reason: None,
        warnings: vec![],
        content: None,
        context: None,
        status: FileStatus::Analyzed,
    }
}

fn project(root: &str, name: &str, size: u64) -> ProjectCandidate {
    ProjectCandidate {
        root_path: root.to_string(),
        name: name.to_string(),
        markers: vec!["Cargo.toml".to_string()],
        category_id: "projetos.sandbox".to_string(),
        total_size_bytes: size,
        file_count: 3,
        risk: "medium".to_string(),
        needs_review: false,
        reason: "r".to_string(),
        warnings: vec![],
    }
}

#[test]
fn defaults_of_manifest_fields() {
    assert_eq!(default_medium(), "medium");
    assert_eq!(default_schema_version(), "1.0");
    assert_eq!(default_needs_human(), "NeedsHumanReview");
}

#[test]
fn manifest_from_plan() {
    let plan = Plan {
        run_id: "run-1".to_string(),
        mode: "dry-run".to_string(),
        home_dir: "/home/user".to_string(),
        files_seen: 2,
        projects_seen: 1,
        proposals: vec![
            proposal("move", "/home/user/Downloads/a.pdf", "Documentos/X", None),
            proposal("rename", "/home/user/Downloads/b.pdf", "Documentos/Y", Some("2026_B.pdf")),
            proposal("move", "/home/user/Downloads/missing.pdf", "Documentos/Z", None),
            proposal("move_project", "/home/user/Downloads/proj", "Projetos", None),
        ],
        protected_files: vec![],
        content_aware: false,
        context_aware: false,
        full_home: false,
        schema_version: "1.0".to_string(),
    };
    let scan = ScanResult {
        run_id: "run-1".to_string(),
        timestamp: "2026-05-09T12:00:00Z".to_string(),
        home_dir: "/home/user".to_string(),
        dirs_scanned: vec![],
        files: vec![file("/home/user/Downloads/a.pdf", 10, "application/pdf"), file("/home/user/Downloads/b.pdf", 20, "application/x")],
        projects: vec![project("/home/user/Downloads/proj", "proj", 999)],
        files_analyzed: 2,
        files_ignored: 0,
        files_error: 0,
        total_size_bytes: 30,
        warnings: vec![],
        full_home: false,
        schema_version: "1.0".to_string(),
        denied_count: 0,
        skipped_count: 0,
        protected_count: 0,
        inbox_count: 2,
        project_count: 1,
    };
    let hashes = vec![Some("h1".to_string()), None, None, None];
    let m = build_manifest(&plan, &scan, &hashes, "2026-05-09T12:00:00Z".to_string(), "host".to_string(), "me".to_string(), "0.1".to_string());
    assert_eq!(m.run_id, "run-1");
    assert_eq!(m.schema_version, "1.0");
    assert_eq!(m.actions.len(), 3);
    let a = &m.actions[0];
    assert_eq!(a.target_path, "/home/user/Documentos/X/a.pdf");
    assert_eq!(a.old_hash, Some("h1".to_string()));
    assert_eq!(a.size_bytes, 10);
    assert_eq!(a.status, "planned");
    assert_eq!(a.operation_kind, Some("move".to_string()));
    assert_eq!(a.decision_class, "NeedsHumanReview");
    let b = &m.actions[1];
    assert_eq!(b.target_path, "/home/user/Documentos/Y/2026_B.pdf");
    assert_eq!(b.operation_kind, Some("move_rename".to_string()));
    assert_eq!(b.mime, "application/x");
    let c = &m.actions[2];
    assert_eq!(c.target_path, "/home/user/Projetos/proj");
    assert_eq!(c.mime, "inode/directory");
    assert_eq!(c.size_bytes, 999);
    assert_eq!(c.old_filename, Some("proj".to_string()));
}

#[test]
fn policy_gate_skips_uncertified_actions() {
    let mut m = manifest_of(vec![
        action("/a", "planned", "AutoMoveCertified", "low", true, false),
        action("/b", "planned", "NeedsHumanReview", "low", false, false),
        action("/c", "planned", "AutoMoveCertified", "low", true, true),
    ]);
    gate_manifest_actions(&mut m);
    assert_eq!(m.actions[0].status, "planned");
    assert_eq!(m.actions[1].status, "skipped_policy_gate");
    assert_eq!(m.actions[2].status, "skipped_policy_gate");
}

#[test]
fn manifest_summary_counts() {
    let mut r = action("/b", "planned", "x", "high", false, false);
    r.action_type = "rename".to_string();
    let m = manifest_of(vec![action("/a", "planned", "x", "low", false, false), r]);
    let s = summarize_manifest(&m);
    assert_eq!((s.total, s.moves, s.renames, s.high_risk), (2, 1, 1, 1));
}

#[test]
fn markdown_report_rows() {
    let m = manifest_of(vec![action("/home/user/a.pdf", "planned", "x", "low", false, false)]);
    let text = markdown_report(&m, "2026-05-09 12:30:45");
    assert!(text.starts_with("# 🧠 Kryonix Home Brain - Relatório de Organização\n\n"));
    assert!(text.contains("- **ID do Run:** `test-123`\n"));
    assert!(text.contains("- **Arquivos protegidos ignorados:** 5\n\n"));
    assert!(text.contains("| `/home/user/a.pdf` | `/home/user/Docs/a.pdf` | Bancos | 76% | LOW | r |\n"));
    let full = manifest_report(&m);
    assert!(full.contains("- **Data:** 2026-05-09 12:30:45\n"));
    assert_eq!(file_stamp("2026-05-09T12:30:45Z"), Some("20260509-123045".to_string()));
    assert_eq!(file_stamp("not a date"), None);
}

#[test]
fn apply_checks_in_order() {
    let ok = action("/home/user/Downloads/a.pdf", "planned", "AutoMoveCertified", "low", true, false);
    assert_eq!(apply_verdict(&ok, true, false, &None, &None), ApplyVerdict::Proceed);
    assert!(performs_move(&ApplyVerdict::Proceed, false));
    assert!(!performs_move(&ApplyVerdict::Proceed, true));
    assert_eq!(apply_verdict(&ok, false, false, &None, &None), ApplyVerdict::SourceMissing);
    let h = Some("x".to_string());
    assert_eq!(apply_verdict(&ok, true, true, &h, &h), ApplyVerdict::Duplicate);
    assert_eq!(apply_verdict(&ok, true, true, &h, &Some("y".to_string())), ApplyVerdict::DestinationExists);
    let done = action("/home/user/Downloads/a.pdf", "executed", "AutoMoveCertified", "low", true, false);
    assert_eq!(apply_verdict(&done, true, false, &None, &None), ApplyVerdict::NotPlanned);
    let review = action("/home/user/Downloads/a.pdf", "planned", "NeedsHumanReview", "low", false, false);
    assert_eq!(apply_verdict(&review, true, false, &None, &None), ApplyVerdict::PolicyBlocked);
    let secret = action("/home/user/.ssh/id_rsa", "planned", "AutoMoveCertified", "low", true, false);
    assert!(matches!(apply_verdict(&secret, true, false, &None, &None), ApplyVerdict::Protected(_)));
    let mut hashed = ok;
    hashed.old_hash = Some("old".to_string());
    assert_eq!(apply_verdict(&hashed, true, false, &Some("new".to_string()), &None), ApplyVerdict::HashChanged);
    assert_eq!(apply_verdict(&hashed, true, false, &None, &None), ApplyVerdict::HashUnreadable);
    assert_eq!(apply_verdict(&hashed, true, false, &Some("old".to_string()), &None), ApplyVerdict::Proceed);
    let mut odd = action("/home/user/Downloads/a.pdf", "planned", "AutoMoveCertified", "low", true, false);
    odd.action_type = "delete".to_string();
    assert_eq!(apply_verdict(&odd, true, false, &None, &None), ApplyVerdict::Unsupported);
}

#[test]
fn apply_records_outcomes() {
    let mut a = action("/a", "planned", "AutoMoveCertified", "low", true, false);
    record_verdict(&mut a, &ApplyVerdict::DestinationExists);
    assert_eq!(a.status, "blocked");
    assert_eq!(a.error_msg, Some("destination_exists".to_string()));
    let mut b = action("/b", "planned", "AutoMoveCertified", "low", true, false);
    b.action_type = "copy".to_string();
    record_verdict(&mut b, &ApplyVerdict::Unsupported);
    assert_eq!(b.status, "skipped");
    assert_eq!(b.error_msg, Some("Ação não suportada ou proibida: copy".to_string()));
    let mut c = action("/c", "planned", "AutoMoveCertified", "low", true, false);
    record_verdict(&mut c, &ApplyVerdict::Proceed);
    assert_eq!(c.status, "planned");
    record_move(&mut c, &MoveOutcome::Moved);
    assert_eq!(c.status, "executed");
    let mut d = action("/d", "planned", "AutoMoveCertified", "low", true, false);
    record_move(&mut d, &MoveOutcome::RenameFailed("EXDEV".to_string()));
    assert_eq!(d.status, "failed");
    assert_eq!(d.error_msg, Some("Falha no rename: EXDEV".to_string()));
    let t = ApplyTally { executed: 0, skipped: 0, failed: 0 };
    let t = tally_step(t, &ApplyVerdict::Proceed, Some(true));
    let t = tally_step(t, &ApplyVerdict::Duplicate, None);
    let t = tally_step(t, &ApplyVerdict::SourceMissing, None);
    let t = tally_step(t, &ApplyVerdict::NotPlanned, None);
    assert_eq!((t.executed, t.skipped, t.failed), (1, 1, 1));
}

#[test]
fn cleanup_stays_inside_home() {
    assert!(cleanup_stops("/home/user", "/home/user"));
    assert!(cleanup_stops("/home/user/", "/home/user"));
    assert!(cleanup_stops("/tmp/x", "/home/user"));
    assert!(!cleanup_stops("/home/user/Downloads/x", "/home/user"));
}

#[test]
fn rollback_reverts_executed_actions() {
    let mut a = action("/a", "executed", "AutoMoveCertified", "low", true, false);
    assert_eq!(rollback_verdict(&a, true, false), RollbackVerdict::Revert);
    assert_eq!(rollback_verdict(&a, false, false), RollbackVerdict::TargetMissing);
    assert_eq!(rollback_verdict(&a, true, true), RollbackVerdict::SourceOccupied);
    record_rollback(&mut a, RollbackVerdict::Revert, Ok(()));
    assert_eq!(a.status, "reverted");
    let b = action("/b", "skipped", "AutoMoveCertified", "low", true, false);
    assert_eq!(rollback_verdict(&b, true, false), RollbackVerdict::NotExecuted);
    let mut c = action("/c", "executed", "AutoMoveCertified", "low", true, false);
    record_rollback(&mut c, RollbackVerdict::SourceOccupied, Ok(()));
    assert_eq!(c.status, "executed");
    assert_eq!(c.error_msg, Some("Caminho original ocupado. Abortando reversão deste arquivo.".to_string()));
    assert_eq!(rollback_order(3), vec![2, 1, 0]);
    let t = rollback_tally_step(RollbackTally { reverted: 0, failed: 0 }, RollbackVerdict::Revert, true);
    let t = rollback_tally_step(t, RollbackVerdict::TargetMissing, false);
    assert_eq!((t.reverted, t.failed), (1, 1));
}

#[test]
fn review_filters_and_answers() {
    let a = action("/a", "planned", "x", "medium", false, false);
    let none = ReviewOptions { category: None, max_risk: None, min_confidence: 0 };
    assert!(review_shows(&a, &none));
    assert_eq!(review_confidence(&a), 75);
    let by_cat = ReviewOptions { category: Some("BANCOS".to_string()), max_risk: None, min_confidence: 0 };
    assert!(review_shows(&a, &by_cat));
    let other_cat = ReviewOptions { category: Some("saude".to_string()), max_risk: None, min_confidence: 0 };
    assert!(!review_shows(&a, &other_cat));
    let low_only = ReviewOptions { category: None, max_risk: Some("low".to_string()), min_confidence: 0 };
    assert!(!review_shows(&a, &low_only));
    let strict = ReviewOptions { category: None, max_risk: None, min_confidence: 80 };
    assert!(!review_shows(&a, &strict));
    let done = action("/b", "skipped", "x", "low", false, false);
    assert!(!review_shows(&done, &none));
    assert_eq!(parse_review_command("  A\n"), ReviewCommand::Approve);
    assert_eq!(parse_review_command("skip"), ReviewCommand::Skip);
    assert_eq!(parse_review_command("e"), ReviewCommand::Explain);
    assert_eq!(parse_review_command("QUIT"), ReviewCommand::Quit);
    assert_eq!(parse_review_command("x"), ReviewCommand::Invalid);
    let mut c = action("/c", "planned", "x", "low", false, false);
    apply_review_command(&mut c, ReviewCommand::Skip);
    assert_eq!(c.status, "skipped");
    let m = manifest_of(vec![
        action("/1", "planned", "x", "low", false, false),
        action("/2", "planned", "x", "medium", false, false),
        action("/3", "planned", "x", "high", false, false),
        action("/4", "executed", "x", "low", false, false),
    ]);
    assert_eq!(review_queue_counts(&m), (1, 1, 1));
}

#[test]
fn nothing_moves_without_confirmation() {
    assert!(effective_dry_run(false, false));
    assert!(effective_dry_run(true, true));
    assert!(!effective_dry_run(false, true));
    assert!(!performs_move(&ApplyVerdict::Proceed, effective_dry_run(false, false)));
    assert!(performs_move(&ApplyVerdict::Proceed, effective_dry_run(false, true)));
    assert!(!performs_move(&ApplyVerdict::Duplicate, effective_dry_run(false, true)));
}
