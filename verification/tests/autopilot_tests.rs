use kryonix_home::autopilot::{
    allowed_autopilot_hostnames, default_false, default_max_actions, default_min_confidence, default_true,
    execution_permitted, is_host_allowed, resolve_dry_run, screen_proposal, triage_proposals, AutopilotConfig,
};
use kryonix_home::decision::DecisionClass;
use kryonix_home::planner::PlanProposal;

fn proposal(path: &str, conf_bp: u32, class: DecisionClass, risk: &str) -> PlanProposal {
    PlanProposal {
        action: "move".to_string(),
        risk: risk.to_string(),
        confidence_bp: conf_bp,
        old_path: path.to_string(),
        source: path.to_string(),
        new_dir: "Documentos/Financeiro/Bancos".to_string(),
        destination: format!("/home/user/Documentos/Financeiro/Bancos/{}", path.rsplit('/').next().unwrap()),
        reason: "test".to_string(),
        evidence: vec![],
        needs_review: false,
        protected: false,
        new_filename: None,
        rules_applied: None,
        naming_profile: None,
        category_id: None,
        category_label: None,
        category_dir: None,
        taxonomy_score_bp: None,
        matched_keywords: None,
        taxonomy_reason: None,
        taxonomy_profile: None,
        candidate_categories: None,
        already_organized: false,
        is_project: None,
        project_markers: None,
        project_file_count: None,
        project_total_size: None,
        decision_class: class,
        auto_apply_allowed: class == DecisionClass::AutoMoveCertified,
        blocked_from_apply: class == DecisionClass::BlockedUnsafe,
        staging_only: false,
        confidence_breakdown: None,
        content_profile: None,
        context_profile: None,
        project_evidence: None,
        safety_flags: vec![],
        rollback_hint: None,
    }
}

#[test]
fn test_autopilot_config_defaults() {
    let config = AutopilotConfig::default();
    assert!(!config.enabled, "Autopilot must be disabled by default");
    assert!(config.dry_run, "Dry-run must be true by default");
    assert_eq!(config.min_confidence_bp, 9500, "Min confidence must be 0.95 by default");
    assert_eq!(config.max_actions, 100);
    assert!(!config.staging_only);
}

#[test]
fn test_autopilot_blacklist_vm_files() {
    let config = AutopilotConfig::default();
    for ext in &["qcow2", "vmdk", "vdi", "vhd", "vhdx"] {
        assert!(config.blacklist_extensions.iter().any(|e| e == ext), "VM extension '{}' must be in default blacklist", ext);
    }
}

#[test]
fn test_autopilot_blacklist_databases() {
    let config = AutopilotConfig::default();
    for ext in &["sqlite", "db", "sqlite3"] {
        assert!(config.blacklist_extensions.iter().any(|e| e == ext), "Database extension '{}' must be in default blacklist", ext);
    }
}

#[test]
fn test_autopilot_blacklist_secrets() {
    let config = AutopilotConfig::default();
    for ext in &["env", "token", "secret", "key", "pem"] {
        assert!(config.blacklist_extensions.iter().any(|e| e == ext), "Secret extension '{}' must be in default blacklist", ext);
    }
}

#[test]
fn test_autopilot_blacklist_folders() {
    let config = AutopilotConfig::default();
    for folder in &[".ssh", ".gnupg", ".config", ".password-store", ".pki"] {
        assert!(config.blacklist_folders.iter().any(|f| f == folder), "Sensitive folder '{}' must be in default blacklist", folder);
    }
}

#[test]
fn defaults_of_the_configuration_file() {
    assert_eq!(default_min_confidence(), 9500);
    assert_eq!(default_max_actions(), 100);
    assert!(default_true());
    assert!(!default_false());
}

#[test]
fn host_gate() {
    assert_eq!(allowed_autopilot_hostnames(), vec!["inspiron".to_string(), "inspiron-nina".to_string()]);
    assert!(is_host_allowed(Some("inspiron")));
    assert!(is_host_allowed(Some("Inspiron-Nina")));
    assert!(is_host_allowed(Some("inspiron-laptop")));
    assert!(!is_host_allowed(Some("glacier")));
    assert!(is_host_allowed(None));
    assert!(is_host_allowed(Some("unknown")));
}

#[test]
fn dry_run_resolution_and_enable_gate() {
    assert!(resolve_dry_run(true, true, false));
    assert!(!resolve_dry_run(false, true, true));
    assert!(resolve_dry_run(false, false, true));
    assert!(!execution_permitted(false, false));
    assert!(execution_permitted(true, false));
    assert!(execution_permitted(false, true));
}

#[test]
fn blacklisted_extension_is_blocked() {
    let cfg = AutopilotConfig::default();
    let mut p = proposal("/home/user/Downloads/disk.QCOW2", 9800, DecisionClass::AutoMoveCertified, "low");
    screen_proposal(&mut p, &cfg, "/home/user");
    assert_eq!(p.decision_class, DecisionClass::BlockedUnsafe);
    assert!(p.blocked_from_apply);
    assert!(!p.auto_apply_allowed);
    assert_eq!(p.safety_flags, vec!["blacklisted_by_autopilot_config".to_string()]);
}

#[test]
fn blacklisted_folder_is_blocked() {
    let cfg = AutopilotConfig::default();
    let mut p = proposal("/home/user/VMs/notes.txt", 9800, DecisionClass::AutoMoveCertified, "low");
    screen_proposal(&mut p, &cfg, "/home/user");
    assert_eq!(p.decision_class, DecisionClass::BlockedUnsafe);
}

#[test]
fn low_confidence_is_demoted_to_review() {
    let cfg = AutopilotConfig::default();
    let mut p = proposal("/home/user/Downloads/a.pdf", 9400, DecisionClass::AutoMoveCertified, "low");
    screen_proposal(&mut p, &cfg, "/home/user");
    assert_eq!(p.decision_class, DecisionClass::NeedsHumanReview);
    assert!(!p.auto_apply_allowed);
    assert_eq!(p.safety_flags, vec!["confidence_below_autopilot_threshold".to_string()]);
    let mut q = proposal("/home/user/Downloads/b.pdf", 9900, DecisionClass::AutoMoveCertified, "medium");
    screen_proposal(&mut q, &cfg, "/home/user");
    assert_eq!(q.decision_class, DecisionClass::NeedsHumanReview);
}

#[test]
fn staging_redirects_certified_moves() {
    let mut cfg = AutopilotConfig::default();
    cfg.staging_only = true;
    let mut p = proposal("/home/user/Downloads/a.pdf", 9900, DecisionClass::AutoMoveCertified, "low");
    screen_proposal(&mut p, &cfg, "/home/user");
    assert_eq!(p.decision_class, DecisionClass::AutoMoveCertified);
    assert!(p.staging_only);
    assert_eq!(p.new_dir, "Documentos/00_Inbox/Downloads/Revisar");
    assert_eq!(p.destination, "/home/user/Documentos/00_Inbox/Downloads/Revisar/a.pdf");
}

#[test]
fn triage_sorts_limits_and_buckets() {
    let mut cfg = AutopilotConfig::default();
    cfg.max_actions = 2;
    let proposals = vec![
        proposal("/home/user/Downloads/a.pdf", 9600, DecisionClass::AutoMoveCertified, "low"),
        proposal("/home/user/Downloads/b.pdf", 9900, DecisionClass::AutoMoveCertified, "low"),
        proposal("/home/user/Downloads/c.pdf", 9700, DecisionClass::AutoMoveCertified, "low"),
        proposal("/home/user/Downloads/d.pdf", 5000, DecisionClass::NeedsHumanReview, "medium"),
        proposal("/home/user/Downloads/e.exe", 9900, DecisionClass::AutoMoveCertified, "low"),
        proposal("/home/user/Downloads/f.tmp", 1000, DecisionClass::IgnoreNoise, "low"),
        proposal("/home/user/Documentos/g.pdf", 9000, DecisionClass::KeepInPlace, "low"),
    ];
    let t = triage_proposals(proposals, &cfg, "/home/user");
    let certified: Vec<&str> = t.certified.iter().map(|p| p.old_path.as_str()).collect();
    assert_eq!(certified, vec!["/home/user/Downloads/b.pdf", "/home/user/Downloads/c.pdf"]);
    let review: Vec<&str> = t.review.iter().map(|p| p.old_path.as_str()).collect();
    assert_eq!(review, vec!["/home/user/Downloads/d.pdf", "/home/user/Downloads/a.pdf"]);
    assert_eq!(t.review[1].decision_class, DecisionClass::NeedsHumanReview);
    assert!(t.review[1].safety_flags.contains(&"demoted_due_to_max_actions_limit".to_string()));
    assert_eq!(t.blocked.len(), 1);
    assert_eq!(t.blocked[0].old_path, "/home/user/Downloads/e.exe");
    assert_eq!(t.ignored.len(), 1);
    assert_eq!(t.keep.len(), 1);
}

#[test]
fn triage_keeps_input_order_among_equal_confidence() {
    let cfg = AutopilotConfig::default();
    let proposals = vec![
        proposal("/home/user/Downloads/x.pdf", 9700, DecisionClass::AutoMoveCertified, "low"),
        proposal("/home/user/Downloads/y.pdf", 9800, DecisionClass::AutoMoveCertified, "low"),
        proposal("/home/user/Downloads/z.pdf", 9700, DecisionClass::AutoMoveCertified, "low"),
    ];
    let t = triage_proposals(proposals, &cfg, "/home/user");
    let certified: Vec<&str> = t.certified.iter().map(|p| p.old_path.as_str()).collect();
    assert_eq!(certified, vec!["/home/user/Downloads/y.pdf", "/home/user/Downloads/x.pdf", "/home/user/Downloads/z.pdf"]);
}
