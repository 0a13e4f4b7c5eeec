use kryonix_home::ollama::{advisor_prompt, choose_ollama_endpoint, generate_url, resolve_advice, AdvisorSuggestion};
use kryonix_home::metadata::FileStatus::{Analyzed, Ignored};
use kryonix_home::planner::Plan;
use kryonix_home::report::{category_sizes, duplicate_groups, extension_counts, format_size, largest_files, mime_category, plan_dashboard, total_waste, DuplicateGroup};

#[test]
fn sizes() {
    assert_eq!(format_size(0), "0 B");
    assert_eq!(format_size(1023), "1023 B");
    assert_eq!(format_size(1024), "1.0 KiB");
    assert_eq!(format_size(1536), "1.5 KiB");
    assert_eq!(format_size(10 * 1024 * 1024), "10.0 MiB");
    assert_eq!(format_size(3 * 1024 * 1024 * 1024 + 300 * 1024 * 1024), "3.3 GiB");
    assert_eq!(format_size(2 * 1024 * 1024 * 1024 * 1024), "2.0 TiB");
}

#[test]
fn mime_categories() {
    assert_eq!(mime_category("image/png"), "Imagens");
    assert_eq!(mime_category("video/mp4"), "Vídeos");
    assert_eq!(mime_category("audio/ogg"), "Áudio");
    assert_eq!(mime_category("text/plain"), "Texto");
    assert_eq!(mime_category("application/pdf"), "PDF");
    assert_eq!(mime_category("application/x-tar"), "Compactados");
    assert_eq!(mime_category("application/octet-stream"), "Outros");
}

#[test]
fn duplicate_waste() {
    let groups = vec![
        DuplicateGroup { hash: "a".to_string(), size_bytes: 100, files: vec!["x".to_string(), "y".to_string(), "z".to_string()] },
        DuplicateGroup { hash: "b".to_string(), size_bytes: 7, files: vec!["w".to_string()] },
    ];
    assert_eq!(total_waste(&groups), 200);
}

#[test]
fn advisor_requests() {
    assert_eq!(choose_ollama_endpoint(Some("  ".to_string()), Some("http://local:1".to_string()), true), "http://local:1");
    assert_eq!(choose_ollama_endpoint(None, None, true), "http://localhost:11435");
    assert_eq!(choose_ollama_endpoint(None, Some(" ".to_string()), false), "http://10.0.0.2:11434");
    assert_eq!(generate_url("http://h:1"), "http://h:1/api/generate");
    let local = kryonix_home::taxonomy::TaxonomyCategory {
        id: "fallback.revisar".to_string(),
        label: "Revisar".to_string(),
        relative_dir: "Documentos/00_Inbox/Revisar".to_string(),
        confidence_bp: 2000,
        risk: "medium".to_string(),
        needs_review: true,
        reason: "Nenhuma".to_string(),
        rules_applied: vec![],
        matched_keywords: vec![],
        candidate_categories: None,
        already_organized: false,
    };
    let s = resolve_advice(None, local);
    assert_eq!(s.reason, "Nenhuma (Fallback local offline)");
    assert_eq!(s.confidence_bp, 2000);
    let a = AdvisorSuggestion { category_id: "x".to_string(), confidence_bp: 8000, reason: "y".to_string() };
    let local2 = kryonix_home::taxonomy::TaxonomyCategory {
        id: "z".to_string(), label: String::new(), relative_dir: String::new(), confidence_bp: 0, risk: String::new(),
        needs_review: false, reason: String::new(), rules_applied: vec![], matched_keywords: vec![], candidate_categories: None,
        already_organized: false,
    };
    assert_eq!(resolve_advice(Some(a), local2).category_id, "x");
}

#[test]
fn advisor_prompt_names_the_file() {
    let f = kryonix_home::metadata::FileMetadata {
        path: "/home/u/a.pdf".to_string(), filename: "a.pdf".to_string(), extension: "pdf".to_string(),
        mime: "application/pdf".to_string(), size_bytes: 1, modified_at: None, is_dir: false, is_file: true,
        is_symlink: false, is_hidden: false, is_project_member: false, project_root: None, source_zone: None,
        readable: true, content_sampled: false, metadata_only: false, protected_reason: None, warnings: vec![],
        content: None, context: None, status: kryonix_home::metadata::FileStatus::Analyzed,
    };
    let p = advisor_prompt(&f);
    assert!(p.starts_with("Você é o Kryonix Home Brain Advisor.\n"));
    assert!(p.ends_with("\n\nArquivo:\n- Caminho: /home/u/a.pdf\n- Nome: a.pdf\n- Extensão: pdf\n- MIME: application/pdf"));
}

fn file(path: &str, ext: &str, mime: &str, size: u64, status: kryonix_home::metadata::FileStatus) -> kryonix_home::metadata::FileMetadata {
    kryonix_home::metadata::FileMetadata {
        path: path.to_string(), filename: path.rsplit('/').next().unwrap().to_string(), extension: ext.to_string(),
        mime: mime.to_string(), size_bytes: size, modified_at: None, is_dir: false, is_file: true,
        is_symlink: false, is_hidden: false, is_project_member: false, project_root: None, source_zone: None,
        readable: true, content_sampled: false, metadata_only: false, protected_reason: None, warnings: vec![],
        content: None, context: None, status,
    }
}

#[test]
fn report_tables() {
    let files = vec![
        file("/a.pdf", "pdf", "application/pdf", 10, Analyzed),
        file("/b.txt", "txt", "text/plain", 300, Analyzed),
        file("/c.pdf", "pdf", "application/pdf", 20, Analyzed),
        file("/d", "", "application/octet-stream", 5, Analyzed),
        file("/e.pdf", "pdf", "application/pdf", 1000, Ignored),
    ];
    assert_eq!(
        extension_counts(&files),
        vec![("pdf".to_string(), 2), ("txt".to_string(), 1), ("(sem extensão)".to_string(), 1)]
    );
    assert_eq!(
        largest_files(&files),
        vec![("/b.txt".to_string(), 300), ("/c.pdf".to_string(), 20), ("/a.pdf".to_string(), 10), ("/d".to_string(), 5)]
    );
    assert_eq!(
        category_sizes(&files),
        vec![("Texto".to_string(), 300), ("PDF".to_string(), 30), ("Outros".to_string(), 5)]
    );
}

#[test]
fn duplicate_groups_by_hash() {
    let entries = vec![
        ("/a".to_string(), 5, "h1".to_string()),
        ("/b".to_string(), 7, "h2".to_string()),
        ("/c".to_string(), 5, "h1".to_string()),
        ("/d".to_string(), 9, "h3".to_string()),
        ("/e".to_string(), 7, "h2".to_string()),
        ("/f".to_string(), 5, "h1".to_string()),
    ];
    let groups = duplicate_groups(&entries);
    assert_eq!(groups.len(), 2);
    assert_eq!(groups[0].hash, "h1");
    assert_eq!(groups[0].files, vec!["/a".to_string(), "/c".to_string(), "/f".to_string()]);
    assert_eq!(groups[1].hash, "h2");
    assert_eq!(groups[1].size_bytes, 7);
    assert_eq!(total_waste(&groups), 17);
}

#[test]
fn plan_dashboard_counts() {
    let plan = Plan {
        run_id: "r".to_string(), mode: "dry-run".to_string(), home_dir: "/h".to_string(), files_seen: 0,
        projects_seen: 0, proposals: vec![], protected_files: vec![], content_aware: false, context_aware: false,
        full_home: false, schema_version: "1.0".to_string(),
    };
    let d = plan_dashboard(&plan);
    assert_eq!((d.safe, d.review, d.conflict, d.project_moves, d.file_moves, d.renames), (0, 0, 0, 0, 0, 0));
}
