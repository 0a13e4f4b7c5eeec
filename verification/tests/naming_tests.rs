use kryonix_home::metadata::{FileMetadata, FileStatus};
use kryonix_home::naming::{detect_version, is_supported_extension, normalize_filename, suggest_rename};

fn dummy_file(name: &str, ext: &str) -> FileMetadata {
    FileMetadata {
        path: format!("/tmp/{}", name),
        filename: name.to_string(),
        extension: ext.to_string(),
        mime: "application/octet-stream".to_string(),
        size_bytes: 100,
        modified_at: Some("2026-05-09T12:00:00Z".to_string()),
        is_dir: false,
        is_file: true,
        is_symlink: false,
        is_hidden: false,
        is_project_member: false,
        project_root: None,
        source_zone: Some("unknown".to_string()),
        readable: true,
        content_sampled: false,
        metadata_only: false,
        protected_reason: None,
        warnings: vec![],
        content: None,
        context: None,
        status: FileStatus::Analyzed,
    }
}

#[test]
fn test_normalize_basic() {
    let (name, rules) = normalize_filename("hello world-file");
    assert_eq!(name, "Hello_World_File");
    assert!(rules.contains(&"normalized_separators".to_string()));
}

#[test]
fn test_sanitize_dangerous_chars() {
    let (name, _) = normalize_filename("file:name?*.txt");
    assert_eq!(name, "Filename.txt");
}

#[test]
fn test_fallback_generic() {
    let (name, rules) = normalize_filename("---");
    assert_eq!(name, "Documento_Revisar");
    assert!(rules.contains(&"fallback_generic_name".to_string()));
}

#[test]
fn test_detect_version() {
    assert_eq!(detect_version("documento v2"), "v2");
    assert_eq!(detect_version("arquivo versão 3"), "v3");
    assert_eq!(detect_version("apenas um teste"), "v1");
}

#[test]
fn test_full_suggestion() {
    let file = dummy_file("trabalho final joao versão boa.pdf", "pdf");
    let suggestion = suggest_rename(&file).unwrap();
    assert_eq!(suggestion.suggested_filename, "2026-05-09_Trabalho_Final_Joao_v1.pdf");
    assert_eq!(suggestion.risk, "medium");
    assert!(suggestion.needs_review);
}

#[test]
fn test_preserve_extension() {
    let file = dummy_file("comprovante (1).txt", "txt");
    let suggestion = suggest_rename(&file).unwrap();
    assert_eq!(suggestion.suggested_filename, "2026-05-09_Comprovante_v1.txt");
    assert!(!suggestion.needs_review);
}

#[test]
fn test_already_clean_name() {
    let file = dummy_file("2026-05-09_Relatorio_Mensal_v1.txt", "txt");
    let suggestion = suggest_rename(&file);
    if let Some(s) = suggestion {
        assert_eq!(s.suggested_filename, "2026-05-09_2026_05_09_Relatorio_Mensal_v1.txt");
    }
}

#[test]
fn unsupported_extensions_get_no_suggestion() {
    assert!(is_supported_extension("pdf"));
    assert!(!is_supported_extension("exe"));
    let file = dummy_file("programa.exe", "exe");
    assert!(suggest_rename(&file).is_none());
}

#[test]
fn suggestion_confidence_is_in_hundredths() {
    let file = dummy_file("comprovante (1).txt", "txt");
    let s = suggest_rename(&file).unwrap();
    assert!(s.confidence_pct <= 100);
    assert_eq!(s.old_path, "/tmp/comprovante (1).txt");
}
