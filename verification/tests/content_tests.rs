use kryonix_home::content::{content_kind, context_profile, dedup_strings, is_read_forbidden, notebook_profile, text_content_profile, ContentKind};

#[test]
fn secret_paths_are_never_read() {
    assert!(is_read_forbidden("/home/user/.ssh/id_rsa"));
    assert!(is_read_forbidden("/home/user/Docs/server.KEY"));
    assert!(!is_read_forbidden("/home/user/Docs/notes.txt"));
    assert_eq!(content_kind("/home/user/Docs/notes.TXT"), Some(ContentKind::Text));
    assert_eq!(content_kind("/home/user/nb.ipynb"), Some(ContentKind::Notebook));
    assert_eq!(content_kind("/home/user/doc.pdf"), Some(ContentKind::Pdf));
    assert_eq!(content_kind("/home/user/.config/x.txt"), None);
    assert_eq!(content_kind("/home/user/photo.png"), None);
}

#[test]
fn text_profile_keywords_and_summary() {
    let p = text_content_profile("Comprovante de PIX\nvia NixOS", false);
    assert_eq!(p.keywords, vec!["pix".to_string(), "comprovante".to_string(), "nixos".to_string(), "nix".to_string()]);
    assert_eq!(p.summary, Some("Comprovante de PIX via NixOS".to_string()));
    assert_eq!(p.language, Some("Text".to_string()));
    let long = "a".repeat(130);
    let q = text_content_profile(&long, true);
    assert_eq!(q.summary, Some(format!("{}...", "a".repeat(120))));
    assert_eq!(q.language, Some("PDF Document".to_string()));
}

#[test]
fn notebook_profile_from_cells() {
    let cells = vec!["# Treino\n".to_string(), "import torch\nimport numpy".to_string(), "model.train()".to_string()];
    let p = notebook_profile(&cells);
    assert_eq!(p.summary, Some("# Treino".to_string()));
    assert_eq!(
        p.keywords,
        vec!["import".to_string(), "numpy".to_string(), "torch".to_string(), "model".to_string(), "train".to_string()]
    );
    assert_eq!(p.language, Some("Python/Jupyter".to_string()));
    let empty = notebook_profile(&vec![]);
    assert_eq!(empty.summary, Some("Jupyter Notebook".to_string()));
}

#[test]
fn sibling_categories() {
    let names = vec!["flake.nix".to_string(), "flake.lock".to_string(), "Cargo.toml".to_string(), "kryonix.md".to_string()];
    let c = context_profile(true, &names);
    assert!(c.is_inside_codebase);
    assert_eq!(
        c.sibling_categories,
        vec!["projetos.nixos".to_string(), "estudos.rust".to_string(), "projetos.nixos".to_string(), "projetos.kryonix".to_string()]
    );
    assert_eq!(dedup_strings(vec!["a".to_string(), "a".to_string(), "b".to_string(), "a".to_string()]), vec!["a".to_string(), "b".to_string(), "a".to_string()]);
}

#[test]
fn first_cells_keeps_the_sources_of_ten_cells() {
    let mut cells: Vec<Option<String>> = (0..12).map(|k| Some(format!("c{}", k))).collect();
    cells[1] = None;
    let r = kryonix_home::content::first_cells(&cells);
    assert_eq!(r, vec!["c0", "c2", "c3", "c4", "c5", "c6", "c7", "c8", "c9"]);
}

#[test]
fn review_is_mandatory_for_vaults_and_protected_paths() {
    assert!(kryonix_home::review::review_mandatory(false, false, "/home/u/Obsidian Vault/n.md"));
    assert!(kryonix_home::review::review_mandatory(false, true, "/home/u/a.md"));
    assert!(!kryonix_home::review::review_mandatory(false, false, "/home/u/a.md"));
}

#[test]
fn advisor_diagnosis_is_under_review() {
    let c = kryonix_home::ollama::advisor_diagnosis(kryonix_home::ollama::AdvisorSuggestion {
        category_id: "financeiro.bancos".to_string(),
        confidence_bp: 8000,
        reason: "pix".to_string(),
    });
    assert_eq!(c.id, "financeiro.bancos");
    assert_eq!(c.relative_dir, "Revisar");
    assert!(c.needs_review);
    assert_eq!(c.rules_applied, vec!["ollama_advisor"]);
}
