use kryonix_home::metadata::{FileMetadata, FileStatus};
use kryonix_home::taxonomy::{default_taxonomy_config, parse_taxonomy_toml, suggest_category_config, TaxonomyCategory};

fn dummy_file(name: &str, ext: &str, mime: &str) -> FileMetadata {
    FileMetadata {
        path: format!("/tmp/home/Downloads/{}", name),
        filename: name.to_string(),
        extension: ext.to_string(),
        mime: mime.to_string(),
        size_bytes: 1000,
        modified_at: None,
        is_dir: false,
        is_file: true,
        is_symlink: false,
        is_hidden: false,
        is_project_member: false,
        project_root: None,
        source_zone: None,
        readable: true,
        content_sampled: false,
        metadata_only: false,
        protected_reason: None,
        warnings: vec![],
        content: None,
        context: None,
        status: FileStatus::Analyzed,
    }
}

fn suggest(file: &FileMetadata) -> TaxonomyCategory {
    suggest_category_config(file, &default_taxonomy_config())
}

#[test]
fn test_classifica_comprovante_pix() {
    let file = dummy_file("comprovante pix banco.pdf", "pdf", "application/pdf");
    let cat = suggest(&file);
    assert_eq!(cat.relative_dir, "Documentos/Financeiro/Bancos");
    assert!(cat.matched_keywords.contains(&"pix".to_string()));
    assert!(cat.matched_keywords.contains(&"banco".to_string()));
    assert!(cat.confidence_bp >= 7500);
}

#[test]
fn test_classifica_boleto() {
    let file = dummy_file("boleto vencimento maio.pdf", "pdf", "application/pdf");
    assert_eq!(suggest(&file).relative_dir, "Documentos/Financeiro/Boletos");
}

#[test]
fn test_classifica_nota_fiscal() {
    let file = dummy_file("nota fiscal compra pc.pdf", "pdf", "application/pdf");
    assert_eq!(suggest(&file).relative_dir, "Documentos/Financeiro/Notas_Fiscais");
}

#[test]
fn test_classifica_nixos() {
    let file = dummy_file("nixos flake estudo.txt", "txt", "text/plain");
    assert_eq!(suggest(&file).relative_dir, "Documentos/Estudos/NixOS");
}

#[test]
fn test_classifica_kryonix_brain() {
    let file = dummy_file("kryonix brain planejamento.md", "md", "text/markdown");
    assert_eq!(suggest(&file).relative_dir, "Documentos/Projetos/Kryonix");
}

#[test]
fn test_fallback_revisar() {
    let file = dummy_file("coisa aleatoria.txt", "txt", "text/plain");
    assert_eq!(suggest(&file).relative_dir, "Documentos/00_Inbox/Revisar");
}

#[test]
fn test_media_screenshot() {
    let file = dummy_file("screenshot erro.png", "png", "image/png");
    assert_eq!(suggest(&file).relative_dir, "Imagens/Screenshots");
}

#[test]
fn test_empate_conflitos() {
    let file = dummy_file("comprovante banco.pdf", "pdf", "application/pdf");
    let cat = suggest(&file);
    assert_eq!(cat.relative_dir, "Documentos/00_Inbox/Conflitos");
    assert_eq!(cat.id, "inbox.conflicts");
    let candidates = cat.candidate_categories.unwrap();
    assert!(candidates.contains(&"admin.comprovantes".to_string()));
    assert!(candidates.contains(&"financeiro.bancos".to_string()));
}

#[test]
fn test_no_extension_high_risk() {
    let file = dummy_file("documento_importante", "", "application/octet-stream");
    let cat = suggest(&file);
    assert_eq!(cat.risk, "high");
    assert!(cat.needs_review);
}

#[test]
fn test_low_confidence_inbox() {
    let file = dummy_file("comprovante_avulso.png", "png", "image/png");
    let cat = suggest(&file);
    assert_eq!(cat.relative_dir, "Documentos/00_Inbox/Baixa_Confianca");
    assert_eq!(cat.id, "inbox.low_confidence");
}

#[test]
fn test_load_taxonomy_toml() {
    let config = default_taxonomy_config();
    assert_eq!(config.profile, "kryonix-home-taxonomy-v1");
    assert!(config.categories.len() > 10);
}

#[test]
fn parses_a_small_taxonomy() {
    let toml = "[profile]\nname = \"mini\"\nfallback_dir = \"Inbox\"\n\n[[category]]\nid = \"a.b\"\nlabel = \"AB\"\ndir = \"Docs/AB\"\nkeywords = [\"alfa\", \"beta\"]\nextensions = [\"pdf\"]\nrisk = \"low\"\n";
    let config = parse_taxonomy_toml(toml);
    assert_eq!(config.profile, "mini");
    assert_eq!(config.fallback_dir, "Inbox");
    assert_eq!(config.categories.len(), 1);
    assert_eq!(config.categories[0].id, "a.b");
    assert_eq!(config.categories[0].keywords, vec!["alfa".to_string(), "beta".to_string()]);
    assert_eq!(config.categories[0].extensions, Some(vec!["pdf".to_string()]));
    assert_eq!(config.categories[0].risk, Some("low".to_string()));
}

#[test]
fn one_keyword_scores_one_half() {
    let file = dummy_file("boleto.pdf", "pdf", "application/pdf");
    let cat = suggest(&file);
    assert_eq!(cat.relative_dir, "Documentos/Financeiro/Boletos");
    assert_eq!(cat.confidence_bp, 5000);
}

#[test]
fn extension_list_excludes_extensionless_files() {
    let config = parse_taxonomy_toml(
        "[profile]\nname = \"p\"\nfallback_dir = \"Documentos/00_Inbox/Revisar\"\n\n[[category]]\nid = \"financeiro.boletos\"\nlabel = \"Boletos\"\ndir = \"Documentos/Financeiro/Boletos\"\nkeywords = [\"boleto\"]\nextensions = [\"pdf\"]\n",
    );
    let cat = suggest_category_config(&dummy_file("boleto", "", "application/octet-stream"), &config);
    assert_eq!(cat.id, "fallback.revisar");
    assert_eq!(cat.relative_dir, "Documentos/00_Inbox/Revisar");
    assert!(cat.matched_keywords.is_empty());
}

#[test]
fn unmatched_files_go_to_the_configured_fallback() {
    let config = parse_taxonomy_toml("[profile]\nname = \"p\"\nfallback_dir = \"Outros/Revisar\"\n");
    let cat = suggest_category_config(&dummy_file("notas.txt", "txt", "text/plain"), &config);
    assert_eq!(cat.id, "fallback.revisar");
    assert_eq!(cat.relative_dir, "Outros/Revisar");
    assert!(cat.needs_review);
}

#[test]
fn category_risk_defaults_to_low() {
    let config = parse_taxonomy_toml("[[category]]\nid = \"a.b\"\nkeywords = [\"x\"]\n");
    assert_eq!(config.categories.len(), 1);
    assert_eq!(config.categories[0].risk, Some("low".to_string()));
}
