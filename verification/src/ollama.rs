//! The local LLM advisor: endpoint selection and the decisions taken around
//! its answer (the request itself is made by the application).
use vstd::prelude::*;
use crate::metadata::FileMetadata;
use crate::taxonomy::TaxonomyCategory;
use crate::text::{append_lit, append_str, chars_of, string_of, trim, trim_exec};

verus! {

/// A category suggested by the advisor.
#[derive(Debug)]
pub struct AdvisorSuggestion {
    pub category_id: String,
    /// Confidence in basis points.
    pub confidence_bp: u32,
    pub reason: String,
}

/// The endpoint of the advisor: the remote URL when set and not blank, else
/// the local URL when set and not blank, else `localhost:11435` when a server
/// answers there (`localhost_up`), else the canonical server address.
pub fn choose_ollama_endpoint(remote: Option<String>, local: Option<String>, localhost_up: bool) -> (url: String)
    ensures
        url@ == (if remote is Some && trim(remote->0@).len() > 0 {
            remote->0@
        } else if local is Some && trim(local->0@).len() > 0 {
            local->0@
        } else if localhost_up {
            "http://localhost:11435"@
        } else {
            "http://10.0.0.2:11434"@
        }),
{
    if let Some(u) = remote {
        let t = trim_exec(&chars_of(u.as_str()));
        if t.len() > 0 {
            return u;
        }
    }
    if let Some(u) = local {
        let t = trim_exec(&chars_of(u.as_str()));
        if t.len() > 0 {
            return u;
        }
    }
    if localhost_up {
        string_of(&chars_of("http://localhost:11435"))
    } else {
        string_of(&chars_of("http://10.0.0.2:11434"))
    }
}

/// For a sensitive file the advisor is never consulted: it is classified
/// locally into the sensitive inbox with full confidence. `None` for other files.
pub fn sensitive_suggestion(file: &FileMetadata) -> (r: Option<AdvisorSuggestion>)
    ensures
        (file.metadata_only || file.protected_reason is Some) <==> r is Some,
        r matches Some(s) ==> s.category_id@ == "inbox.sensiveis"@ && s.confidence_bp == 10000
            && s.reason@ == "Classificado localmente como sensível para proteção: "@ + match file.protected_reason {
                Some(pr) => pr@,
                None => "Confidencial"@,
            },
{
    if file.metadata_only || file.protected_reason.is_some() {
        let mut reason = chars_of("Classificado localmente como sensível para proteção: ");
        match &file.protected_reason {
            Some(pr) => append_str(&mut reason, pr),
            None => append_lit(&mut reason, "Confidencial"),
        }
        Some(AdvisorSuggestion {
            category_id: string_of(&chars_of("inbox.sensiveis")),
            confidence_bp: 10000,
            reason: string_of(&reason),
        })
    } else {
        None
    }
}

/// The suggestion used when the advisor cannot be reached: the local taxonomy's.
pub fn offline_suggestion(local: TaxonomyCategory) -> (s: AdvisorSuggestion)
    ensures
        s.category_id == local.id,
        s.confidence_bp == local.confidence_bp,
        s.reason@ == local.reason@ + " (Fallback local offline)"@,
{
    let mut reason = chars_of(local.reason.as_str());
    append_lit(&mut reason, " (Fallback local offline)");
    AdvisorSuggestion { category_id: local.id, confidence_bp: local.confidence_bp, reason: string_of(&reason) }
}

/// The instructions given to the advisor: the categories it may choose and
/// the JSON it must answer with.
pub open spec fn system_prompt() -> Seq<char> {
    "Você é o Kryonix Home Brain Advisor.\nClassifique o arquivo com base no nome, extensão e MIME-type fornecidos.\nEscolha EXCLUSIVAMENTE uma das seguintes categorias ID de destino:\n- admin.identificacao (Identificação, RGs, CPF)\n- admin.contratos (Contratos e Acordos)\n- admin.comprovantes (Comprovantes Gerais)\n- admin.certificados (Certificados de Cursos, Diplomas)\n- financeiro.bancos (Pix, Extratos Bancários)\n- financeiro.boletos (Boletos e Contas a Pagar)\n- financeiro.faturas (Faturas de Cartão de Crédito)\n- financeiro.notas_fiscais (Notas Fiscais de Compra)\n- estudos.nixos (Estudos e Configuração NixOS)\n- estudos.rust (Estudos de Programação Rust)\n- estudos.python (Estudos de Python)\n- imagens.screenshots (Prints e Capturas de Tela)\n- videos.capturas (Gravações de Tela)\n- conhecimento.vault (Notas do Obsidian)\n\nRetorne estritamente um JSON no seguinte formato:\n{\n  \"category_id\": \"id.da.categoria\",\n  \"confidence\": 0.85,\n  \"reason\": \"Justificativa curta em português\"\n}\nNão insira nenhuma explicação adicional fora do JSON."@
}

/// The request sent to the advisor for a file: the instructions, then the
/// file's path, name, extension and MIME type.
pub open spec fn prompt_for(path: Seq<char>, name: Seq<char>, ext: Seq<char>, mime: Seq<char>) -> Seq<char> {
    system_prompt() + "\n\n"@ + "Arquivo:\n- Caminho: "@ + path + "\n- Nome: "@ + name + "\n- Extensão: "@ + ext
        + "\n- MIME: "@ + mime
}

/// The prompt sent to the advisor for `file`.
pub fn advisor_prompt(file: &FileMetadata) -> (p: String)
    ensures
        p@ == prompt_for(file.path@, file.filename@, file.extension@, file.mime@),
{
    let mut v = chars_of("Você é o Kryonix Home Brain Advisor.\nClassifique o arquivo com base no nome, extensão e MIME-type fornecidos.\nEscolha EXCLUSIVAMENTE uma das seguintes categorias ID de destino:\n- admin.identificacao (Identificação, RGs, CPF)\n- admin.contratos (Contratos e Acordos)\n- admin.comprovantes (Comprovantes Gerais)\n- admin.certificados (Certificados de Cursos, Diplomas)\n- financeiro.bancos (Pix, Extratos Bancários)\n- financeiro.boletos (Boletos e Contas a Pagar)\n- financeiro.faturas (Faturas de Cartão de Crédito)\n- financeiro.notas_fiscais (Notas Fiscais de Compra)\n- estudos.nixos (Estudos e Configuração NixOS)\n- estudos.rust (Estudos de Programação Rust)\n- estudos.python (Estudos de Python)\n- imagens.screenshots (Prints e Capturas de Tela)\n- videos.capturas (Gravações de Tela)\n- conhecimento.vault (Notas do Obsidian)\n\nRetorne estritamente um JSON no seguinte formato:\n{\n  \"category_id\": \"id.da.categoria\",\n  \"confidence\": 0.85,\n  \"reason\": \"Justificativa curta em português\"\n}\nNão insira nenhuma explicação adicional fora do JSON.");
    append_lit(&mut v, "\n\n");
    append_lit(&mut v, "Arquivo:\n- Caminho: ");
    append_str(&mut v, &file.path);
    append_lit(&mut v, "\n- Nome: ");
    append_str(&mut v, &file.filename);
    append_lit(&mut v, "\n- Extensão: ");
    append_str(&mut v, &file.extension);
    append_lit(&mut v, "\n- MIME: ");
    append_str(&mut v, &file.mime);
    string_of(&v)
}

/// The URL of the advisor's generation endpoint.
pub fn generate_url(endpoint: &str) -> (u: String)
    ensures
        u@ == endpoint@ + "/api/generate"@,
{
    let mut v = chars_of(endpoint);
    append_lit(&mut v, "/api/generate");
    string_of(&v)
}

/// The advisor's answer when it gave a well-formed one, else the local taxonomy's.
pub fn resolve_advice(answer: Option<AdvisorSuggestion>, local: TaxonomyCategory) -> (s: AdvisorSuggestion)
    ensures
        match answer {
            Some(a) => s == a,
            None => s.category_id == local.id && s.confidence_bp == local.confidence_bp
                && s.reason@ == local.reason@ + " (Fallback local offline)"@,
        },
{
    match answer {
        Some(a) => a,
        None => offline_suggestion(local),
    }
}

/// The category the diagnosis reports for an advisor's answer: the advisor's
/// category id, under review in a generic folder.
pub fn advisor_diagnosis(s: AdvisorSuggestion) -> (c: TaxonomyCategory)
    ensures
        c@ == (crate::taxonomy::SuggestionSpec {
            id: s.category_id@,
            label: s.category_id@,
            relative_dir: "Revisar"@,
            confidence_bp: s.confidence_bp as int,
            risk: "medium"@,
            needs_review: true,
            reason: s.reason@,
            rules_applied: seq!["ollama_advisor"@],
            matched_keywords: Seq::empty(),
            candidate_categories: None,
            already_organized: false,
        }),
{
    let mut rules: Vec<String> = Vec::new();
    rules.push(string_of(&chars_of("ollama_advisor")));
    let c = TaxonomyCategory {
        id: s.category_id.clone(),
        label: s.category_id,
        relative_dir: string_of(&chars_of("Revisar")),
        confidence_bp: s.confidence_bp,
        risk: string_of(&chars_of("medium")),
        needs_review: true,
        reason: s.reason,
        rules_applied: rules,
        matched_keywords: Vec::new(),
        candidate_categories: None,
        already_organized: false,
    };
    assert(crate::text::strs(c.rules_applied@) == seq!["ollama_advisor"@]);
    assert(crate::text::strs(c.matched_keywords@) == Seq::<Seq<char>>::empty());
    c
}

} // verus!
