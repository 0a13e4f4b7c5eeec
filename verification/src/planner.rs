//! The organization plan (dry-run): proposals for files and projects, their
//! classification, and the safety assessment that decides what the autopilot
//! may do with each.
use vstd::prelude::*;
use crate::decision::{ConfidenceBreakdown, DecisionClass};
use crate::metadata::{
    ContentProfile, ContextProfile, FileMetadata, FileStatus, is_hidden_path, is_protected_path,
    hidden, protected_reason,
};
use crate::paths::{
    extension_or_empty, extension_or_empty_exec, file_name_or_empty, file_name_or_empty_exec,
    join_path, join_path_exec, normals, normals_exec,
};
use crate::project::{
    ProjectCandidate, ProjectEvidence, detect_project_root, evidence, get_project_evidence,
    path_exists, split_markers, strong_of, weak_of,
};
use crate::taxonomy::{copy_strings, opt_str, opt_strs};
use crate::text::{
    append, append_lit, append_str, chars_of, contains_lit, dec, dec_chars, eq_lit, has_sub,
    lower_chars, lowercase, split_char, split_exec, starts, starts_lit, string_of, strs, vviews,
};

verus! {

/// A proposed action on one file or project.
#[derive(Debug)]
pub struct PlanProposal {
    pub action: String,
    pub risk: String,
    /// Confidence in basis points.
    pub confidence_bp: u32,
    pub old_path: String,
    pub source: String,
    pub new_dir: String,
    pub destination: String,
    pub reason: String,
    pub evidence: Vec<String>,
    pub needs_review: bool,
    pub protected: bool,
    pub new_filename: Option<String>,
    pub rules_applied: Option<Vec<String>>,
    pub naming_profile: Option<String>,
    pub category_id: Option<String>,
    pub category_label: Option<String>,
    pub category_dir: Option<String>,
    /// Taxonomy score in basis points.
    pub taxonomy_score_bp: Option<u32>,
    pub matched_keywords: Option<Vec<String>>,
    pub taxonomy_reason: Option<String>,
    pub taxonomy_profile: Option<String>,
    pub candidate_categories: Option<Vec<String>>,
    pub already_organized: bool,
    pub is_project: Option<bool>,
    pub project_markers: Option<Vec<String>>,
    pub project_file_count: Option<usize>,
    pub project_total_size: Option<u64>,
    pub decision_class: DecisionClass,
    pub auto_apply_allowed: bool,
    pub blocked_from_apply: bool,
    pub staging_only: bool,
    pub confidence_breakdown: Option<ConfidenceBreakdown>,
    pub content_profile: Option<ContentProfile>,
    pub context_profile: Option<ContextProfile>,
    pub project_evidence: Option<ProjectEvidence>,
    pub safety_flags: Vec<String>,
    pub rollback_hint: Option<String>,
}

/// Options of plan generation.
#[derive(Debug)]
pub struct PlanOptions {
    pub rename_suggestions: bool,
    pub taxonomy_suggestions: bool,
    pub taxonomy_config_path: Option<String>,
    pub include_large_files: bool,
    pub safe_only: bool,
    pub review_only: bool,
    pub projects_only: bool,
    pub limit: Option<usize>,
    pub ollama: bool,
    pub full_home: bool,
    pub content_aware: bool,
    pub context_aware: bool,
    /// Minimum confidence asked for, in basis points (informative only).
    pub min_confidence_bp: Option<u32>,
}

impl Default for PlanOptions {
    /// No suggestion, no filter, no limit: every option off.
    fn default() -> (o: Self)
        ensures
            !o.rename_suggestions && !o.taxonomy_suggestions && o.taxonomy_config_path is None,
            !o.include_large_files && !o.safe_only && !o.review_only && !o.projects_only,
            o.limit is None && !o.ollama && !o.full_home && !o.content_aware && !o.context_aware,
            o.min_confidence_bp is None,
    {
        PlanOptions {
            rename_suggestions: false,
            taxonomy_suggestions: false,
            taxonomy_config_path: None,
            include_large_files: false,
            safe_only: false,
            review_only: false,
            projects_only: false,
            limit: None,
            ollama: false,
            full_home: false,
            content_aware: false,
            context_aware: false,
            min_confidence_bp: None,
        }
    }
}

/// A complete organization plan.
#[derive(Debug)]
pub struct Plan {
    pub run_id: String,
    pub mode: String,
    pub home_dir: String,
    pub files_seen: usize,
    pub projects_seen: usize,
    pub proposals: Vec<PlanProposal>,
    pub protected_files: Vec<FileMetadata>,
    pub content_aware: bool,
    pub context_aware: bool,
    pub full_home: bool,
    pub schema_version: String,
}

// ---------------------------------------------------------------------------
// Classification by MIME type and extension
// ---------------------------------------------------------------------------

/// Destination directory, reason and confidence (hundredths) of a classification.
pub struct FileClass {
    pub dir: Seq<char>,
    pub reason: Seq<char>,
    pub conf: int,
}

pub open spec fn fc(dir: Seq<char>, reason: Seq<char>, conf: int) -> FileClass {
    FileClass { dir, reason, conf }
}

pub open spec fn archive_mime(m: Seq<char>) -> bool {
    m == "application/zip"@ || m == "application/x-tar"@ || m == "application/gzip"@ || m
        == "application/x-7z-compressed"@ || m == "application/x-rar-compressed"@ || m
        == "application/x-bzip2"@ || m == "application/x-xz"@ || m == "application/zstd"@
}

/// Classification by extension alone.
pub open spec fn ext_class(e: Seq<char>) -> FileClass {
    if e == "pdf"@ {
        fc("Documentos/Revisar"@, "PDF por extensão"@, 75)
    } else if e == "doc"@ || e == "docx"@ || e == "odt"@ {
        fc("Documentos/Revisar"@, "Documento por extensão"@, 75)
    } else if e == "xls"@ || e == "xlsx"@ || e == "ods"@ {
        fc("Documentos/Revisar"@, "Planilha por extensão"@, 75)
    } else if e == "ppt"@ || e == "pptx"@ || e == "odp"@ {
        fc("Documentos/Revisar"@, "Apresentação por extensão"@, 75)
    } else if e == "jpg"@ || e == "jpeg"@ || e == "png"@ || e == "gif"@ || e == "webp"@ || e == "svg"@
        || e == "bmp"@ || e == "tiff"@ || e == "ico"@ || e == "heic"@ {
        fc("Midia/Imagens"@, "Imagem por extensão"@, 80)
    } else if e == "mp4"@ || e == "mkv"@ || e == "avi"@ || e == "mov"@ || e == "wmv"@ || e == "flv"@
        || e == "webm"@ {
        fc("Midia/Videos"@, "Vídeo por extensão"@, 80)
    } else if e == "mp3"@ || e == "flac"@ || e == "ogg"@ || e == "wav"@ || e == "m4a"@ || e == "aac"@
        || e == "opus"@ || e == "wma"@ {
        fc("Midia/Audio"@, "Áudio por extensão"@, 80)
    } else if e == "zip"@ || e == "tar"@ || e == "gz"@ || e == "bz2"@ || e == "xz"@ || e == "7z"@
        || e == "rar"@ || e == "zst"@ {
        fc("Arquivos/Compactados"@, "Compactado por extensão"@, 80)
    } else if e == "iso"@ || e == "img"@ {
        fc("Arquivos/ISOs"@, "ISO por extensão"@, 85)
    } else if e == "appimage"@ || e == "run"@ || e == "bin"@ {
        fc("Arquivos/Executaveis"@, "Executável por extensão"@, 70)
    } else {
        fc("Arquivos/Revisar"@, "Tipo desconhecido; requer revisão"@, 40)
    }
}

/// Classification by MIME type, then by extension.
pub open spec fn mime_class(m: Seq<char>, e: Seq<char>) -> FileClass {
    if m == "application/pdf"@ {
        fc("Documentos/Revisar"@, "PDF detectado por MIME"@, 85)
    } else if starts(m, "text/"@) && (e == "md"@ || e == "txt"@ || e == "rst"@ || e == "org"@) {
        fc("Documentos/Revisar"@, "Documento de texto detectado"@, 80)
    } else if m == "application/vnd.openxmlformats-officedocument.wordprocessingml.document"@ || m
        == "application/msword"@ {
        fc("Documentos/Revisar"@, "Documento Word detectado"@, 85)
    } else if m == "application/vnd.openxmlformats-officedocument.spreadsheetml.sheet"@ || m
        == "application/vnd.ms-excel"@ {
        fc("Documentos/Revisar"@, "Planilha detectada"@, 85)
    } else if starts(m, "image/"@) {
        fc("Midia/Imagens"@, "Imagem detectada por MIME"@, 90)
    } else if starts(m, "video/"@) {
        fc("Midia/Videos"@, "Vídeo detectado por MIME"@, 90)
    } else if starts(m, "audio/"@) {
        fc("Midia/Audio"@, "Áudio detectado por MIME"@, 90)
    } else if archive_mime(m) {
        fc("Arquivos/Compactados"@, "Arquivo compactado detectado"@, 88)
    } else if m == "application/x-iso9660-image"@ || e == "iso"@ || e == "img"@ {
        fc("Arquivos/ISOs"@, "Imagem de disco detectada"@, 92)
    } else if m == "application/x-executable"@ || m == "application/x-sharedlib"@ || e == "appimage"@
        || e == "run"@ || e == "bin"@ {
        fc("Arquivos/Executaveis"@, "Executável detectado"@, 80)
    } else {
        ext_class(e)
    }
}

/// Risk of a classification by its confidence (hundredths).
pub open spec fn risk_of(conf: int) -> Seq<char> {
    if conf >= 85 { "low"@ } else if conf >= 65 { "medium"@ } else { "high"@ }
}

/// A file the classifier never proposes to move.
pub open spec fn classify_blocked(f: FileMetadata) -> bool {
    f.metadata_only || f.protected_reason is Some || protected_reason(f.path@) is Some || (f.is_hidden
        && !has_sub(lowercase(f.path@), "/.obsidian/"@))
}

/// The evidence line describing a file's type.
pub open spec fn type_evidence(ext: Seq<char>, mime: Seq<char>) -> Seq<char> {
    "Extensão: "@ + ext + " | MIME: "@ + mime
}

/// The fields of a fresh proposal that hold their defaults.
pub open spec fn fresh_defaults(p: PlanProposal) -> bool {
    &&& p.category_label is None
    &&& p.category_dir is None
    &&& p.taxonomy_reason is None
    &&& p.already_organized == false
    &&& common_defaults(p)
    &&& no_project_fields(p)
}

pub open spec fn no_project_fields(p: PlanProposal) -> bool {
    &&& p.project_markers is None
    &&& p.project_file_count is None
    &&& p.project_total_size is None
}

/// The fields that every proposal holds at their defaults before its assessment.
pub open spec fn common_defaults(p: PlanProposal) -> bool {
    &&& !p.protected
    &&& p.new_filename is None
    &&& p.naming_profile is None
    &&& p.decision_class == DecisionClass::NeedsHumanReview
    &&& !p.auto_apply_allowed
    &&& !p.blocked_from_apply
    &&& !p.staging_only
    &&& p.confidence_breakdown is None
    &&& p.content_profile is None
    &&& p.context_profile is None
    &&& p.project_evidence is None
    &&& p.safety_flags@.len() == 0
    &&& p.rollback_hint is None
}

fn archive_mime_exec(m: &Vec<char>) -> (b: bool)
    ensures
        b == archive_mime(m@),
{
    eq_lit(m, "application/zip") || eq_lit(m, "application/x-tar") || eq_lit(m, "application/gzip")
        || eq_lit(m, "application/x-7z-compressed") || eq_lit(m, "application/x-rar-compressed")
        || eq_lit(m, "application/x-bzip2") || eq_lit(m, "application/x-xz") || eq_lit(m, "application/zstd")
}

fn ext_class_exec(e: &Vec<char>) -> (r: (&'static str, &'static str, u32))
    ensures
        fc(r.0@, r.1@, r.2 as int) == ext_class(e@),
{
    if eq_lit(e, "pdf") {
        ("Documentos/Revisar", "PDF por extensão", 75)
    } else if eq_lit(e, "doc") || eq_lit(e, "docx") || eq_lit(e, "odt") {
        ("Documentos/Revisar", "Documento por extensão", 75)
    } else if eq_lit(e, "xls") || eq_lit(e, "xlsx") || eq_lit(e, "ods") {
        ("Documentos/Revisar", "Planilha por extensão", 75)
    } else if eq_lit(e, "ppt") || eq_lit(e, "pptx") || eq_lit(e, "odp") {
        ("Documentos/Revisar", "Apresentação por extensão", 75)
    } else if eq_lit(e, "jpg") || eq_lit(e, "jpeg") || eq_lit(e, "png") || eq_lit(e, "gif") || eq_lit(e, "webp")
        || eq_lit(e, "svg") || eq_lit(e, "bmp") || eq_lit(e, "tiff") || eq_lit(e, "ico") || eq_lit(e, "heic") {
        ("Midia/Imagens", "Imagem por extensão", 80)
    } else if eq_lit(e, "mp4") || eq_lit(e, "mkv") || eq_lit(e, "avi") || eq_lit(e, "mov") || eq_lit(e, "wmv")
        || eq_lit(e, "flv") || eq_lit(e, "webm") {
        ("Midia/Videos", "Vídeo por extensão", 80)
    } else if eq_lit(e, "mp3") || eq_lit(e, "flac") || eq_lit(e, "ogg") || eq_lit(e, "wav") || eq_lit(e, "m4a")
        || eq_lit(e, "aac") || eq_lit(e, "opus") || eq_lit(e, "wma") {
        ("Midia/Audio", "Áudio por extensão", 80)
    } else if eq_lit(e, "zip") || eq_lit(e, "tar") || eq_lit(e, "gz") || eq_lit(e, "bz2") || eq_lit(e, "xz")
        || eq_lit(e, "7z") || eq_lit(e, "rar") || eq_lit(e, "zst") {
        ("Arquivos/Compactados", "Compactado por extensão", 80)
    } else if eq_lit(e, "iso") || eq_lit(e, "img") {
        ("Arquivos/ISOs", "ISO por extensão", 85)
    } else if eq_lit(e, "appimage") || eq_lit(e, "run") || eq_lit(e, "bin") {
        ("Arquivos/Executaveis", "Executável por extensão", 70)
    } else {
        ("Arquivos/Revisar", "Tipo desconhecido; requer revisão", 40)
    }
}

fn mime_class_exec(m: &Vec<char>, e: &Vec<char>) -> (r: (&'static str, &'static str, u32))
    ensures
        fc(r.0@, r.1@, r.2 as int) == mime_class(m@, e@),
{
    if eq_lit(m, "application/pdf") {
        ("Documentos/Revisar", "PDF detectado por MIME", 85)
    } else if starts_lit(m, "text/") && (eq_lit(e, "md") || eq_lit(e, "txt") || eq_lit(e, "rst") || eq_lit(e, "org")) {
        ("Documentos/Revisar", "Documento de texto detectado", 80)
    } else if eq_lit(m, "application/vnd.openxmlformats-officedocument.wordprocessingml.document")
        || eq_lit(m, "application/msword") {
        ("Documentos/Revisar", "Documento Word detectado", 85)
    } else if eq_lit(m, "application/vnd.openxmlformats-officedocument.spreadsheetml.sheet")
        || eq_lit(m, "application/vnd.ms-excel") {
        ("Documentos/Revisar", "Planilha detectada", 85)
    } else if starts_lit(m, "image/") {
        ("Midia/Imagens", "Imagem detectada por MIME", 90)
    } else if starts_lit(m, "video/") {
        ("Midia/Videos", "Vídeo detectado por MIME", 90)
    } else if starts_lit(m, "audio/") {
        ("Midia/Audio", "Áudio detectado por MIME", 90)
    } else if archive_mime_exec(m) {
        ("Arquivos/Compactados", "Arquivo compactado detectado", 88)
    } else if eq_lit(m, "application/x-iso9660-image") || eq_lit(e, "iso") || eq_lit(e, "img") {
        ("Arquivos/ISOs", "Imagem de disco detectada", 92)
    } else if eq_lit(m, "application/x-executable") || eq_lit(m, "application/x-sharedlib")
        || eq_lit(e, "appimage") || eq_lit(e, "run") || eq_lit(e, "bin") {
        ("Arquivos/Executaveis", "Executável detectado", 80)
    } else {
        ext_class_exec(e)
    }
}

/// The evidence line describing a file's type.
pub fn type_evidence_exec(ext: &String, mime: &String) -> (r: String)
    ensures
        r@ == type_evidence(ext@, mime@),
{
    let mut v = chars_of("Extensão: ");
    append_str(&mut v, ext);
    append_lit(&mut v, " | MIME: ");
    append_str(&mut v, mime);
    string_of(&v)
}

/// The proposal the MIME classification makes for `f` (all but whether the
/// file is already in place).
pub open spec fn classify_base(p: PlanProposal, f: FileMetadata) -> bool {
    let c = mime_class(f.mime@, f.extension@);
    &&& p.action@ == "move"@
    &&& p.risk@ == risk_of(c.conf)
    &&& p.confidence_bp == c.conf * 100
    &&& p.old_path@ == f.path@
    &&& p.source@ == f.path@
    &&& p.new_dir@ == c.dir
    &&& p.destination@.len() == 0
    &&& p.reason@ == c.reason
    &&& strs(p.evidence@) == seq![type_evidence(f.extension@, f.mime@)]
    &&& p.needs_review == (c.conf < 70 || has_sub(f.path@, "Obsidian Vault"@))
    &&& p.rules_applied is None
    &&& p.category_id is None
    &&& p.category_label is None
    &&& p.category_dir is None
    &&& p.taxonomy_score_bp is None
    &&& p.matched_keywords is None
    &&& p.taxonomy_reason is None
    &&& p.taxonomy_profile is None
    &&& p.candidate_categories is None
    &&& p.is_project is None
    &&& common_defaults(p)
    &&& no_project_fields(p)
}

/// The proposal that moves `f` to the category `cat` of taxonomy profile
/// `profile` (all but whether the file is already in place).
pub open spec fn taxonomy_base(p: PlanProposal, f: FileMetadata, cat: crate::taxonomy::SuggestionSpec, profile: Seq<char>) -> bool {
    &&& p.action@ == "move"@
    &&& p.risk@ == cat.risk
    &&& p.confidence_bp == cat.confidence_bp
    &&& p.old_path@ == f.path@
    &&& p.source@ == f.path@
    &&& p.new_dir@ == cat.relative_dir
    &&& p.destination@.len() == 0
    &&& p.reason@ == cat.reason
    &&& strs(p.evidence@) == seq![type_evidence(f.extension@, f.mime@)]
    &&& p.needs_review == (cat.needs_review || has_sub(f.path@, "Obsidian Vault"@))
    &&& opt_strs(p.rules_applied) == Some(cat.rules_applied)
    &&& opt_str(p.category_id) == Some(cat.id)
    &&& opt_str(p.category_label) == Some(cat.label)
    &&& opt_str(p.category_dir) == Some(cat.relative_dir)
    &&& (p.taxonomy_score_bp matches Some(x) && x == cat.confidence_bp)
    &&& opt_strs(p.matched_keywords) == Some(cat.matched_keywords)
    &&& opt_str(p.taxonomy_reason) == Some(cat.reason)
    &&& opt_str(p.taxonomy_profile) == Some(profile)
    &&& opt_strs(p.candidate_categories) == cat.candidate_categories
    &&& p.is_project == Some(false)
    &&& common_defaults(p)
    &&& no_project_fields(p)
}

/// Classifies a file by MIME type and extension and proposes its destination;
/// `None` for protected, metadata-only and hidden files (hidden files inside
/// an Obsidian vault excepted).
pub fn classify_file(file: &FileMetadata) -> (r: Option<PlanProposal>)
    ensures
        r is None <==> classify_blocked(*file),
        r matches Some(p) ==> classify_base(p, *file) && !p.already_organized,
{
    if file.metadata_only || file.protected_reason.is_some() {
        return None;
    }
    if is_protected_path(file.path.as_str()).is_some() {
        return None;
    }
    let pl = lower_chars(file.path.as_str());
    if file.is_hidden && !contains_lit(&pl, "/.obsidian/") {
        return None;
    }
    let m = chars_of(file.mime.as_str());
    let e = chars_of(file.extension.as_str());
    let (dir, reason, conf) = mime_class_exec(&m, &e);
    let risk = if conf >= 85 { "low" } else if conf >= 65 { "medium" } else { "high" };
    let mut evidence: Vec<String> = Vec::new();
    evidence.push(type_evidence_exec(&file.extension, &file.mime));
    let pc = chars_of(file.path.as_str());
    let needs_review = conf < 70 || contains_lit(&pc, "Obsidian Vault");
    let p = PlanProposal {
        action: string_of(&chars_of("move")),
        risk: string_of(&chars_of(risk)),
        confidence_bp: conf * 100,
        old_path: file.path.clone(),
        source: file.path.clone(),
        new_dir: string_of(&chars_of(dir)),
        destination: String::new(),
        reason: string_of(&chars_of(reason)),
        evidence,
        needs_review,
        protected: false,
        new_filename: None,
        rules_applied: None,
        naming_profile: None,
        category_id: None,
        category_label: None,
        category_dir: None,
        taxonomy_score_bp: None,
        matched_keywords: None,
        taxonomy_reason: None,
        taxonomy_profile: None,
        candidate_categories: None,
        already_organized: false,
        is_project: None,
        project_markers: None,
        project_file_count: None,
        project_total_size: None,
        decision_class: DecisionClass::NeedsHumanReview,
        auto_apply_allowed: false,
        blocked_from_apply: false,
        staging_only: false,
        confidence_breakdown: None,
        content_profile: None,
        context_profile: None,
        project_evidence: None,
        safety_flags: Vec::new(),
        rollback_hint: None,
    };
    assert(strs(p.evidence@) == seq![type_evidence(file.extension@, file.mime@)]);
    Some(p)
}

// ---------------------------------------------------------------------------
// Masking of protected paths
// ---------------------------------------------------------------------------

pub open spec fn mask_dir(n: Seq<char>) -> bool {
    n == ".ssh"@ || n == ".gnupg"@ || n == ".config"@ || n == ".local"@ || n == ".cache"@
}

/// The first name component (lowercased) that is a sensitive root, if any.
pub open spec fn first_mask_dir(ns: Seq<Seq<char>>) -> Option<Seq<char>>
    decreases ns.len(),
{
    if ns.len() == 0 {
        None
    } else if mask_dir(lowercase(ns[0])) {
        Some(lowercase(ns[0]))
    } else {
        first_mask_dir(ns.drop_first())
    }
}

/// The masked form of a protected path for reports.
pub open spec fn masked(path: Seq<char>, reason: Seq<char>) -> Seq<char> {
    match first_mask_dir(normals(path)) {
        Some(n) => "~/"@ + n + "/[PROTECTED: "@ + reason + "]"@,
        None => "[PROTECTED: "@ + reason + "]"@,
    }
}

proof fn lemma_first_mask_skip(ns: Seq<Seq<char>>, i: int)
    requires
        0 <= i <= ns.len(),
        forall|j: int| 0 <= j < i ==> !mask_dir(lowercase(#[trigger] ns[j])),
    ensures
        first_mask_dir(ns) == first_mask_dir(ns.subrange(i, ns.len() as int)),
    decreases i,
{
    if i > 0 {
        assert(ns.drop_first() == ns.subrange(1, ns.len() as int));
        assert(!mask_dir(lowercase(ns[0])));
        lemma_first_mask_skip(ns.drop_first(), i - 1);
        assert(ns.drop_first().subrange(i - 1, ns.drop_first().len() as int) == ns.subrange(i, ns.len() as int));
    } else {
        assert(ns.subrange(0, ns.len() as int) == ns);
    }
}

/// Masks a protected path for reports: `~/<root>/[PROTECTED: reason]` when
/// it lies under a sensitive root (`.ssh`, `.gnupg`, `.config`, `.local`,
/// `.cache`), else `[PROTECTED: reason]`.
pub fn mask_protected_path(path: &str, reason: &str) -> (r: String)
    ensures
        r@ == masked(path@, reason@),
{
    let p = chars_of(path);
    let ns = normals_exec(&p);
    let mut i: usize = 0;
    while i < ns.len()
        invariant
            i <= ns.len(),
            vviews(ns@) == normals(path@),
            forall|j: int| 0 <= j < i ==> !mask_dir(lowercase(#[trigger] normals(path@)[j])),
        decreases ns.len() - i,
    {
        let n = lower_chars(string_of(&ns[i]).as_str());
        assert(ns@[i as int]@ == normals(path@)[i as int]);
        if eq_lit(&n, ".ssh") || eq_lit(&n, ".gnupg") || eq_lit(&n, ".config") || eq_lit(&n, ".local")
            || eq_lit(&n, ".cache") {
            proof {
                lemma_first_mask_skip(normals(path@), i as int);
                let t = normals(path@).subrange(i as int, normals(path@).len() as int);
                assert(t[0] == normals(path@)[i as int]);
            }
            let mut out = chars_of("~/");
            append(&mut out, &n);
            append_lit(&mut out, "/[PROTECTED: ");
            append_lit(&mut out, reason);
            append_lit(&mut out, "]");
            return string_of(&out);
        }
        i += 1;
    }
    proof {
        lemma_first_mask_skip(normals(path@), ns.len() as int);
    }
    let mut out = chars_of("[PROTECTED: ");
    append_lit(&mut out, reason);
    append_lit(&mut out, "]");
    string_of(&out)
}


// ---------------------------------------------------------------------------
// Safety assessment of a proposal
// ---------------------------------------------------------------------------

/// The value behind an optional reference.
pub open spec fn deref_opt<T>(o: Option<&T>) -> Option<T> {
    match o {
        Some(x) => Some(*x),
        None => None,
    }
}

/// Where a proposal moves its file: `home/new_dir/<new name or current name>`.
pub open spec fn destination_of(home: Seq<char>, new_dir: Seq<char>, new_filename: Option<Seq<char>>, old_path: Seq<char>) -> Seq<char> {
    join_path(join_path(home, new_dir), match new_filename {
        Some(n) => n,
        None => file_name_or_empty(old_path),
    })
}

pub open spec fn script_ext(e: Seq<char>) -> bool {
    e == "sh"@ || e == "ps1"@ || e == "exe"@ || e == "msi"@ || e == "bat"@ || e == "cmd"@ || e == "bin"@
        || e == "run"@
}

/// The destination is a review or conflict area, or the category is uncertain.
pub open spec fn uncertain_destination(new_dir: Seq<char>, category_id: Option<Seq<char>>) -> bool {
    let l = lowercase(new_dir);
    has_sub(l, "revisar"@) || has_sub(l, "baixa_confianca"@) || has_sub(l, "conflitos"@) || category_id
        == Some("incerto"@)
}

/// Filename score (hundredths): 75 when the last part of the category id occurs in the name.
pub open spec fn filename_score(old_path: Seq<char>, category_id: Option<Seq<char>>) -> int {
    match category_id {
        Some(cid) => if has_sub(lowercase(file_name_or_empty(old_path)), split_char(cid, '.').last()) { 75 } else { 50 },
        None => 50,
    }
}

pub open spec fn media_mime(m: Seq<char>) -> bool {
    starts(m, "image"@) || starts(m, "video"@) || starts(m, "audio"@)
}

/// Content score (hundredths) of a content profile.
pub open spec fn content_score(c: Option<ContentProfile>) -> int {
    match c {
        Some(p) => (if p.summary matches Some(s) && has_sub(lowercase(s@), "import"@) { 20int } else { 0int })
            + (if p.keywords@.len() > 0 { 30int } else { 0int }),
        None => 0,
    }
}

/// The compound confidence (basis points): 40% the proposal's own confidence,
/// 15% filename, 15% MIME, 15% folder context, 10% content, 5% project markers.
pub open spec fn compound(conf_bp: int, fname: int, mime: int, folder: int, content: int, proj: int) -> int {
    let raw = (conf_bp * 40) / 100 + fname * 15 + mime * 15 + folder * 15 + content * 10 + proj * 5;
    if raw > 10000 { 10000 } else { raw }
}

/// The decision for a proposal from its safety facts.
pub open spec fn decide(
    protected: bool,
    is_project: bool,
    is_vault: bool,
    script: bool,
    overwrite: bool,
    risk: Seq<char>,
    uncertain: bool,
    final_bp: int,
    sources: int,
) -> DecisionClass {
    if protected || is_project || is_vault || script || overwrite {
        DecisionClass::BlockedUnsafe
    } else if risk == "high"@ || uncertain {
        DecisionClass::NeedsHumanReview
    } else if risk == "low"@ && final_bp >= 9500 && sources >= 2 && !uncertain {
        DecisionClass::AutoMoveCertified
    } else {
        DecisionClass::NeedsHumanReview
    }
}

/// Safety flags, in order.
pub open spec fn flags(protected: bool, hidden_: bool, script: bool, overwrite: bool) -> Seq<Seq<char>> {
    let a: Seq<Seq<char>> = if protected { seq!["protected_path"@] } else { Seq::empty() };
    let b = if hidden_ { a.push("hidden_file"@) } else { a };
    let c = if script { b.push("script_or_executable"@) } else { b };
    if overwrite { c.push("overwrite_target_exists"@) } else { c }
}

pub open spec fn b2i(b: bool) -> int {
    if b { 1 } else { 0 }
}

/// Everything the assessment derives, given the answers of the file system.
pub struct AssessSpec {
    pub destination: Seq<char>,
    pub is_project: bool,
    pub is_vault: bool,
    pub protected: bool,
    pub script: bool,
    pub uncertain: bool,
    pub fname: int,
    pub mime: int,
    pub content: int,
    pub proj: int,
    pub final_bp: int,
    pub sources: int,
    pub decision: DecisionClass,
    pub flags: Seq<Seq<char>>,
}

/// The assessment of `p` with the given file/project context, where the
/// destination exists iff `dest_exists` and the project-root detection of a
/// directory answered `detected`.
pub open spec fn assess(
    p: PlanProposal,
    file: Option<FileMetadata>,
    project: Option<ProjectCandidate>,
    home: Seq<char>,
    dest_exists: bool,
    detected: Option<Seq<Seq<char>>>,
) -> AssessSpec {
    let dest = destination_of(home, p.new_dir@, opt_str(p.new_filename), p.old_path@);
    let prot = protected_reason(p.old_path@) is Some;
    let hid = hidden(p.old_path@);
    let script = script_ext(lowercase(extension_or_empty(p.old_path@)));
    let (is_project, is_vault, proj) = assess_project(p.old_path@, file, project, detected);
    let content = match file {
        Some(f) => content_score(f.content),
        None => 0,
    };
    let mime = match file {
        Some(f) => if media_mime(f.mime@) { 80int } else { 50int },
        None => 50,
    };
    let fname = filename_score(p.old_path@, opt_str(p.category_id));
    let final_bp = compound(p.confidence_bp as int, fname, mime, 0, content, proj);
    let sources = b2i(fname > 50) + b2i(mime > 50) + b2i(content > 0) + b2i(proj > 0);
    let unc = uncertain_destination(p.new_dir@, opt_str(p.category_id));
    AssessSpec {
        destination: dest,
        is_project,
        is_vault,
        protected: prot,
        script,
        uncertain: unc,
        fname,
        mime,
        content,
        proj,
        final_bp,
        sources,
        decision: decide(prot, is_project, is_vault, script, dest_exists, p.risk@, unc, final_bp, sources),
        flags: flags(prot, hid, script, dest_exists),
    }
}

/// The fields the assessment leaves as they were.
pub open spec fn keeps_plan_fields(a: PlanProposal, b: PlanProposal) -> bool {
    &&& a.action == b.action
    &&& a.risk == b.risk
    &&& a.old_path == b.old_path
    &&& a.new_dir == b.new_dir
    &&& a.reason == b.reason
    &&& a.needs_review == b.needs_review
    &&& a.protected == b.protected
    &&& a.new_filename == b.new_filename
    &&& a.rules_applied == b.rules_applied
    &&& a.naming_profile == b.naming_profile
    &&& a.category_id == b.category_id
    &&& a.category_label == b.category_label
    &&& a.category_dir == b.category_dir
    &&& a.taxonomy_score_bp == b.taxonomy_score_bp
    &&& a.matched_keywords == b.matched_keywords
    &&& a.taxonomy_reason == b.taxonomy_reason
    &&& a.taxonomy_profile == b.taxonomy_profile
    &&& a.candidate_categories == b.candidate_categories
    &&& a.already_organized == b.already_organized
    &&& a.is_project == b.is_project
    &&& a.project_markers == b.project_markers
    &&& a.project_file_count == b.project_file_count
    &&& a.project_total_size == b.project_total_size
}

pub open spec fn content_view(c: Option<ContentProfile>) -> Option<(Option<Seq<char>>, Seq<Seq<char>>, Option<Seq<char>>)> {
    match c {
        Some(p) => Some((opt_str(p.summary), strs(p.keywords@), opt_str(p.language))),
        None => None,
    }
}

pub open spec fn context_view(c: Option<ContextProfile>) -> Option<(bool, Seq<Seq<char>>)> {
    match c {
        Some(p) => Some((p.is_inside_codebase, strs(p.sibling_categories@))),
        None => None,
    }
}

/// The `mv` command that undoes the move.
pub open spec fn rollback_of(dest: Seq<char>, source: Seq<char>) -> Seq<char> {
    "mv \""@ + dest + "\" \""@ + source + "\""@
}

/// The result of enriching `old` into `new` with assessment `a`.
pub open spec fn enriched(
    old: PlanProposal,
    new: PlanProposal,
    file: Option<FileMetadata>,
    project: Option<ProjectCandidate>,
    a: AssessSpec,
    detected: Option<Seq<Seq<char>>>,
) -> bool {
    &&& keeps_plan_fields(old, new)
    &&& new.source@ == old.old_path@
    &&& new.destination@ == a.destination
    &&& new.confidence_bp as int == a.final_bp
    &&& new.confidence_breakdown == Some(ConfidenceBreakdown {
        filename_score: a.fname as u32,
        mime_score: a.mime as u32,
        folder_context_score: 0,
        content_score: a.content as u32,
        project_marker_score: a.proj as u32,
        final_score: a.final_bp as u32,
    })
    &&& new.decision_class == a.decision
    &&& new.auto_apply_allowed == (a.decision == DecisionClass::AutoMoveCertified)
    &&& new.blocked_from_apply == (a.decision == DecisionClass::BlockedUnsafe)
    &&& !new.staging_only
    &&& content_view(new.content_profile) == match file {
        Some(f) => content_view(f.content),
        None => None,
    }
    &&& context_view(new.context_profile) == match file {
        Some(f) => context_view(f.context),
        None => None,
    }
    &&& match project {
        Some(pc) => new.project_evidence matches Some(e) && e@ == (crate::project::EvidenceSpec {
            is_project: true,
            confidence_pct: 95,
            strong_markers: strong_of(strs(pc.markers@)),
            weak_markers: weak_of(strs(pc.markers@)),
            project_kind: pc.category_id@,
            warnings: strs(pc.warnings@),
            reason: pc.reason@,
        }),
        None => match (file, detected) {
            (Some(f), Some(m)) => if f.is_dir {
                new.project_evidence matches Some(e) && e@ == evidence(file_name_or_empty(old.old_path@), m)
            } else {
                new.project_evidence is None
            },
            _ => new.project_evidence is None,
        },
    }
    &&& strs(new.safety_flags@) == a.flags
    &&& new.rollback_hint matches Some(h) && h@ == rollback_of(a.destination, old.old_path@)
    &&& strs(new.evidence@) == strs(old.evidence@).push("Multi-source components matched: "@ + dec(a.sources as nat))
}

pub fn copy_opt_string(o: &Option<String>) -> (r: Option<String>)
    ensures
        r == *o,
{
    match o {
        Some(s) => Some(s.clone()),
        None => None,
    }
}

fn copy_content(c: &Option<ContentProfile>) -> (r: Option<ContentProfile>)
    ensures
        content_view(r) == content_view(*c),
{
    match c {
        Some(p) => Some(ContentProfile {
            summary: copy_opt_string(&p.summary),
            keywords: copy_strings(&p.keywords),
            language: copy_opt_string(&p.language),
        }),
        None => None,
    }
}

fn copy_context(c: &Option<ContextProfile>) -> (r: Option<ContextProfile>)
    ensures
        context_view(r) == context_view(*c),
{
    match c {
        Some(p) => Some(ContextProfile {
            is_inside_codebase: p.is_inside_codebase,
            sibling_categories: copy_strings(&p.sibling_categories),
        }),
        None => None,
    }
}

/// The destination a proposal moves its file to.
pub fn destination_exec(home: &str, new_dir: &String, new_filename: &Option<String>, old_path: &String) -> (r: Vec<char>)
    ensures
        r@ == destination_of(home@, new_dir@, opt_str(*new_filename), old_path@),
{
    let hc = chars_of(home);
    let nd = chars_of(new_dir.as_str());
    let base = join_path_exec(&hc, &nd);
    let name = match new_filename {
        Some(n) => chars_of(n.as_str()),
        None => {
            let op = chars_of(old_path.as_str());
            file_name_or_empty_exec(&op)
        },
    };
    join_path_exec(&base, &name)
}

fn flags_exec(old_path: &String, dest_exists: bool) -> (r: (Vec<String>, bool, bool))
    ensures
        r.1 == (protected_reason(old_path@) is Some),
        r.2 == script_ext(lowercase(extension_or_empty(old_path@))),
        strs(r.0@) == flags(r.1, hidden(old_path@), r.2, dest_exists),
{
    let op = chars_of(old_path.as_str());
    let is_protected = is_protected_path(old_path.as_str()).is_some();
    let is_hidden = is_hidden_path(old_path.as_str());
    let ext0 = extension_or_empty_exec(&op);
    let ext_lower = lower_chars(string_of(&ext0).as_str());
    let is_script = eq_lit(&ext_lower, "sh") || eq_lit(&ext_lower, "ps1") || eq_lit(&ext_lower, "exe")
        || eq_lit(&ext_lower, "msi") || eq_lit(&ext_lower, "bat") || eq_lit(&ext_lower, "cmd")
        || eq_lit(&ext_lower, "bin") || eq_lit(&ext_lower, "run");
    let mut safety_flags: Vec<String> = Vec::new();
    if is_protected {
        safety_flags.push(string_of(&chars_of("protected_path")));
    }
    if is_hidden {
        safety_flags.push(string_of(&chars_of("hidden_file")));
    }
    if is_script {
        safety_flags.push(string_of(&chars_of("script_or_executable")));
    }
    if dest_exists {
        safety_flags.push(string_of(&chars_of("overwrite_target_exists")));
    }
    (safety_flags, is_protected, is_script)
}

fn file_part(file_meta: Option<&FileMetadata>) -> (r: (u32, u32, Option<ContentProfile>, Option<ContextProfile>))
    ensures
        r.0 as int == (match deref_opt(file_meta) { Some(f) => content_score(f.content), None => 0 }),
        r.1 as int == (match deref_opt(file_meta) { Some(f) => if media_mime(f.mime@) { 80int } else { 50int }, None => 50 }),
        content_view(r.2) == match deref_opt(file_meta) { Some(f) => content_view(f.content), None => None },
        context_view(r.3) == match deref_opt(file_meta) { Some(f) => context_view(f.context), None => None },
{
    let mut content_score: u32 = 0;
    let mut mime_score: u32 = 50;
    let mut content_profile: Option<ContentProfile> = None;
    let mut context_profile: Option<ContextProfile> = None;
    if let Some(file) = file_meta {
        content_profile = copy_content(&file.content);
        if let Some(content) = &file.content {
            if let Some(summary) = &content.summary {
                let sl = lower_chars(summary.as_str());
                if contains_lit(&sl, "import") {
                    content_score = content_score + 20;
                }
            }
            if content.keywords.len() > 0 {
                content_score = content_score + 30;
            }
        }
        context_profile = copy_context(&file.context);
        let mc = chars_of(file.mime.as_str());
        if starts_lit(&mc, "image") || starts_lit(&mc, "video") || starts_lit(&mc, "audio") {
            mime_score = mime_score + 30;
        }
    }
    (content_score, mime_score, content_profile, context_profile)
}

/// The project side of the assessment: is-project, is-vault, marker score, evidence.
fn project_part(
    old_path: &String,
    file_meta: Option<&FileMetadata>,
    project_candidate: Option<&ProjectCandidate>,
    detected: &Option<Vec<String>>,
) -> (r: (bool, bool, u32, Option<ProjectEvidence>))
    ensures
        ({
            let a = assess_project(old_path@, deref_opt(file_meta), deref_opt(project_candidate), opt_strs(*detected));
            r.0 == a.0 && r.1 == a.1 && r.2 as int == a.2
        }),
        match deref_opt(project_candidate) {
            Some(pc) => r.3 matches Some(e) && e@ == (crate::project::EvidenceSpec {
                is_project: true,
                confidence_pct: 95,
                strong_markers: strong_of(strs(pc.markers@)),
                weak_markers: weak_of(strs(pc.markers@)),
                project_kind: pc.category_id@,
                warnings: strs(pc.warnings@),
                reason: pc.reason@,
            }),
            None => match (deref_opt(file_meta), opt_strs(*detected)) {
                (Some(f), Some(m)) => if f.is_dir {
                    r.3 matches Some(e) && e@ == evidence(file_name_or_empty(old_path@), m)
                } else {
                    r.3 is None
                },
                _ => r.3 is None,
            },
        },
{
    let mut is_project = false;
    let mut is_vault = false;
    let mut project_marker_score: u32 = 0;
    let mut project_evidence: Option<ProjectEvidence> = None;
    if let Some(file) = file_meta {
        is_project = file.is_project_member;
    }
    if let Some(project) = project_candidate {
        is_project = true;
        let pid = chars_of(project.category_id.as_str());
        is_vault = eq_lit(&pid, "conhecimento.vault");
        let (strong, weak) = split_markers(&project.markers);
        project_evidence = Some(ProjectEvidence {
            is_project: true,
            confidence_pct: 95,
            strong_markers: strong,
            weak_markers: weak,
            project_kind: project.category_id.clone(),
            warnings: copy_strings(&project.warnings),
            reason: project.reason.clone(),
        });
        project_marker_score = 40;
    } else if let Some(file) = file_meta {
        if file.is_dir {
            match detected {
                Some(markers) => {
                    let op = chars_of(old_path.as_str());
                    let name = file_name_or_empty_exec(&op);
                    let ev = get_project_evidence(string_of(&name).as_str(), markers);
                    is_project = ev.is_project;
                    project_evidence = Some(ev);
                    project_marker_score = 30;
                },
                None => {},
            }
        }
    }
    (is_project, is_vault, project_marker_score, project_evidence)
}

/// Is-project, is-vault and the project-marker score.
pub open spec fn assess_project(
    old_path: Seq<char>,
    file: Option<FileMetadata>,
    project: Option<ProjectCandidate>,
    detected: Option<Seq<Seq<char>>>,
) -> (bool, bool, int) {
    let dir_markers = match (project, file, detected) {
        (None, Some(f), Some(m)) => f.is_dir,
        _ => false,
    };
    let is_project = match project {
        Some(_) => true,
        None => match file {
            Some(f) => if dir_markers { evidence(file_name_or_empty(old_path), detected->0).is_project } else { f.is_project_member },
            None => false,
        },
    };
    let is_vault = match project {
        Some(pc) => pc.category_id@ == "conhecimento.vault"@,
        None => false,
    };
    let proj = match project {
        Some(_) => 40int,
        None => if dir_markers { 30int } else { 0int },
    };
    (is_project, is_vault, proj)
}

fn uncertain_exec(new_dir: &String, category_id: &Option<String>) -> (b: bool)
    ensures
        b == uncertain_destination(new_dir@, opt_str(*category_id)),
{
    let nd = lower_chars(new_dir.as_str());
    let cat_incerto = match category_id {
        Some(c) => {
            let cc = chars_of(c.as_str());
            eq_lit(&cc, "incerto")
        },
        None => false,
    };
    contains_lit(&nd, "revisar") || contains_lit(&nd, "baixa_confianca") || contains_lit(&nd, "conflitos")
        || cat_incerto
}

fn filename_score_exec(old_path: &String, category_id: &Option<String>) -> (r: u32)
    ensures
        r as int == filename_score(old_path@, opt_str(*category_id)),
{
    let op = chars_of(old_path.as_str());
    let fname_lower = lower_chars(string_of(&file_name_or_empty_exec(&op)).as_str());
    if let Some(cat_id) = category_id {
        let cc = chars_of(cat_id.as_str());
        let parts = split_exec(&cc, '.');
        proof {
            crate::paths::lemma_split_nonempty(cc@, '.');
        }
        let last = &parts[parts.len() - 1];
        assert(last@ == split_char(cc@, '.').last());
        if crate::text::contains(&fname_lower, last) {
            return 75;
        }
    }
    50
}

/// Enriches a proposal with its safety assessment, given the answers of the
/// file system: whether the destination exists (`dest_exists`) and, for a
/// directory that is not a known project, the project markers detected in it.
#[verifier::spinoff_prover]
#[verifier::rlimit(40)]
pub fn enrich_proposal_with(
    proposal: &mut PlanProposal,
    file_meta: Option<&FileMetadata>,
    project_candidate: Option<&ProjectCandidate>,
    home_dir: &str,
    dest_exists: bool,
    detected: Option<Vec<String>>,
)
    ensures
        enriched(
            *old(proposal),
            *final(proposal),
            deref_opt(file_meta),
            deref_opt(project_candidate),
            assess(*old(proposal), deref_opt(file_meta), deref_opt(project_candidate), home_dir@, dest_exists, opt_strs(detected)),
            opt_strs(detected),
        ),
{
    let ghost a = assess(*proposal, deref_opt(file_meta), deref_opt(project_candidate), home_dir@, dest_exists, opt_strs(detected));
    let dest = destination_exec(home_dir, &proposal.new_dir, &proposal.new_filename, &proposal.old_path);
    let (safety_flags, is_protected, is_script) = flags_exec(&proposal.old_path, dest_exists);
    let (content_score, mime_score, content_profile, context_profile) = file_part(file_meta);
    let (is_project, is_vault, project_marker_score, project_evidence) = project_part(&proposal.old_path, file_meta, project_candidate, &detected);
    let is_uncertain = uncertain_exec(&proposal.new_dir, &proposal.category_id);
    let filename_score = filename_score_exec(&proposal.old_path, &proposal.category_id);

    let raw: u64 = (proposal.confidence_bp as u64 * 40) / 100 + filename_score as u64 * 15
        + mime_score as u64 * 15 + content_score as u64 * 10 + project_marker_score as u64 * 5;
    let final_score: u32 = if raw > 10000 { 10000 } else { raw as u32 };
    assert(final_score as int == a.final_bp);

    let mut evidence_sources: u64 = 0;
    if filename_score > 50 {
        evidence_sources = evidence_sources + 1;
    }
    if mime_score > 50 {
        evidence_sources = evidence_sources + 1;
    }
    if content_score > 0 {
        evidence_sources = evidence_sources + 1;
    }
    if project_marker_score > 0 {
        evidence_sources = evidence_sources + 1;
    }
    assert(evidence_sources as int == a.sources);

    let risk = chars_of(proposal.risk.as_str());
    let decision_class = if is_protected || is_project || is_vault || is_script || dest_exists {
        DecisionClass::BlockedUnsafe
    } else if eq_lit(&risk, "high") || is_uncertain {
        DecisionClass::NeedsHumanReview
    } else if eq_lit(&risk, "low") && final_score >= 9500 && evidence_sources >= 2 && !is_uncertain {
        DecisionClass::AutoMoveCertified
    } else {
        DecisionClass::NeedsHumanReview
    };
    assert(decision_class == a.decision);

    let op = chars_of(proposal.old_path.as_str());
    let mut hint = chars_of("mv \"");
    append(&mut hint, &dest);
    append_lit(&mut hint, "\" \"");
    append(&mut hint, &op);
    append_lit(&mut hint, "\"");

    let mut line = chars_of("Multi-source components matched: ");
    let dc = dec_chars(evidence_sources as u128);
    append(&mut line, &dc);

    proposal.source = proposal.old_path.clone();
    proposal.destination = string_of(&dest);
    proposal.confidence_bp = final_score;
    proposal.confidence_breakdown = Some(ConfidenceBreakdown {
        filename_score,
        mime_score,
        folder_context_score: 0,
        content_score,
        project_marker_score,
        final_score,
    });
    proposal.decision_class = decision_class;
    proposal.auto_apply_allowed = decision_class == DecisionClass::AutoMoveCertified;
    proposal.blocked_from_apply = decision_class == DecisionClass::BlockedUnsafe;
    proposal.staging_only = false;
    proposal.content_profile = content_profile;
    proposal.context_profile = context_profile;
    proposal.project_evidence = project_evidence;
    proposal.safety_flags = safety_flags;
    proposal.rollback_hint = Some(string_of(&hint));
    let ghost before = strs(proposal.evidence@);
    proposal.evidence.push(string_of(&line));
    assert(strs(proposal.evidence@) == before.push(line@));
}

/// The markers found for a proposal: only for a directory that is not a
/// known project, and then the verdict on some set of the markers present.
pub open spec fn detected_ok(
    path: Seq<char>,
    file: Option<FileMetadata>,
    project: Option<ProjectCandidate>,
    detected: Option<Seq<Seq<char>>>,
) -> bool {
    match detected {
        None => true,
        Some(m) => {
            &&& project is None
            &&& file matches Some(f) && f.is_dir
            &&& exists|mask: Seq<bool>| mask.len() == 12 && #[trigger] crate::project::root_verdict(
                file_name_or_empty(path),
                crate::project::select(crate::project::project_markers(), mask),
            ) == Some(m)
        },
    }
}

/// Enriches a proposal with its safety assessment, asking the file system
/// whether the destination exists and, for a directory that is not a known
/// project, which project markers it holds.
pub fn enrich_and_classify_proposal(
    proposal: &mut PlanProposal,
    file_meta: Option<&FileMetadata>,
    project_candidate: Option<&ProjectCandidate>,
    home_dir: &str,
)
    ensures
        exists|dest_exists: bool, detected: Option<Seq<Seq<char>>>| enriched(
            *old(proposal),
            *final(proposal),
            deref_opt(file_meta),
            deref_opt(project_candidate),
            #[trigger] assess(
                *old(proposal),
                deref_opt(file_meta),
                deref_opt(project_candidate),
                home_dir@,
                dest_exists,
                detected,
            ),
            detected,
        ) && detected_ok(old(proposal).old_path@, deref_opt(file_meta), deref_opt(project_candidate), detected),
{
    let dest = destination_exec(home_dir, &proposal.new_dir, &proposal.new_filename, &proposal.old_path);
    let dest_exists = path_exists(string_of(&dest).as_str());
    let mut detected: Option<Vec<String>> = None;
    if project_candidate.is_none() {
        if let Some(file) = file_meta {
            if file.is_dir {
                detected = detect_project_root(proposal.old_path.as_str());
                proof {
                    if detected is Some {
                        let v = detected->0;
                        let mask = choose|mask: Seq<bool>| #![auto] mask.len() == 12 && crate::project::root_verdict(
                            file_name_or_empty(proposal.old_path@),
                            crate::project::select(crate::project::project_markers(), mask),
                        ) == Some(strs(v@));
                        assert(crate::project::root_verdict(
                            file_name_or_empty(proposal.old_path@),
                            crate::project::select(crate::project::project_markers(), mask),
                        ) == Some(strs(v@)));
                    }
                }
            }
        }
    }
    enrich_proposal_with(proposal, file_meta, project_candidate, home_dir, dest_exists, detected);
}

/// The compound confidence never reaches the automatic-move floor: its
/// largest value, with a full proposal confidence, is 0.7025.
pub proof fn lemma_compound_below_floor(conf_bp: int, fname: int, mime: int, content: int, proj: int)
    requires
        0 <= conf_bp <= 10000,
        fname == 50 || fname == 75,
        mime == 50 || mime == 80,
        0 <= content <= 50,
        0 <= proj <= 40,
    ensures
        compound(conf_bp, fname, mime, 0, content, proj) <= 7025,
{
    assert((conf_bp * 40) / 100 <= 4000) by (nonlinear_arith)
        requires 0 <= conf_bp <= 10000;
}

/// No proposal whose confidence is a probability (at most 1.0) is ever
/// certified for an automatic move by the assessment.
pub proof fn lemma_never_auto_certified(
    p: PlanProposal,
    file: Option<FileMetadata>,
    project: Option<ProjectCandidate>,
    home: Seq<char>,
    dest_exists: bool,
    detected: Option<Seq<Seq<char>>>,
)
    requires
        p.confidence_bp <= 10000,
    ensures
        assess(p, file, project, home, dest_exists, detected).decision != DecisionClass::AutoMoveCertified,
{
    let a = assess(p, file, project, home, dest_exists, detected);
    assert(a.content <= 50);
    lemma_compound_below_floor(p.confidence_bp as int, a.fname, a.mime, a.content, a.proj);
}

/// A proposal is certified for an automatic move only if it is low risk, not
/// protected, not a project or vault, not a script, does not overwrite, goes
/// to a certain destination, scores at least 0.95 and has two independent
/// sources of evidence.
pub proof fn lemma_certification_requirements(
    p: PlanProposal,
    file: Option<FileMetadata>,
    project: Option<ProjectCandidate>,
    home: Seq<char>,
    dest_exists: bool,
    detected: Option<Seq<Seq<char>>>,
)
    ensures
        assess(p, file, project, home, dest_exists, detected).decision == DecisionClass::AutoMoveCertified ==> {
            let a = assess(p, file, project, home, dest_exists, detected);
            &&& p.risk@ == "low"@
            &&& !a.protected && !a.is_project && !a.is_vault && !a.script && !dest_exists
            &&& !a.uncertain
            &&& a.final_bp >= 9500
            &&& a.sources >= 2
        },
{
}


// ---------------------------------------------------------------------------
// Plan generation
// ---------------------------------------------------------------------------

/// The files that the plan lists as protected instead of proposing an action.
pub open spec fn withheld_file(f: FileMetadata) -> bool {
    f.status == FileStatus::Analyzed && (f.metadata_only || f.protected_reason is Some || f.is_project_member)
}

/// The report path of a withheld file (masked when it is protected).
pub open spec fn withheld_path(f: FileMetadata) -> Seq<char> {
    match f.protected_reason {
        Some(r) => masked(f.path@, r@),
        None => f.path@,
    }
}

/// Paths of the protected projects, in order.
pub open spec fn protected_project_paths(ps: Seq<ProjectCandidate>) -> Seq<Seq<char>>
    decreases ps.len(),
{
    if ps.len() == 0 {
        Seq::empty()
    } else if protected_reason(ps.last().root_path@) is Some {
        protected_project_paths(ps.drop_last()).push(ps.last().root_path@)
    } else {
        protected_project_paths(ps.drop_last())
    }
}

/// Report paths of the withheld files, in order.
pub open spec fn withheld_paths(fs: Seq<FileMetadata>) -> Seq<Seq<char>>
    decreases fs.len(),
{
    if fs.len() == 0 {
        Seq::empty()
    } else if withheld_file(fs.last()) {
        withheld_paths(fs.drop_last()).push(withheld_path(fs.last()))
    } else {
        withheld_paths(fs.drop_last())
    }
}

pub open spec fn meta_paths(v: Seq<FileMetadata>) -> Seq<Seq<char>> {
    v.map_values(|f: FileMetadata| f.path@)
}

/// A file that reaches the classification step of the plan.
pub open spec fn plan_candidate(f: FileMetadata, options: PlanOptions) -> bool {
    &&& f.status == FileStatus::Analyzed
    &&& !f.metadata_only
    &&& f.protected_reason is None
    &&& !f.is_project_member
    &&& (f.size_bytes <= 2147483648 || options.include_large_files)
}

/// Where a proposal of the plan comes from, and the directory it moves to.
pub open spec fn proposal_origin(
    p: PlanProposal,
    scan: crate::scanner::ScanResult,
    options: PlanOptions,
    cfg: crate::taxonomy::TaxonomySpec,
    advisor: Seq<Option<crate::ollama::AdvisorSuggestion>>,
) -> bool {
    ||| (p.action@ == "move_project"@ && exists|j: int| 0 <= j < scan.projects@.len()
        && #[trigger] scan.projects@[j].root_path@ == p.old_path@ && protected_reason(p.old_path@) is None
        && p.new_dir@ == project_dir(scan.projects@[j], cfg))
    ||| (!options.projects_only && p.action@ != "move_project"@ && exists|i: int| 0 <= i < scan.files@.len()
        && #[trigger] scan.files@[i].path@ == p.old_path@ && plan_candidate(scan.files@[i], options)
        && file_dir(scan.files@[i], i, options, cfg, advisor) == Some(p.new_dir@))
}

/// The first category of `cats` whose id is `id`.
pub open spec fn cat_of_id(cats: Seq<crate::taxonomy::CategorySpec>, id: Seq<char>) -> Option<crate::taxonomy::CategorySpec>
    decreases cats.len(),
{
    if cats.len() == 0 {
        None
    } else if cats[0].id == id {
        Some(cats[0])
    } else {
        cat_of_id(cats.drop_first(), id)
    }
}

/// Directory of the first category of `cats` whose id is `id`.
pub open spec fn dir_of_id(cats: Seq<crate::taxonomy::CategorySpec>, id: Seq<char>) -> Option<Seq<char>> {
    match cat_of_id(cats, id) {
        Some(c) => Some(c.dir),
        None => None,
    }
}

/// Where the plan proposes to move a project: the directory of its category,
/// else the downloads review inbox for a project under a downloads folder,
/// else the sandbox.
pub open spec fn project_dir(p: ProjectCandidate, cfg: crate::taxonomy::TaxonomySpec) -> Seq<char> {
    match dir_of_id(cfg.categories, p.category_id@) {
        Some(d) => d,
        None => if has_sub(lowercase(p.root_path@), "/downloads/"@) {
            "Documentos/00_Inbox/Downloads/Revisar"@
        } else {
            "Projetos/Sandbox"@
        },
    }
}

/// The label the plan gives a project's category.
pub open spec fn project_label(p: ProjectCandidate, cfg: crate::taxonomy::TaxonomySpec) -> Seq<char> {
    match cat_of_id(cfg.categories, p.category_id@) {
        Some(c) => c.label,
        None => if has_sub(lowercase(p.root_path@), "/downloads/"@) {
            "Downloads / Transient Review"@
        } else {
            "Sandbox"@
        },
    }
}

/// The category the advisor's suggestion designates, when it names a known one.
pub open spec fn advisor_suggestion(
    s: crate::ollama::AdvisorSuggestion,
    cfg: crate::taxonomy::TaxonomySpec,
) -> Option<crate::taxonomy::SuggestionSpec> {
    match cat_of_id(cfg.categories, s.category_id@) {
        Some(c) => Some(crate::taxonomy::SuggestionSpec {
            id: c.id,
            label: c.label,
            relative_dir: c.dir,
            confidence_bp: s.confidence_bp as int,
            risk: if s.confidence_bp < 7000 { "medium"@ } else { "low"@ },
            needs_review: s.confidence_bp < 7000,
            reason: s.reason@ + " | Sugerido por Ollama Advisor"@,
            rules_applied: seq!["ollama_advisor"@],
            matched_keywords: Seq::empty(),
            candidate_categories: None,
            already_organized: false,
        }),
        None => None,
    }
}

/// The advisor's category for the file at index `i`, when the advisor is used
/// and names a known category.
pub open spec fn advisor_pick(
    i: int,
    options: PlanOptions,
    cfg: crate::taxonomy::TaxonomySpec,
    advisor: Seq<Option<crate::ollama::AdvisorSuggestion>>,
) -> Option<crate::taxonomy::SuggestionSpec> {
    if options.ollama && 0 <= i < advisor.len() {
        match advisor[i] {
            Some(s) => advisor_suggestion(s, cfg),
            None => None,
        }
    } else {
        None
    }
}

/// The category chosen for the file at index `i` with taxonomy suggestions
/// on: the advisor's, else the taxonomy's suggestion.
pub open spec fn chosen_category(
    f: FileMetadata,
    i: int,
    options: PlanOptions,
    cfg: crate::taxonomy::TaxonomySpec,
    advisor: Seq<Option<crate::ollama::AdvisorSuggestion>>,
) -> crate::taxonomy::SuggestionSpec {
    match advisor_pick(i, options, cfg, advisor) {
        Some(c) => c,
        None => crate::taxonomy::suggest(crate::taxonomy::file_traits(f.filename@, f.extension@, f.mime@), cfg),
    }
}

/// Where the plan proposes to move the file at index `i`: the advisor's
/// category, else the taxonomy's suggestion (with taxonomy suggestions on),
/// else the MIME classification; `None` when the classifier declines it.
pub open spec fn file_dir(
    f: FileMetadata,
    i: int,
    options: PlanOptions,
    cfg: crate::taxonomy::TaxonomySpec,
    advisor: Seq<Option<crate::ollama::AdvisorSuggestion>>,
) -> Option<Seq<char>> {
    if options.taxonomy_suggestions {
        Some(chosen_category(f, i, options, cfg, advisor).relative_dir)
    } else if classify_blocked(f) {
        None
    } else {
        Some(mime_class(f.mime@, f.extension@).dir)
    }
}

/// `path` already sits directly in `dir` under `home`.
pub open spec fn in_place(path: Seq<char>, home: Seq<char>, dir: Seq<char>) -> bool {
    crate::paths::parent_comps(path) == Some(crate::paths::comps(join_path(home, dir)))
}

/// A project the plan must propose to move.
pub open spec fn project_due(p: ProjectCandidate, home: Seq<char>, cfg: crate::taxonomy::TaxonomySpec) -> bool {
    protected_reason(p.root_path@) is None && !in_place(p.root_path@, home, project_dir(p, cfg))
}

/// A file the plan must propose to move or rename.
pub open spec fn file_due(
    f: FileMetadata,
    i: int,
    options: PlanOptions,
    cfg: crate::taxonomy::TaxonomySpec,
    advisor: Seq<Option<crate::ollama::AdvisorSuggestion>>,
    home: Seq<char>,
) -> bool {
    &&& plan_candidate(f, options)
    &&& file_dir(f, i, options, cfg, advisor) matches Some(d)
    &&& !in_place(f.path@, home, d)
}

/// Some proposal of `ps` acts on `path`.
pub open spec fn proposed(ps: Seq<PlanProposal>, path: Seq<char>) -> bool {
    exists|k: int| 0 <= k < ps.len() && #[trigger] ps[k].old_path@ == path
}

proof fn lemma_proposed_push(ps: Seq<PlanProposal>, x: PlanProposal)
    ensures
        proposed(ps.push(x), x.old_path@),
        forall|path: Seq<char>| proposed(ps, path) ==> #[trigger] proposed(ps.push(x), path),
{
    assert(ps.push(x)[ps.len() as int] == x);
    assert forall|path: Seq<char>| proposed(ps, path) implies #[trigger] proposed(ps.push(x), path) by {
        let k = choose|k: int| 0 <= k < ps.len() && #[trigger] ps[k].old_path@ == path;
        assert(ps.push(x)[k] == ps[k]);
    }
}

/// The values held by the `Some` entries of `s`, in order.
pub open spec fn somes<T>(s: Seq<Option<T>>) -> Seq<T>
    decreases s.len(),
{
    if s.len() == 0 {
        Seq::empty()
    } else {
        match s.last() {
            Some(x) => somes(s.drop_last()).push(x),
            None => somes(s.drop_last()),
        }
    }
}

proof fn lemma_somes_push<T>(s: Seq<Option<T>>, o: Option<T>)
    ensures
        somes(s.push(o)) == match o {
            Some(x) => somes(s).push(x),
            None => somes(s),
        },
{
    assert(s.push(o).drop_last() =~= s);
}

/// `s` cut to its first `l` elements when a limit `l` is given.
pub open spec fn limited<T>(s: Seq<T>, limit: Option<usize>) -> Seq<T> {
    match limit {
        Some(l) => if s.len() > l { s.take(l as int) } else { s },
        None => s,
    }
}

/// A file proposal that the `safe_only` and `review_only` filters keep.
pub open spec fn passes_filters(p: PlanProposal, options: PlanOptions) -> bool {
    &&& (options.safe_only ==> p.risk@ != "high"@ && !p.needs_review && !p.blocked_from_apply)
    &&& (options.review_only ==> p.needs_review)
}

/// How the plan arrived at a project's proposal: the proposal before its
/// assessment, and the file system's answers to the assessment.
pub struct ProjectSteps {
    pub base: PlanProposal,
    pub dest_exists: bool,
    pub detected: Option<Seq<Seq<char>>>,
}

/// How the plan arrived at a file's proposal: the classifier's proposal, the
/// rename suggestion obtained, the proposal after the rename, and the file
/// system's answers to the assessment.
pub struct FileSteps {
    pub base: PlanProposal,
    pub rename: Option<crate::naming::RenameSpec>,
    pub renamed: PlanProposal,
    pub dest_exists: bool,
    pub detected: Option<Seq<Seq<char>>>,
}

pub open spec fn no_file_steps() -> FileSteps {
    FileSteps { base: arbitrary(), rename: None, renamed: arbitrary(), dest_exists: false, detected: None }
}

/// `mid` is `base` with the rename suggestion `s` folded in.
pub open spec fn rename_applied(base: PlanProposal, mid: PlanProposal, s: crate::naming::RenameSpec) -> bool {
    &&& mid == (PlanProposal {
        action: mid.action,
        new_filename: mid.new_filename,
        rules_applied: mid.rules_applied,
        naming_profile: mid.naming_profile,
        needs_review: mid.needs_review,
        risk: mid.risk,
        confidence_bp: mid.confidence_bp,
        reason: mid.reason,
        ..base
    })
    &&& mid.action@ == "rename"@
    &&& opt_str(mid.new_filename) == Some(s.suggested_filename)
    &&& opt_strs(mid.rules_applied) == Some(match opt_strs(base.rules_applied) {
        Some(r) => r,
        None => Seq::empty(),
    } + s.rules_applied)
    &&& opt_str(mid.naming_profile) == Some(s.naming_profile)
    &&& mid.needs_review == (base.needs_review || s.needs_review)
    &&& mid.risk@ == (if s.risk == "high"@ {
        "high"@
    } else if s.risk == "medium"@ && base.risk@ == "low"@ {
        "medium"@
    } else {
        base.risk@
    })
    &&& mid.confidence_bp == (base.confidence_bp + s.confidence_pct * 100) / 2
    &&& mid.reason@ == "Move: "@ + base.reason@ + " | Rename: "@ + s.reason
}

/// The classifier's proposal for the file at index `i`, marked as already in
/// place when it is.
pub open spec fn file_base_ok(
    p: PlanProposal,
    f: FileMetadata,
    i: int,
    options: PlanOptions,
    cfg: crate::taxonomy::TaxonomySpec,
    advisor: Seq<Option<crate::ollama::AdvisorSuggestion>>,
    home: Seq<char>,
) -> bool {
    &&& (if options.taxonomy_suggestions {
        taxonomy_base(p, f, chosen_category(f, i, options, cfg, advisor), cfg.profile)
    } else {
        classify_base(p, f)
    })
    &&& p.already_organized == in_place(f.path@, home, p.new_dir@)
}

/// The file at index `i` reaches the classifier and gets a destination.
pub open spec fn file_reached(
    f: FileMetadata,
    i: int,
    options: PlanOptions,
    cfg: crate::taxonomy::TaxonomySpec,
    advisor: Seq<Option<crate::ollama::AdvisorSuggestion>>,
) -> bool {
    !options.projects_only && plan_candidate(f, options) && file_dir(f, i, options, cfg, advisor) is Some
}

/// A rename is asked for and the suggestion changes the file's name.
pub open spec fn renames(f: FileMetadata, w: FileSteps, options: PlanOptions) -> bool {
    options.rename_suggestions && (w.rename matches Some(s) && s.suggested_filename != f.filename@)
}

/// What the plan holds for a project: a proposal exactly when the project is
/// due, which is its proposal assessed.
pub open spec fn project_slot_ok(
    o: Option<PlanProposal>,
    w: ProjectSteps,
    pr: ProjectCandidate,
    home: Seq<char>,
    cfg: crate::taxonomy::TaxonomySpec,
) -> bool {
    match o {
        Some(p) => {
            &&& project_due(pr, home, cfg)
            &&& project_base(w.base, pr, cfg)
            &&& !w.base.already_organized
            &&& enriched(w.base, p, None, Some(pr), assess(w.base, None, Some(pr), home, w.dest_exists, w.detected), w.detected)
            &&& detected_ok(w.base.old_path@, None, Some(pr), w.detected)
            &&& p.old_path@ == pr.root_path@
            &&& p.action@ == "move_project"@
            &&& p.new_dir@ == project_dir(pr, cfg)
            &&& !p.already_organized
        },
        None => !project_due(pr, home, cfg),
    }
}

/// What the plan holds for the file at index `i`: `c` is the proposal made
/// for it before the filters (for a file that gets a destination, unless it
/// is already in place and not renamed), which is the classifier's proposal,
/// renamed when asked for, then assessed; `o` is what the filters keep of it.
pub open spec fn file_slot_ok(
    c: Option<PlanProposal>,
    o: Option<PlanProposal>,
    w: FileSteps,
    f: FileMetadata,
    i: int,
    options: PlanOptions,
    cfg: crate::taxonomy::TaxonomySpec,
    advisor: Seq<Option<crate::ollama::AdvisorSuggestion>>,
    home: Seq<char>,
) -> bool {
    &&& (file_reached(f, i, options, cfg, advisor) && options.rename_suggestions ==> crate::naming::rename_possible(f, w.rename))
    &&& (c is Some <==> file_reached(f, i, options, cfg, advisor)
        && (!in_place(f.path@, home, file_dir(f, i, options, cfg, advisor)->0) || renames(f, w, options)))
    &&& match c {
        Some(p) => {
            &&& file_base_ok(w.base, f, i, options, cfg, advisor, home)
            &&& (if renames(f, w, options) { rename_applied(w.base, w.renamed, w.rename->0) } else { w.renamed == w.base })
            &&& enriched(w.renamed, p, Some(f), None, assess(w.renamed, Some(f), None, home, w.dest_exists, w.detected), w.detected)
            &&& detected_ok(w.renamed.old_path@, Some(f), None, w.detected)
            &&& plan_candidate(f, options)
            &&& file_dir(f, i, options, cfg, advisor) == Some(p.new_dir@)
            &&& p.old_path@ == f.path@
            &&& p.already_organized == in_place(f.path@, home, p.new_dir@)
            &&& (p.action@ == "move"@ || p.action@ == "rename"@)
            &&& (!p.already_organized || p.action@ == "rename"@)
            &&& o == (if passes_filters(p, options) { Some(p) } else { None::<PlanProposal> })
        },
        None => o is None,
    }
}

/// The proposals of a plan: one slot per project, then one per file, in scan
/// order, cut to the limit.
pub open spec fn plan_structure(
    proposals: Seq<PlanProposal>,
    scan: crate::scanner::ScanResult,
    options: PlanOptions,
    cfg: crate::taxonomy::TaxonomySpec,
    advisor: Seq<Option<crate::ollama::AdvisorSuggestion>>,
    pj: Seq<Option<PlanProposal>>,
    pw: Seq<ProjectSteps>,
    cand: Seq<Option<PlanProposal>>,
    fi: Seq<Option<PlanProposal>>,
    fw: Seq<FileSteps>,
) -> bool {
    &&& pj.len() == scan.projects@.len()
    &&& pw.len() == scan.projects@.len()
    &&& cand.len() == scan.files@.len()
    &&& fi.len() == scan.files@.len()
    &&& fw.len() == scan.files@.len()
    &&& forall|j: int| 0 <= j < pj.len() ==> #[trigger] project_slot_ok(pj[j], pw[j], scan.projects@[j], scan.home_dir@, cfg)
    &&& forall|i: int| 0 <= i < fi.len() ==> #[trigger] file_slot_ok(
        cand[i],
        fi[i],
        fw[i],
        scan.files@[i],
        i,
        options,
        cfg,
        advisor,
        scan.home_dir@,
    )
    &&& proposals == limited(somes(pj) + somes(fi), options.limit)
}

proof fn lemma_somes_none<T>(s: Seq<Option<T>>)
    requires
        forall|k: int| 0 <= k < s.len() ==> #[trigger] s[k] is None,
    ensures
        somes(s) == Seq::<T>::empty(),
    decreases s.len(),
{
    if s.len() > 0 {
        lemma_somes_none(s.drop_last());
    }
}

proof fn lemma_slots_push(
    cand: Seq<Option<PlanProposal>>,
    fi: Seq<Option<PlanProposal>>,
    fw: Seq<FileSteps>,
    c: Option<PlanProposal>,
    o: Option<PlanProposal>,
    w: FileSteps,
    scan: crate::scanner::ScanResult,
    options: PlanOptions,
    cfg: crate::taxonomy::TaxonomySpec,
    advisor: Seq<Option<crate::ollama::AdvisorSuggestion>>,
)
    requires
        cand.len() == fi.len(),
        fw.len() == fi.len(),
        fi.len() < scan.files@.len(),
        forall|ii: int| 0 <= ii < fi.len() ==> #[trigger] file_slot_ok(
            cand[ii],
            fi[ii],
            fw[ii],
            scan.files@[ii],
            ii,
            options,
            cfg,
            advisor,
            scan.home_dir@,
        ),
        file_slot_ok(c, o, w, scan.files@[fi.len() as int], fi.len() as int, options, cfg, advisor, scan.home_dir@),
    ensures
        forall|ii: int| 0 <= ii < fi.push(o).len() ==> #[trigger] file_slot_ok(
            cand.push(c)[ii],
            fi.push(o)[ii],
            fw.push(w)[ii],
            scan.files@[ii],
            ii,
            options,
            cfg,
            advisor,
            scan.home_dir@,
        ),
{
    assert forall|ii: int| 0 <= ii < fi.push(o).len() implies #[trigger] file_slot_ok(
        cand.push(c)[ii],
        fi.push(o)[ii],
        fw.push(w)[ii],
        scan.files@[ii],
        ii,
        options,
        cfg,
        advisor,
        scan.home_dir@,
    ) by {
        if ii < fi.len() {
            assert(cand.push(c)[ii] == cand[ii]);
            assert(fi.push(o)[ii] == fi[ii]);
            assert(fw.push(w)[ii] == fw[ii]);
        }
    }
}

proof fn lemma_pslots_push(
    pj: Seq<Option<PlanProposal>>,
    pw: Seq<ProjectSteps>,
    o: Option<PlanProposal>,
    w: ProjectSteps,
    scan: crate::scanner::ScanResult,
    cfg: crate::taxonomy::TaxonomySpec,
)
    requires
        pw.len() == pj.len(),
        pj.len() < scan.projects@.len(),
        forall|jj: int| 0 <= jj < pj.len() ==> #[trigger] project_slot_ok(pj[jj], pw[jj], scan.projects@[jj], scan.home_dir@, cfg),
        project_slot_ok(o, w, scan.projects@[pj.len() as int], scan.home_dir@, cfg),
    ensures
        forall|jj: int| 0 <= jj < pj.push(o).len() ==> #[trigger] project_slot_ok(
            pj.push(o)[jj],
            pw.push(w)[jj],
            scan.projects@[jj],
            scan.home_dir@,
            cfg,
        ),
        somes(pj.push(o)) == match o {
            Some(x) => somes(pj).push(x),
            None => somes(pj),
        },
{
    lemma_somes_push(pj, o);
    assert forall|jj: int| 0 <= jj < pj.push(o).len() implies #[trigger] project_slot_ok(
        pj.push(o)[jj],
        pw.push(w)[jj],
        scan.projects@[jj],
        scan.home_dir@,
        cfg,
    ) by {
        if jj < pj.len() {
            assert(pj.push(o)[jj] == pj[jj]);
            assert(pw.push(w)[jj] == pw[jj]);
        }
    }
}

/// Protected projects.
pub open spec fn protected_project_count(ps: Seq<ProjectCandidate>) -> nat
    decreases ps.len(),
{
    if ps.len() == 0 {
        0
    } else {
        protected_project_count(ps.drop_last()) + if protected_reason(ps.last().root_path@) is Some { 1nat } else { 0nat }
    }
}

/// Withheld files.
pub open spec fn withheld_count(fs: Seq<FileMetadata>) -> nat
    decreases fs.len(),
{
    if fs.len() == 0 {
        0
    } else {
        withheld_count(fs.drop_last()) + if withheld_file(fs.last()) { 1nat } else { 0nat }
    }
}

proof fn lemma_protected_counts(ps: Seq<ProjectCandidate>, fs: Seq<FileMetadata>)
    ensures
        protected_project_paths(ps).len() == protected_project_count(ps),
        withheld_paths(fs).len() == withheld_count(fs),
    decreases ps.len() + fs.len(),
{
    if ps.len() > 0 {
        lemma_protected_counts(ps.drop_last(), fs);
    }
    if fs.len() > 0 {
        lemma_protected_counts(ps, fs.drop_last());
    }
}

/// The safety properties every proposal of a plan has.
pub open spec fn plan_proposal_ok(
    p: PlanProposal,
    scan: crate::scanner::ScanResult,
    options: PlanOptions,
    cfg: crate::taxonomy::TaxonomySpec,
    advisor: Seq<Option<crate::ollama::AdvisorSuggestion>>,
) -> bool {
    &&& proposal_origin(p, scan, options, cfg, advisor)
    &&& p.source@ == p.old_path@
    &&& (protected_reason(p.old_path@) is Some ==> p.decision_class == DecisionClass::BlockedUnsafe && p.blocked_from_apply)
    &&& p.auto_apply_allowed == (p.decision_class == DecisionClass::AutoMoveCertified)
    &&& p.blocked_from_apply == (p.decision_class == DecisionClass::BlockedUnsafe)
    &&& (advisor_bounded(advisor) ==> p.decision_class != DecisionClass::AutoMoveCertified)
    &&& (p.action@ != "move_project"@ && options.safe_only ==> p.risk@ != "high"@ && !p.needs_review && !p.blocked_from_apply)
    &&& (p.action@ != "move_project"@ && options.review_only ==> p.needs_review)
}

/// Every advisor confidence is a probability (at most 1.0).
pub open spec fn advisor_bounded(adv: Seq<Option<crate::ollama::AdvisorSuggestion>>) -> bool {
    forall|i: int| 0 <= i < adv.len() ==> (#[trigger] adv[i] matches Some(s) ==> s.confidence_bp <= 10000)
}

/// The inputs on which plan generation is defined: every file that reaches
/// the check of its current directory has a parent directory.
pub open spec fn plan_inputs_ok(scan: crate::scanner::ScanResult, options: PlanOptions) -> bool {
    forall|i: int| 0 <= i < scan.files@.len() ==> ({
        let f = #[trigger] scan.files@[i];
        (!options.projects_only && plan_candidate(f, options) && (options.taxonomy_suggestions || !classify_blocked(f)))
            ==> crate::paths::parent_comps(f.path@) is Some
    })
}

/// Whether plan generation is defined on these inputs (`plan_inputs_ok`).
pub fn plan_inputs_valid(scan: &crate::scanner::ScanResult, options: &PlanOptions) -> (b: bool)
    ensures
        b == plan_inputs_ok(*scan, *options),
{
    let mut i: usize = 0;
    while i < scan.files.len()
        invariant
            i <= scan.files@.len(),
            forall|k: int| 0 <= k < i ==> ({
                let f = #[trigger] scan.files@[k];
                (!options.projects_only && plan_candidate(f, *options) && (options.taxonomy_suggestions || !classify_blocked(f)))
                    ==> crate::paths::parent_comps(f.path@) is Some
            }),
        decreases scan.files@.len() - i,
    {
        let f = &scan.files[i];
        let candidate = f.status == FileStatus::Analyzed && !f.metadata_only && f.protected_reason.is_none()
            && !f.is_project_member && (f.size_bytes <= 2147483648 || options.include_large_files);
        let lower = lower_chars(f.path.as_str());
        let blocked = f.metadata_only || f.protected_reason.is_some() || is_protected_path(f.path.as_str()).is_some()
            || (f.is_hidden && !contains_lit(&lower, "/.obsidian/"));
        if !options.projects_only && candidate && (options.taxonomy_suggestions || !blocked) {
            let pc = chars_of(f.path.as_str());
            let sg = crate::paths::segs_exec(&pc);
            let has_parent = sg.len() > 0 || crate::paths::cur_dir_exec(&pc);
            proof {
                assert(vviews(sg@).len() == crate::paths::segs(f.path@).len());
            }
            if !has_parent {
                return false;
            }
        }
        i += 1;
    }
    true
}

pub fn copy_opt_strings(o: &Option<Vec<String>>) -> (r: Option<Vec<String>>)
    ensures
        opt_strs(r) == opt_strs(*o),
{
    match o {
        Some(v) => Some(copy_strings(v)),
        None => None,
    }
}

/// A copy of `f` reported at `path`.
fn withheld_copy(f: &FileMetadata, path: String) -> (r: FileMetadata)
    ensures
        r.path == path,
{
    FileMetadata {
        path,
        filename: f.filename.clone(),
        extension: f.extension.clone(),
        mime: f.mime.clone(),
        size_bytes: f.size_bytes,
        modified_at: copy_opt_string(&f.modified_at),
        is_dir: f.is_dir,
        is_file: f.is_file,
        is_symlink: f.is_symlink,
        is_hidden: f.is_hidden,
        is_project_member: f.is_project_member,
        project_root: copy_opt_string(&f.project_root),
        source_zone: copy_opt_string(&f.source_zone),
        readable: f.readable,
        content_sampled: f.content_sampled,
        metadata_only: f.metadata_only,
        protected_reason: copy_opt_string(&f.protected_reason),
        warnings: copy_strings(&f.warnings),
        content: copy_content(&f.content),
        context: copy_context(&f.context),
        status: f.status,
    }
}

/// The proposal that moves project `pr` under taxonomy `cfg`, before its
/// assessment (all but whether the project is already in place).
pub open spec fn project_base(p: PlanProposal, pr: ProjectCandidate, cfg: crate::taxonomy::TaxonomySpec) -> bool {
    &&& p.action@ == "move_project"@
    &&& p.risk@ == pr.risk@
    &&& p.confidence_bp == 9500
    &&& p.old_path@ == pr.root_path@
    &&& p.source@ == pr.root_path@
    &&& p.new_dir@ == project_dir(pr, cfg)
    &&& p.destination@.len() == 0
    &&& p.reason@ == pr.reason@
    &&& strs(p.evidence@) == seq!["Marcadores detectados: "@ + crate::text::join(strs(pr.markers@), ", "@)]
    &&& p.needs_review == (pr.needs_review || has_sub(pr.root_path@, "Obsidian Vault"@))
    &&& opt_strs(p.rules_applied) == Some(strs(pr.markers@))
    &&& opt_str(p.category_id) == Some(pr.category_id@)
    &&& opt_str(p.category_label) == Some(project_label(pr, cfg))
    &&& opt_str(p.category_dir) == (match cat_of_id(cfg.categories, pr.category_id@) {
        Some(c) => Some(c.dir),
        None => None,
    })
    &&& p.taxonomy_score_bp == Some(9500u32)
    &&& p.matched_keywords is None
    &&& p.taxonomy_reason is None
    &&& opt_str(p.taxonomy_profile) == Some(cfg.profile)
    &&& p.candidate_categories is None
    &&& p.is_project == Some(true)
    &&& opt_strs(p.project_markers) == Some(strs(pr.markers@))
    &&& p.project_file_count == Some(pr.file_count)
    &&& p.project_total_size == Some(pr.total_size_bytes)
    &&& common_defaults(p)
}

/// The proposal for moving a project, before its assessment.
fn project_proposal(project: &ProjectCandidate, config: &crate::taxonomy::TaxonomyConfig) -> (p: PlanProposal)
    ensures
        project_base(p, *project, config@),
        !p.already_organized,
{
    let mut ev = chars_of("Marcadores detectados: ");
    let joined = crate::text::join_exec(&project.markers, ", ");
    append(&mut ev, &joined);
    let mut evidence: Vec<String> = Vec::new();
    evidence.push(string_of(&ev));
    let rc = chars_of(project.root_path.as_str());
    let needs_review = project.needs_review || contains_lit(&rc, "Obsidian Vault");
    let mut p = PlanProposal {
        action: string_of(&chars_of("move_project")),
        risk: project.risk.clone(),
        confidence_bp: 9500,
        old_path: project.root_path.clone(),
        source: project.root_path.clone(),
        new_dir: String::new(),
        destination: String::new(),
        reason: project.reason.clone(),
        evidence,
        needs_review,
        protected: false,
        new_filename: None,
        rules_applied: Some(copy_strings(&project.markers)),
        naming_profile: None,
        category_id: Some(project.category_id.clone()),
        category_label: None,
        category_dir: None,
        taxonomy_score_bp: Some(9500),
        matched_keywords: None,
        taxonomy_reason: None,
        taxonomy_profile: Some(config.profile.clone()),
        candidate_categories: None,
        already_organized: false,
        is_project: Some(true),
        project_markers: Some(copy_strings(&project.markers)),
        project_file_count: Some(project.file_count),
        project_total_size: Some(project.total_size_bytes),
        decision_class: DecisionClass::NeedsHumanReview,
        auto_apply_allowed: false,
        blocked_from_apply: false,
        staging_only: false,
        confidence_breakdown: None,
        content_profile: None,
        context_profile: None,
        project_evidence: None,
        safety_flags: Vec::new(),
        rollback_hint: None,
    };
    assert(strs(p.evidence@) == seq![ev@]);
    let ghost p0 = p;
    let pid = chars_of(project.category_id.as_str());
    let ghost cs = config@.categories;
    let mut k: usize = 0;
    let mut found = false;
    assert(cs.subrange(0, cs.len() as int) == cs);
    while k < config.categories.len() && !found
        invariant
            k <= config.categories.len(),
            cs == config@.categories,
            cs.len() == config.categories@.len(),
            pid@ == project.category_id@,
            p == (PlanProposal { new_dir: p.new_dir, category_label: p.category_label, category_dir: p.category_dir, ..p0 }),
            !found ==> p.category_dir is None,
            !found ==> cat_of_id(cs, pid@) == cat_of_id(cs.subrange(k as int, cs.len() as int), pid@),
            found ==> (cat_of_id(cs, pid@) matches Some(c) && p.new_dir@ == c.dir && opt_str(p.category_label) == Some(c.label)
                && opt_str(p.category_dir) == Some(c.dir)),
        decreases config.categories.len() - k,
    {
        let ghost rest = cs.subrange(k as int, cs.len() as int);
        assert(rest[0] == config.categories@[k as int]@);
        assert(rest.drop_first() == cs.subrange(k + 1, cs.len() as int));
        let cid = chars_of(config.categories[k].id.as_str());
        if crate::text::seq_eq(&cid, &pid) {
            p.new_dir = config.categories[k].dir.clone();
            p.category_label = Some(config.categories[k].label.clone());
            p.category_dir = Some(config.categories[k].dir.clone());
            found = true;
        }
        k += 1;
    }
    assert(!found ==> cs.subrange(k as int, cs.len() as int).len() == 0);
    assert(!found ==> cat_of_id(cs.subrange(k as int, cs.len() as int), pid@) is None);
    assert(!found ==> p.category_dir is None);
    if !found {
        let rl = lower_chars(project.root_path.as_str());
        if contains_lit(&rl, "/downloads/") {
            p.new_dir = string_of(&chars_of("Documentos/00_Inbox/Downloads/Revisar"));
            p.category_label = Some(string_of(&chars_of("Downloads / Transient Review")));
        } else {
            p.new_dir = string_of(&chars_of("Projetos/Sandbox"));
            p.category_label = Some(string_of(&chars_of("Sandbox")));
        }
    }
    p
}

/// The category the advisor's suggestion designates, when it names a known category.
fn advisor_category(
    sug: &crate::ollama::AdvisorSuggestion,
    config: &crate::taxonomy::TaxonomyConfig,
) -> (r: Option<crate::taxonomy::TaxonomyCategory>)
    ensures
        match r {
            Some(c) => advisor_suggestion(*sug, config@) == Some(c@),
            None => advisor_suggestion(*sug, config@) is None,
        },
{
    let sid = chars_of(sug.category_id.as_str());
    let ghost cs = config@.categories;
    let mut k: usize = 0;
    assert(cs.subrange(0, cs.len() as int) == cs);
    while k < config.categories.len()
        invariant
            k <= config.categories.len(),
            cs == config@.categories,
            cs.len() == config.categories@.len(),
            sid@ == sug.category_id@,
            cat_of_id(cs, sid@) == cat_of_id(cs.subrange(k as int, cs.len() as int), sid@),
        decreases config.categories.len() - k,
    {
        let ghost rest = cs.subrange(k as int, cs.len() as int);
        assert(rest[0] == config.categories@[k as int]@);
        assert(rest.drop_first() == cs.subrange(k + 1, cs.len() as int));
        let cid = chars_of(config.categories[k].id.as_str());
        if crate::text::seq_eq(&cid, &sid) {
            let c = &config.categories[k];
            let low = sug.confidence_bp < 7000;
            let mut reason = chars_of(sug.reason.as_str());
            append_lit(&mut reason, " | Sugerido por Ollama Advisor");
            let mut rules: Vec<String> = Vec::new();
            rules.push(string_of(&chars_of("ollama_advisor")));
            let r = crate::taxonomy::TaxonomyCategory {
                id: c.id.clone(),
                label: c.label.clone(),
                relative_dir: c.dir.clone(),
                confidence_bp: sug.confidence_bp,
                risk: string_of(&chars_of(if low { "medium" } else { "low" })),
                needs_review: low,
                reason: string_of(&reason),
                rules_applied: rules,
                matched_keywords: Vec::new(),
                candidate_categories: None,
                already_organized: false,
            };
            assert(strs(r.rules_applied@) == seq!["ollama_advisor"@]);
            assert(strs(r.matched_keywords@) == Seq::<Seq<char>>::empty());
            assert(cat_of_id(cs, sid@) == Some(config.categories@[k as int]@));
            return Some(r);
        }
        k += 1;
    }
    assert(cs.subrange(k as int, cs.len() as int).len() == 0);
    None
}

/// The proposal for moving a file to the category the taxonomy chose.
fn taxonomy_proposal(
    file: &FileMetadata,
    cat: crate::taxonomy::TaxonomyCategory,
    profile: &String,
) -> (p: PlanProposal)
    ensures
        taxonomy_base(p, *file, cat@, profile@),
        !p.already_organized,
{
    let mut evidence: Vec<String> = Vec::new();
    evidence.push(type_evidence_exec(&file.extension, &file.mime));
    assert(strs(evidence@) == seq![type_evidence(file.extension@, file.mime@)]);
    let pc = chars_of(file.path.as_str());
    let needs_review = cat.needs_review || contains_lit(&pc, "Obsidian Vault");
    PlanProposal {
        action: string_of(&chars_of("move")),
        risk: cat.risk,
        confidence_bp: cat.confidence_bp,
        old_path: file.path.clone(),
        source: file.path.clone(),
        new_dir: cat.relative_dir.clone(),
        destination: String::new(),
        reason: cat.reason.clone(),
        evidence,
        needs_review,
        protected: false,
        new_filename: None,
        rules_applied: Some(cat.rules_applied),
        naming_profile: None,
        category_id: Some(cat.id),
        category_label: Some(cat.label),
        category_dir: Some(cat.relative_dir),
        taxonomy_score_bp: Some(cat.confidence_bp),
        matched_keywords: Some(cat.matched_keywords),
        taxonomy_reason: Some(cat.reason),
        taxonomy_profile: Some(profile.clone()),
        candidate_categories: cat.candidate_categories,
        already_organized: false,
        is_project: Some(false),
        project_markers: None,
        project_file_count: None,
        project_total_size: None,
        decision_class: DecisionClass::NeedsHumanReview,
        auto_apply_allowed: false,
        blocked_from_apply: false,
        staging_only: false,
        confidence_breakdown: None,
        content_profile: None,
        context_profile: None,
        project_evidence: None,
        safety_flags: Vec::new(),
        rollback_hint: None,
    }
}

/// Folds a rename suggestion into a move proposal.
fn apply_rename(p: &mut PlanProposal, s: crate::naming::RenameSuggestion)
    requires
        s.confidence_pct <= 100,
    ensures
        rename_applied(*old(p), *final(p), s@),
        old(p).confidence_bp <= 10000 ==> final(p).confidence_bp <= 10000,
{
    let ghost sv = s@;
    p.action = string_of(&chars_of("rename"));
    p.new_filename = Some(s.suggested_filename);
    let mut rules = match &p.rules_applied {
        Some(r) => copy_strings(r),
        None => Vec::new(),
    };
    let ghost r0 = strs(rules@);
    assert(r0 == match opt_strs(old(p).rules_applied) {
        Some(r) => r,
        None => Seq::<Seq<char>>::empty(),
    });
    let mut k: usize = 0;
    while k < s.rules_applied.len()
        invariant
            k <= s.rules_applied.len(),
            strs(rules@) == r0 + strs(s.rules_applied@).take(k as int),
        decreases s.rules_applied.len() - k,
    {
        let ghost before = strs(rules@);
        rules.push(s.rules_applied[k].clone());
        assert(strs(rules@) == before.push(s.rules_applied@[k as int]@));
        assert(strs(s.rules_applied@).take(k + 1) == strs(s.rules_applied@).take(k as int).push(s.rules_applied@[k as int]@));
        k += 1;
    }
    assert(strs(s.rules_applied@).take(k as int) == strs(s.rules_applied@));
    p.rules_applied = Some(rules);
    p.naming_profile = Some(s.naming_profile);
    p.needs_review = p.needs_review || s.needs_review;
    let sr = chars_of(s.risk.as_str());
    let pr = chars_of(p.risk.as_str());
    if eq_lit(&sr, "high") {
        p.risk = string_of(&chars_of("high"));
    } else if eq_lit(&sr, "medium") && eq_lit(&pr, "low") {
        p.risk = string_of(&chars_of("medium"));
    }
    p.confidence_bp = ((p.confidence_bp as u64 + s.confidence_pct as u64 * 100) / 2) as u32;
    let mut reason = chars_of("Move: ");
    append_str(&mut reason, &p.reason);
    append_lit(&mut reason, " | Rename: ");
    append_str(&mut reason, &s.reason);
    p.reason = string_of(&reason);
}


/// What a generated plan states of its scan (the contract of `generate_plan`).
pub open spec fn plan_ok(
    plan: Plan,
    scan: crate::scanner::ScanResult,
    options: PlanOptions,
    cfg: crate::taxonomy::TaxonomySpec,
    advisor: Seq<Option<crate::ollama::AdvisorSuggestion>>,
) -> bool {
    &&& (plan.run_id == scan.run_id)
    &&& (plan.mode@ == "dry-run"@)
    &&& (plan.home_dir == scan.home_dir)
    &&& (plan.files_seen == scan.files_analyzed)
    &&& (plan.projects_seen == scan.projects@.len())
    &&& (plan.content_aware == options.content_aware)
    &&& (plan.context_aware == options.context_aware)
    &&& (plan.full_home == scan.full_home)
    &&& (plan.schema_version@ == "1.0"@)
    &&& (meta_paths(plan.protected_files@) == protected_project_paths(scan.projects@) + (if options.projects_only {
        Seq::empty()
    } else {
        withheld_paths(scan.files@)
    }))
    &&& (options.limit matches Some(l) ==> plan.proposals@.len() <= l)
    &&& (forall|k: int| 0 <= k < plan.proposals@.len() ==> #[trigger] plan_proposal_ok(
        plan.proposals@[k],
        scan,
        options,
        cfg,
        advisor,
    ))
    &&& (options.limit is None && !options.safe_only && !options.review_only ==> {
        &&& forall|j: int| 0 <= j < scan.projects@.len() && #[trigger] project_due(
            scan.projects@[j],
            scan.home_dir@,
            cfg,
        ) ==> proposed(plan.proposals@, scan.projects@[j].root_path@)
        &&& !options.projects_only ==> forall|i: int| 0 <= i < scan.files@.len() && #[trigger] file_due(
            scan.files@[i],
            i,
            options,
            cfg,
            advisor,
            scan.home_dir@,
        ) ==> proposed(plan.proposals@, scan.files@[i].path@)
    })
    &&& (plan.protected_files@.len() == protected_project_count(scan.projects@) + (if options.projects_only {
        0
    } else {
        withheld_count(scan.files@)
    }))
    &&& (exists|
        pj: Seq<Option<PlanProposal>>,
        pw: Seq<ProjectSteps>,
        cand: Seq<Option<PlanProposal>>,
        fi: Seq<Option<PlanProposal>>,
        fw: Seq<FileSteps>,
    |
        #[trigger] plan_structure(plan.proposals@, scan, options, cfg, advisor, pj, pw, cand, fi, fw))
}

/// The plan's proposal for the file at index `i` of the scan, one that
/// reaches classification: the classifier's proposal, renamed when asked for,
/// assessed, and kept when it passes the filters; with the proposal before
/// the filters and the steps that led to it.
#[verifier::spinoff_prover]
#[verifier::rlimit(60)]
fn plan_file(
    scan: &crate::scanner::ScanResult,
    i: usize,
    options: &PlanOptions,
    taxonomy_config: &crate::taxonomy::TaxonomyConfig,
    advisor: &Vec<Option<crate::ollama::AdvisorSuggestion>>,
) -> (r: (Option<PlanProposal>, Ghost<(Option<PlanProposal>, FileSteps)>))
    requires
        i < scan.files@.len(),
        !options.projects_only,
        plan_inputs_ok(*scan, *options),
        plan_candidate(scan.files@[i as int], *options),
    ensures
        file_slot_ok(r.1@.0, r.0, r.1@.1, scan.files@[i as int], i as int, *options, taxonomy_config@, advisor@, scan.home_dir@),
        r.0 matches Some(p) ==> plan_proposal_ok(p, *scan, *options, taxonomy_config@, advisor@),
{
    let file = &scan.files[i];
    let ghost adv_ok = advisor_bounded(advisor@);
    let hc = chars_of(scan.home_dir.as_str());
    let maybe = if options.taxonomy_suggestions {
        let mut from_advisor: Option<crate::taxonomy::TaxonomyCategory> = None;
        if options.ollama && i < advisor.len() {
            match &advisor[i] {
                Some(sug) => {
                    from_advisor = advisor_category(sug, taxonomy_config);
                },
                None => {},
            }
        }
        assert(from_advisor matches Some(c) ==> advisor_pick(i as int, *options, taxonomy_config@, advisor@) == Some(c@));
        assert(from_advisor is None ==> advisor_pick(i as int, *options, taxonomy_config@, advisor@) is None);
        let cat = match from_advisor {
            Some(c) => c,
            None => crate::taxonomy::suggest_category_config(file, taxonomy_config),
        };
        assert(cat@ == chosen_category(*file, i as int, *options, taxonomy_config@, advisor@));
        assert(file_dir(*file, i as int, *options, taxonomy_config@, advisor@) == Some(cat.relative_dir@));
        assert(adv_ok ==> cat.confidence_bp <= 10000);
        Some(taxonomy_proposal(file, cat, &taxonomy_config.profile))
    } else {
        classify_file(file)
    };
    assert(maybe matches Some(p) ==> file_dir(*file, i as int, *options, taxonomy_config@, advisor@) == Some(p.new_dir@));
    assert(maybe matches Some(p) ==> (if options.taxonomy_suggestions {
        taxonomy_base(p, *file, chosen_category(*file, i as int, *options, taxonomy_config@, advisor@), taxonomy_config@.profile)
    } else {
        classify_base(p, *file)
    }));
    assert(maybe is None ==> file_dir(*file, i as int, *options, taxonomy_config@, advisor@) is None);
    let mut proposal = match maybe {
        Some(p) => p,
        None => {
            return (None, Ghost((None, no_file_steps())));
        },
    };
    let ghost dir = proposal.new_dir@;
    assert(proposal.old_path@ == file.path@);
    assert(adv_ok ==> proposal.confidence_bp <= 10000);
    assert(proposal.action@ == "move"@);
    let expected = join_path_exec(&hc, &chars_of(proposal.new_dir.as_str()));
    let fc_ = chars_of(file.path.as_str());
    let in_correct_dir = crate::paths::parent_is(&fc_, &expected);
    assert(in_correct_dir == in_place(file.path@, scan.home_dir@, dir));
    proposal.already_organized = in_correct_dir;
    let ghost base = proposal;
    assert(file_base_ok(base, *file, i as int, *options, taxonomy_config@, advisor@, scan.home_dir@));
    let ghost mut rn: Option<crate::naming::RenameSpec> = None;
    let mut has_rename = false;
    if options.rename_suggestions {
        let sr = crate::naming::suggest_rename(file);
        proof {
            rn = if sr is Some { Some(sr->0@) } else { None };
        }
        match sr {
            Some(sug) => {
                let sf = chars_of(sug.suggested_filename.as_str());
                let ff = chars_of(file.filename.as_str());
                if !crate::text::seq_eq(&sf, &ff) {
                    assert(sug.confidence_pct <= 80);
                    apply_rename(&mut proposal, sug);
                    has_rename = true;
                }
            },
            None => {},
        }
    }
    let ghost mut w = FileSteps { base: base, rename: rn, renamed: proposal, dest_exists: false, detected: None };
    assert(has_rename == renames(*file, w, *options));
    assert(options.rename_suggestions ==> crate::naming::rename_possible(*file, rn));
    assert(if has_rename { rename_applied(base, proposal, rn->0) } else { proposal == base });
    assert(proposal.action@ == "move"@ || proposal.action@ == "rename"@);
    assert(has_rename ==> proposal.action@ == "rename"@);
    assert(!has_rename ==> proposal.action@ == "move"@);
    if in_correct_dir && !has_rename {
        return (None, Ghost((None, w)));
    }
    let ghost p0 = proposal;
    enrich_and_classify_proposal(&mut proposal, Some(file), None, scan.home_dir.as_str());
    proof {
        let (de, dt) = choose|dest_exists: bool, detected: Option<Seq<Seq<char>>>| enriched(
            p0, proposal, Some(*file), None,
            #[trigger] assess(p0, Some(*file), None, scan.home_dir@, dest_exists, detected), detected)
            && detected_ok(p0.old_path@, Some(*file), None, detected);
        w = FileSteps { base: base, rename: rn, renamed: p0, dest_exists: de, detected: dt };
        assert(keeps_plan_fields(p0, proposal));
        assert(proposal.action == p0.action);
        assert(proposal.new_dir@ == dir);
        reveal_strlit("move");
        reveal_strlit("rename");
        reveal_strlit("move_project");
        assert(p0.action@ == "move"@ || p0.action@ == "rename"@);
        assert("move"@.len() == 4 && "rename"@.len() == 6 && "move_project"@.len() == 12);
        assert(p0.action@ != "move_project"@);
        if adv_ok {
            lemma_never_auto_certified(p0, Some(*file), None, scan.home_dir@, de, dt);
        }
    }
    proof {
        reveal_strlit("move");
        reveal_strlit("rename");
        assert(proposal.already_organized == in_correct_dir);
        assert(proposal.new_dir@ == dir);
        assert(proposal.old_path@ == file.path@);
        assert(file_dir(*file, i as int, *options, taxonomy_config@, advisor@) == Some(dir));
        assert(proposal.action@ == "move"@ || proposal.action@ == "rename"@);
    }
    let risk = chars_of(proposal.risk.as_str());
    let rejected = (options.safe_only && (eq_lit(&risk, "high") || proposal.needs_review || proposal.blocked_from_apply))
        || (options.review_only && !proposal.needs_review);
    assert(rejected == !passes_filters(proposal, *options));
    if rejected {
        assert(file_slot_ok(Some(proposal), None, w, *file, i as int, *options, taxonomy_config@, advisor@, scan.home_dir@));
        return (None, Ghost((Some(proposal), w)));
    }
    proof {
        assert(scan.files@[i as int].path@ == proposal.old_path@);
        reveal_strlit("move");
        reveal_strlit("rename");
        reveal_strlit("move_project");
        assert(proposal.action@ != "move_project"@);
        assert(file_dir(scan.files@[i as int], i as int, *options, taxonomy_config@, advisor@) == Some(proposal.new_dir@));
        assert(proposal_origin(proposal, *scan, *options, taxonomy_config@, advisor@));
        assert(proposal.source@ == proposal.old_path@);
        assert(adv_ok ==> proposal.decision_class != DecisionClass::AutoMoveCertified);
    }
    assert(plan_proposal_ok(proposal, *scan, *options, taxonomy_config@, advisor@));
    assert(file_slot_ok(Some(proposal), Some(proposal), w, *file, i as int, *options, taxonomy_config@, advisor@, scan.home_dir@));
    let ghost c = Some(proposal);
    (Some(proposal), Ghost((c, w)))
}

/// Generates the dry-run organization plan for a scan: projects first (unless
/// protected), then loose files (unless `projects_only`), each classified by
/// the taxonomy (optionally by the advisor's suggestions, given per file in
/// `advisor`) or by MIME type, optionally renamed, assessed for safety and
/// filtered; protected and project-member files are listed, masked, instead.
/// Nothing on disk is changed.
#[verifier::spinoff_prover]
#[verifier::rlimit(40)]
pub fn generate_plan(
    scan: &crate::scanner::ScanResult,
    options: &PlanOptions,
    taxonomy_config: &crate::taxonomy::TaxonomyConfig,
    advisor: &Vec<Option<crate::ollama::AdvisorSuggestion>>,
) -> (plan: Plan)
    requires
        plan_inputs_ok(*scan, *options),
    ensures
        plan.run_id == scan.run_id,
        plan.mode@ == "dry-run"@,
        plan.home_dir == scan.home_dir,
        plan.files_seen == scan.files_analyzed,
        plan.projects_seen == scan.projects@.len(),
        plan.content_aware == options.content_aware,
        plan.context_aware == options.context_aware,
        plan.full_home == scan.full_home,
        plan.schema_version@ == "1.0"@,
        meta_paths(plan.protected_files@) == protected_project_paths(scan.projects@) + (if options.projects_only {
            Seq::empty()
        } else {
            withheld_paths(scan.files@)
        }),
        options.limit matches Some(l) ==> plan.proposals@.len() <= l,
        forall|k: int| 0 <= k < plan.proposals@.len() ==> #[trigger] plan_proposal_ok(
            plan.proposals@[k],
            *scan,
            *options,
            taxonomy_config@,
            advisor@,
        ),
        options.limit is None && !options.safe_only && !options.review_only ==> {
            &&& forall|j: int| 0 <= j < scan.projects@.len() && #[trigger] project_due(
                scan.projects@[j],
                scan.home_dir@,
                taxonomy_config@,
            ) ==> proposed(plan.proposals@, scan.projects@[j].root_path@)
            &&& !options.projects_only ==> forall|i: int| 0 <= i < scan.files@.len() && #[trigger] file_due(
                scan.files@[i],
                i,
                *options,
                taxonomy_config@,
                advisor@,
                scan.home_dir@,
            ) ==> proposed(plan.proposals@, scan.files@[i].path@)
        },
        plan.protected_files@.len() == protected_project_count(scan.projects@) + (if options.projects_only {
            0
        } else {
            withheld_count(scan.files@)
        }),
        exists|
            pj: Seq<Option<PlanProposal>>,
            pw: Seq<ProjectSteps>,
            cand: Seq<Option<PlanProposal>>,
            fi: Seq<Option<PlanProposal>>,
            fw: Seq<FileSteps>,
        |
            #[trigger] plan_structure(plan.proposals@, *scan, *options, taxonomy_config@, advisor@, pj, pw, cand, fi, fw),
{
    let mut proposals: Vec<PlanProposal> = Vec::new();
    let ghost mut pj: Seq<Option<PlanProposal>> = Seq::empty();
    let ghost mut pw: Seq<ProjectSteps> = Seq::empty();
    let mut protected_files: Vec<FileMetadata> = Vec::new();
    let ghost adv_ok = advisor_bounded(advisor@);
    let hc = chars_of(scan.home_dir.as_str());

    let mut j: usize = 0;
    assert(meta_paths(protected_files@) == Seq::<Seq<char>>::empty());
    while j < scan.projects.len()
        invariant
            j <= scan.projects.len(),
            hc@ == scan.home_dir@,
            adv_ok == advisor_bounded(advisor@),
            meta_paths(protected_files@) == protected_project_paths(scan.projects@.subrange(0, j as int)),
            forall|k: int| 0 <= k < proposals@.len() ==> #[trigger] plan_proposal_ok(proposals@[k], *scan, *options, taxonomy_config@, advisor@),
            forall|jj: int| 0 <= jj < j && #[trigger] project_due(scan.projects@[jj], scan.home_dir@, taxonomy_config@)
                ==> proposed(proposals@, scan.projects@[jj].root_path@),
            pj.len() == j,
            pw.len() == j,
            forall|jj: int| 0 <= jj < j ==> #[trigger] project_slot_ok(pj[jj], pw[jj], scan.projects@[jj], scan.home_dir@, taxonomy_config@),
            proposals@ == somes(pj),
        decreases scan.projects.len() - j,
    {
        let project = &scan.projects[j];
        assert(scan.projects@.subrange(0, j + 1).drop_last() == scan.projects@.subrange(0, j as int));
        assert(scan.projects@.subrange(0, j + 1).last() == *project);
        match is_protected_path(project.root_path.as_str()) {
            Some(reason) => {
                let rc = chars_of(project.root_path.as_str());
                let fake = FileMetadata {
                    path: project.root_path.clone(),
                    filename: project.name.clone(),
                    extension: String::new(),
                    mime: string_of(&chars_of("inode/directory")),
                    size_bytes: project.total_size_bytes,
                    modified_at: None,
                    is_dir: true,
                    is_file: false,
                    is_symlink: false,
                    is_hidden: contains_lit(&rc, "/."),
                    is_project_member: true,
                    project_root: Some(project.root_path.clone()),
                    source_zone: None,
                    readable: true,
                    content_sampled: false,
                    metadata_only: true,
                    protected_reason: Some(reason),
                    warnings: Vec::new(),
                    content: None,
                    context: None,
                    status: FileStatus::Analyzed,
                };
                let ghost before = meta_paths(protected_files@);
                protected_files.push(fake);
                assert(meta_paths(protected_files@) == before.push(project.root_path@));
                proof {
                    assert(!project_due(*project, scan.home_dir@, taxonomy_config@));
                    let w = ProjectSteps { base: arbitrary(), dest_exists: false, detected: None };
                    lemma_pslots_push(pj, pw, None, w, *scan, taxonomy_config@);
                    pj = pj.push(None);
                    pw = pw.push(w);
                }
            },
            None => {
                let mut proposal = project_proposal(project, taxonomy_config);
                let ghost p0 = proposal;
                enrich_and_classify_proposal(&mut proposal, None, Some(project), scan.home_dir.as_str());
                let ghost mut w = ProjectSteps { base: p0, dest_exists: false, detected: None };
                proof {
                    let (de, dt) = choose|dest_exists: bool, detected: Option<Seq<Seq<char>>>| enriched(
                        p0, proposal, None, Some(*project),
                        #[trigger] assess(p0, None, Some(*project), scan.home_dir@, dest_exists, detected), detected)
                        && detected_ok(p0.old_path@, None, Some(*project), detected);
                    w = ProjectSteps { base: p0, dest_exists: de, detected: dt };
                    let a = assess(p0, None, Some(*project), scan.home_dir@, de, dt);
                    assert(a.is_project);
                    assert(proposal.decision_class == DecisionClass::BlockedUnsafe);
                    assert(proposal.new_dir == p0.new_dir && proposal.old_path == p0.old_path);
                }
                let expected = join_path_exec(&hc, &chars_of(proposal.new_dir.as_str()));
                let rc = chars_of(project.root_path.as_str());
                let in_correct_dir = crate::paths::parent_is(&rc, &expected);
                proposal.already_organized = in_correct_dir;
                if !in_correct_dir {
                    proof {
                        assert(scan.projects@[j as int].root_path@ == proposal.old_path@);
                    }
                    assert(plan_proposal_ok(proposal, *scan, *options, taxonomy_config@, advisor@));
                    proof {
                        lemma_proposed_push(proposals@, proposal);
                        assert(project_slot_ok(Some(proposal), w, *project, scan.home_dir@, taxonomy_config@));
                        lemma_pslots_push(pj, pw, Some(proposal), w, *scan, taxonomy_config@);
                        pj = pj.push(Some(proposal));
                        pw = pw.push(w);
                    }
                    proposals.push(proposal);
                } else {
                    proof {
                        assert(!project_due(*project, scan.home_dir@, taxonomy_config@));
                        lemma_pslots_push(pj, pw, None, w, *scan, taxonomy_config@);
                        pj = pj.push(None);
                        pw = pw.push(w);
                    }
                }
            },
        }
        j += 1;
    }
    assert(scan.projects@.subrange(0, scan.projects.len() as int) == scan.projects@);
    let ghost after_projects = meta_paths(protected_files@);
    let ghost mut cand: Seq<Option<PlanProposal>> = Seq::empty();
    let ghost mut fi: Seq<Option<PlanProposal>> = Seq::empty();
    let ghost mut fw: Seq<FileSteps> = Seq::empty();
    let ghost pjf = pj;
    assert(proposals@ == somes(pj) + somes(fi));

    if !options.projects_only {
        let mut i: usize = 0;
        assert(withheld_paths(scan.files@.subrange(0, 0)) == Seq::<Seq<char>>::empty());
        assert(after_projects + Seq::<Seq<char>>::empty() == after_projects);
        while i < scan.files.len()
            invariant
                i <= scan.files.len(),
                !options.projects_only,
                hc@ == scan.home_dir@,
                adv_ok == advisor_bounded(advisor@),
                plan_inputs_ok(*scan, *options),
                after_projects == protected_project_paths(scan.projects@),
                meta_paths(protected_files@) == after_projects + withheld_paths(scan.files@.subrange(0, i as int)),
                forall|k: int| 0 <= k < proposals@.len() ==> #[trigger] plan_proposal_ok(proposals@[k], *scan, *options, taxonomy_config@, advisor@),
                forall|jj: int| 0 <= jj < scan.projects@.len() && #[trigger] project_due(scan.projects@[jj], scan.home_dir@, taxonomy_config@)
                    ==> proposed(proposals@, scan.projects@[jj].root_path@),
                pjf == pj,
                cand.len() == i,
                fi.len() == i,
                fw.len() == i,
                forall|ii: int| 0 <= ii < i ==> #[trigger] file_slot_ok(
                    cand[ii],
                    fi[ii],
                    fw[ii],
                    scan.files@[ii],
                    ii,
                    *options,
                    taxonomy_config@,
                    advisor@,
                    scan.home_dir@,
                ),
                proposals@ == somes(pj) + somes(fi),
                !options.safe_only && !options.review_only ==> forall|ii: int| 0 <= ii < i && #[trigger] file_due(
                    scan.files@[ii],
                    ii,
                    *options,
                    taxonomy_config@,
                    advisor@,
                    scan.home_dir@,
                ) ==> proposed(proposals@, scan.files@[ii].path@),
            decreases scan.files.len() - i,
        {
            let file = &scan.files[i];
            assert(scan.files@.subrange(0, i + 1).drop_last() == scan.files@.subrange(0, i as int));
            assert(scan.files@.subrange(0, i + 1).last() == *file);
            if file.status != FileStatus::Analyzed {
                proof {
                    lemma_slots_push(cand, fi, fw, None, None, no_file_steps(), *scan, *options, taxonomy_config@, advisor@);
                    lemma_somes_push(fi, None);
                    cand = cand.push(None);
                    fi = fi.push(None);
                    fw = fw.push(no_file_steps());
                }
                i += 1;
                continue;
            }
            if file.metadata_only || file.protected_reason.is_some() || file.is_project_member {
                let path = match &file.protected_reason {
                    Some(reason) => mask_protected_path(file.path.as_str(), reason.as_str()),
                    None => file.path.clone(),
                };
                let ghost before = meta_paths(protected_files@);
                protected_files.push(withheld_copy(file, path));
                assert(meta_paths(protected_files@) == before.push(withheld_path(*file)));
                proof {
                    lemma_slots_push(cand, fi, fw, None, None, no_file_steps(), *scan, *options, taxonomy_config@, advisor@);
                    lemma_somes_push(fi, None);
                    cand = cand.push(None);
                    fi = fi.push(None);
                    fw = fw.push(no_file_steps());
                }
                i += 1;
                continue;
            }
            if file.size_bytes > 2147483648 && !options.include_large_files {
                proof {
                    lemma_slots_push(cand, fi, fw, None, None, no_file_steps(), *scan, *options, taxonomy_config@, advisor@);
                    lemma_somes_push(fi, None);
                    cand = cand.push(None);
                    fi = fi.push(None);
                    fw = fw.push(no_file_steps());
                }
                i += 1;
                continue;
            }
            assert(plan_candidate(*file, *options));
            let (kept, Ghost(steps)) = plan_file(scan, i, options, taxonomy_config, advisor);
            proof {
                let (c, w) = steps;
                lemma_slots_push(cand, fi, fw, c, kept, w, *scan, *options, taxonomy_config@, advisor@);
                lemma_somes_push(fi, kept);
                cand = cand.push(c);
                fi = fi.push(kept);
                fw = fw.push(w);
            }
            match kept {
                Some(proposal) => {
                    proof {
                        lemma_proposed_push(proposals@, proposal);
                        assert((somes(pj) + somes(fi).drop_last()).push(proposal) =~= somes(pj) + somes(fi));
                    }
                    proposals.push(proposal);
                },
                None => {
                    assert(somes(pj) + somes(fi) =~= somes(pj) + somes(fi));
                },
            }
            i += 1;
        }
        assert(scan.files@.subrange(0, scan.files.len() as int) == scan.files@);
    } else {
        proof {
            cand = Seq::new(scan.files@.len(), |k: int| None::<PlanProposal>);
            fi = Seq::new(scan.files@.len(), |k: int| None::<PlanProposal>);
            fw = Seq::new(scan.files@.len(), |k: int| no_file_steps());
            lemma_somes_none(fi);
            assert(somes(pj) + somes(fi) =~= somes(pj));
            assert forall|ii: int| 0 <= ii < fi.len() implies #[trigger] file_slot_ok(
                cand[ii],
                fi[ii],
                fw[ii],
                scan.files@[ii],
                ii,
                *options,
                taxonomy_config@,
                advisor@,
                scan.home_dir@,
            ) by {}
        }
    }

    let ghost before_limit = proposals@;
    if let Some(l) = options.limit {
        if proposals.len() > l {
            proposals.truncate(l);
        }
    }
    assert(forall|k: int| 0 <= k < proposals@.len() ==> proposals@[k] == before_limit[k]);
    proof {
        if let Some(l) = options.limit {
            if before_limit.len() > l {
                assert(proposals@ =~= before_limit.take(l as int));
            }
        }
        assert(plan_structure(proposals@, *scan, *options, taxonomy_config@, advisor@, pj, pw, cand, fi, fw));
        lemma_protected_counts(scan.projects@, scan.files@);
        assert(protected_files@.len() == meta_paths(protected_files@).len());
    }

    let plan = Plan {
        schema_version: string_of(&chars_of("1.0")),
        run_id: scan.run_id.clone(),
        mode: string_of(&chars_of("dry-run")),
        home_dir: scan.home_dir.clone(),
        files_seen: scan.files_analyzed,
        projects_seen: scan.projects.len(),
        proposals,
        protected_files,
        content_aware: options.content_aware,
        context_aware: options.context_aware,
        full_home: scan.full_home,
    };
    assert(plan_structure(plan.proposals@, *scan, *options, taxonomy_config@, advisor@, pj, pw, cand, fi, fw));
    plan
}

/// The plan for a scan when plan generation is defined on it
/// (`plan_inputs_ok`: every file that reaches the check of its current
/// directory has a parent directory); `None` otherwise.
pub fn generate_plan_checked(
    scan: &crate::scanner::ScanResult,
    options: &PlanOptions,
    taxonomy_config: &crate::taxonomy::TaxonomyConfig,
    advisor: &Vec<Option<crate::ollama::AdvisorSuggestion>>,
) -> (r: Option<Plan>)
    ensures
        r is Some <==> plan_inputs_ok(*scan, *options),
        r matches Some(plan) ==> plan_ok(plan, *scan, *options, taxonomy_config@, advisor@),
{
    if plan_inputs_valid(scan, options) {
        Some(generate_plan(scan, options, taxonomy_config, advisor))
    } else {
        None
    }
}

/// Whether a file reaches the classification step of the plan (`plan_candidate`).
pub fn is_plan_candidate(f: &FileMetadata, options: &PlanOptions) -> (b: bool)
    ensures
        b == plan_candidate(*f, *options),
{
    f.status == FileStatus::Analyzed && !f.metadata_only && f.protected_reason.is_none() && !f.is_project_member
        && (f.size_bytes <= 2147483648 || options.include_large_files)
}

/// The MIME classification sends media and PDFs to their folders: an
/// `image/` type to `Midia/Imagens`, a `video/` type to `Midia/Videos`, an
/// `audio/` type to `Midia/Audio`, and `application/pdf` to
/// `Documentos/Revisar`, whatever the extension.
pub proof fn lemma_media_destinations(m: Seq<char>, e: Seq<char>)
    ensures
        starts(m, "image/"@) ==> mime_class(m, e).dir == "Midia/Imagens"@,
        starts(m, "video/"@) ==> mime_class(m, e).dir == "Midia/Videos"@,
        starts(m, "audio/"@) ==> mime_class(m, e).dir == "Midia/Audio"@,
        m == "application/pdf"@ ==> mime_class(m, e).dir == "Documentos/Revisar"@,
{
    reveal_strlit("image/");
    reveal_strlit("video/");
    reveal_strlit("audio/");
    reveal_strlit("text/");
    reveal_strlit("application/pdf");
    reveal_strlit("application/vnd.openxmlformats-officedocument.wordprocessingml.document");
    reveal_strlit("application/msword");
    reveal_strlit("application/vnd.openxmlformats-officedocument.spreadsheetml.sheet");
    reveal_strlit("application/vnd.ms-excel");
    if starts(m, "image/"@) || starts(m, "video/"@) || starts(m, "audio/"@) {
        assert(m[1] == m.subrange(0, 6)[1]);
        assert(m[1] != 'p');
        assert("application/pdf"@[1] == 'p' && "application/msword"@[1] == 'p' && "application/vnd.ms-excel"@[1] == 'p');
        assert("application/vnd.openxmlformats-officedocument.wordprocessingml.document"@[1] == 'p');
        assert("application/vnd.openxmlformats-officedocument.spreadsheetml.sheet"@[1] == 'p');
        assert(!starts(m, "text/"@)) by {
            if starts(m, "text/"@) {
                assert(m.subrange(0, 5)[0] == 't');
            }
        }
        if starts(m, "video/"@) || starts(m, "audio/"@) {
            assert(!starts(m, "image/"@)) by {
                if starts(m, "image/"@) {
                    assert(m.subrange(0, 6)[0] == 'i');
                }
            }
        }
        if starts(m, "audio/"@) {
            assert(!starts(m, "video/"@)) by {
                if starts(m, "video/"@) {
                    assert(m.subrange(0, 6)[0] == 'v');
                }
            }
        }
    }
}

/// An unrecognised MIME type leaves the decision to the extension, which
/// sends images, videos and audio to their media folders and PDFs to
/// document review.
pub proof fn lemma_extension_decides(e: Seq<char>)
    ensures
        mime_class("application/octet-stream"@, e).dir == ext_class(e).dir,
        !(e == "iso"@ || e == "img"@ || e == "appimage"@ || e == "run"@ || e == "bin"@) ==> mime_class(
            "application/octet-stream"@,
            e,
        ) == ext_class(e),
        (e == "jpg"@ || e == "jpeg"@ || e == "png"@ || e == "gif"@ || e == "webp"@) ==> ext_class(e).dir
            == "Midia/Imagens"@,
        (e == "mp4"@ || e == "mkv"@ || e == "avi"@ || e == "mov"@ || e == "webm"@) ==> ext_class(e).dir
            == "Midia/Videos"@,
        (e == "mp3"@ || e == "flac"@ || e == "ogg"@ || e == "wav"@) ==> ext_class(e).dir == "Midia/Audio"@,
        e == "pdf"@ ==> ext_class(e).dir == "Documentos/Revisar"@,
{
    let m = "application/octet-stream"@;
    reveal_strlit("application/octet-stream");
    reveal_strlit("application/pdf");
    reveal_strlit("application/msword");
    reveal_strlit("application/vnd.ms-excel");
    reveal_strlit("application/vnd.openxmlformats-officedocument.wordprocessingml.document");
    reveal_strlit("application/vnd.openxmlformats-officedocument.spreadsheetml.sheet");
    reveal_strlit("application/x-iso9660-image");
    reveal_strlit("application/x-executable");
    reveal_strlit("application/x-sharedlib");
    reveal_strlit("application/zip");
    reveal_strlit("application/x-tar");
    reveal_strlit("application/gzip");
    reveal_strlit("application/x-7z-compressed");
    reveal_strlit("application/x-rar-compressed");
    reveal_strlit("application/x-bzip2");
    reveal_strlit("application/x-xz");
    reveal_strlit("application/zstd");
    reveal_strlit("text/");
    reveal_strlit("image/");
    reveal_strlit("video/");
    reveal_strlit("audio/");
    reveal_strlit("iso");
    reveal_strlit("img");
    reveal_strlit("appimage");
    reveal_strlit("run");
    reveal_strlit("bin");
    reveal_strlit("pdf");
    reveal_strlit("doc");
    reveal_strlit("docx");
    reveal_strlit("odt");
    reveal_strlit("xls");
    reveal_strlit("xlsx");
    reveal_strlit("ods");
    reveal_strlit("ppt");
    reveal_strlit("pptx");
    reveal_strlit("odp");
    reveal_strlit("jpg");
    reveal_strlit("jpeg");
    reveal_strlit("png");
    reveal_strlit("gif");
    reveal_strlit("webp");
    reveal_strlit("svg");
    reveal_strlit("bmp");
    reveal_strlit("tiff");
    reveal_strlit("ico");
    reveal_strlit("heic");
    reveal_strlit("mp4");
    reveal_strlit("mkv");
    reveal_strlit("avi");
    reveal_strlit("mov");
    reveal_strlit("wmv");
    reveal_strlit("flv");
    reveal_strlit("webm");
    reveal_strlit("mp3");
    reveal_strlit("flac");
    reveal_strlit("ogg");
    reveal_strlit("wav");
    reveal_strlit("m4a");
    reveal_strlit("aac");
    reveal_strlit("opus");
    reveal_strlit("wma");
    reveal_strlit("zip");
    reveal_strlit("tar");
    reveal_strlit("gz");
    reveal_strlit("bz2");
    reveal_strlit("xz");
    reveal_strlit("7z");
    reveal_strlit("rar");
    reveal_strlit("zst");
    assert("pdf"@[0] == 'p' && "pdf"@[1] == 'd' && "pdf"@[2] == 'f');
    assert("doc"@[0] == 'd' && "doc"@[1] == 'o' && "doc"@[2] == 'c');
    assert("docx"@[0] == 'd' && "docx"@[1] == 'o' && "docx"@[2] == 'c' && "docx"@[3] == 'x');
    assert("odt"@[0] == 'o' && "odt"@[1] == 'd' && "odt"@[2] == 't');
    assert("xls"@[0] == 'x' && "xls"@[1] == 'l' && "xls"@[2] == 's');
    assert("xlsx"@[0] == 'x' && "xlsx"@[1] == 'l' && "xlsx"@[2] == 's' && "xlsx"@[3] == 'x');
    assert("ods"@[0] == 'o' && "ods"@[1] == 'd' && "ods"@[2] == 's');
    assert("ppt"@[0] == 'p' && "ppt"@[1] == 'p' && "ppt"@[2] == 't');
    assert("pptx"@[0] == 'p' && "pptx"@[1] == 'p' && "pptx"@[2] == 't' && "pptx"@[3] == 'x');
    assert("odp"@[0] == 'o' && "odp"@[1] == 'd' && "odp"@[2] == 'p');
    assert("jpg"@[0] == 'j' && "jpg"@[1] == 'p' && "jpg"@[2] == 'g');
    assert("jpeg"@[0] == 'j' && "jpeg"@[1] == 'p' && "jpeg"@[2] == 'e' && "jpeg"@[3] == 'g');
    assert("png"@[0] == 'p' && "png"@[1] == 'n' && "png"@[2] == 'g');
    assert("gif"@[0] == 'g' && "gif"@[1] == 'i' && "gif"@[2] == 'f');
    assert("webp"@[0] == 'w' && "webp"@[1] == 'e' && "webp"@[2] == 'b' && "webp"@[3] == 'p');
    assert("svg"@[0] == 's' && "svg"@[1] == 'v' && "svg"@[2] == 'g');
    assert("bmp"@[0] == 'b' && "bmp"@[1] == 'm' && "bmp"@[2] == 'p');
    assert("tiff"@[0] == 't' && "tiff"@[1] == 'i' && "tiff"@[2] == 'f' && "tiff"@[3] == 'f');
    assert("ico"@[0] == 'i' && "ico"@[1] == 'c' && "ico"@[2] == 'o');
    assert("heic"@[0] == 'h' && "heic"@[1] == 'e' && "heic"@[2] == 'i' && "heic"@[3] == 'c');
    assert("mp4"@[0] == 'm' && "mp4"@[1] == 'p' && "mp4"@[2] == '4');
    assert("mkv"@[0] == 'm' && "mkv"@[1] == 'k' && "mkv"@[2] == 'v');
    assert("avi"@[0] == 'a' && "avi"@[1] == 'v' && "avi"@[2] == 'i');
    assert("mov"@[0] == 'm' && "mov"@[1] == 'o' && "mov"@[2] == 'v');
    assert("wmv"@[0] == 'w' && "wmv"@[1] == 'm' && "wmv"@[2] == 'v');
    assert("flv"@[0] == 'f' && "flv"@[1] == 'l' && "flv"@[2] == 'v');
    assert("webm"@[0] == 'w' && "webm"@[1] == 'e' && "webm"@[2] == 'b' && "webm"@[3] == 'm');
    assert("mp3"@[0] == 'm' && "mp3"@[1] == 'p' && "mp3"@[2] == '3');
    assert("flac"@[0] == 'f' && "flac"@[1] == 'l' && "flac"@[2] == 'a' && "flac"@[3] == 'c');
    assert("ogg"@[0] == 'o' && "ogg"@[1] == 'g' && "ogg"@[2] == 'g');
    assert("wav"@[0] == 'w' && "wav"@[1] == 'a' && "wav"@[2] == 'v');
    assert("m4a"@[0] == 'm' && "m4a"@[1] == '4' && "m4a"@[2] == 'a');
    assert("aac"@[0] == 'a' && "aac"@[1] == 'a' && "aac"@[2] == 'c');
    assert("opus"@[0] == 'o' && "opus"@[1] == 'p' && "opus"@[2] == 'u' && "opus"@[3] == 's');
    assert("wma"@[0] == 'w' && "wma"@[1] == 'm' && "wma"@[2] == 'a');
    assert("zip"@[0] == 'z' && "zip"@[1] == 'i' && "zip"@[2] == 'p');
    assert("tar"@[0] == 't' && "tar"@[1] == 'a' && "tar"@[2] == 'r');
    assert("gz"@[0] == 'g' && "gz"@[1] == 'z');
    assert("bz2"@[0] == 'b' && "bz2"@[1] == 'z' && "bz2"@[2] == '2');
    assert("xz"@[0] == 'x' && "xz"@[1] == 'z');
    assert("7z"@[0] == '7' && "7z"@[1] == 'z');
    assert("rar"@[0] == 'r' && "rar"@[1] == 'a' && "rar"@[2] == 'r');
    assert("zst"@[0] == 'z' && "zst"@[1] == 's' && "zst"@[2] == 't');
    assert("iso"@[0] == 'i' && "iso"@[1] == 's' && "iso"@[2] == 'o');
    assert("img"@[0] == 'i' && "img"@[1] == 'm' && "img"@[2] == 'g');
    assert("appimage"@[0] == 'a' && "appimage"@[1] == 'p' && "appimage"@[2] == 'p' && "appimage"@[3] == 'i' && "appimage"@[4] == 'm' && "appimage"@[5] == 'a' && "appimage"@[6] == 'g' && "appimage"@[7] == 'e');
    assert("run"@[0] == 'r' && "run"@[1] == 'u' && "run"@[2] == 'n');
    assert("bin"@[0] == 'b' && "bin"@[1] == 'i' && "bin"@[2] == 'n');
    assert(m[12] == 'o');
    assert(!starts(m, "text/"@) && !starts(m, "image/"@) && !starts(m, "video/"@) && !starts(m, "audio/"@)) by {
        assert(m.subrange(0, 5)[0] == 'a' && m.subrange(0, 6)[1] == 'p');
    }
    assert(!archive_mime(m));
}

} // verus!
