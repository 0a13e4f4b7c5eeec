//! Project roots: detection by marker files, classification and risk.
use vstd::prelude::*;
use crate::paths::{file_name_or_empty, file_name_or_empty_exec, join_path_str};
use crate::text::{chars_of, contains_lit, eq_lit, has_sub, lower_chars, lowercase, string_of, strs, to_upper, uppercase};

verus! {

/// Files or directories whose presence marks the root of a project or knowledge vault.
pub open spec fn project_markers() -> Seq<Seq<char>> {
    seq![
        ".git"@, "flake.nix"@, "Cargo.toml"@, "pyproject.toml"@, "package.json"@, "go.mod"@,
        "Makefile"@, "README.md"@, "deno.json"@, "pnpm-lock.yaml"@, "yarn.lock"@, ".obsidian"@,
    ]
}

/// Markers that on their own establish a project.
pub open spec fn strong_marker(m: Seq<char>) -> bool {
    m == ".git"@ || m == "flake.nix"@ || m == "Cargo.toml"@ || m == "pyproject.toml"@ || m
        == "package.json"@ || m == "go.mod"@ || m == ".obsidian"@
}

/// Directories inside projects that the size statistics skip.
pub open spec fn ignored_dirs() -> Seq<Seq<char>> {
    seq![
        "build"@, "dist"@, "target"@, "node_modules"@, ".venv"@, "__pycache__"@, "localpycs"@, ".git"@, "vendor"@,
        "result"@, ".obsidian"@,
    ]
}

/// A detected project.
#[derive(Debug)]
pub struct ProjectCandidate {
    pub root_path: String,
    pub name: String,
    pub markers: Vec<String>,
    pub category_id: String,
    pub total_size_bytes: u64,
    pub file_count: usize,
    pub risk: String,
    pub needs_review: bool,
    pub reason: String,
    pub warnings: Vec<String>,
}

/// How strongly a directory looks like a project.
#[derive(Debug)]
pub struct ProjectEvidence {
    pub is_project: bool,
    /// Confidence in hundredths.
    pub confidence_pct: u32,
    pub strong_markers: Vec<String>,
    pub weak_markers: Vec<String>,
    pub project_kind: String,
    pub warnings: Vec<String>,
    pub reason: String,
}

/// The markers of `present` that are strong, in order.
pub open spec fn strong_of(ms: Seq<Seq<char>>) -> Seq<Seq<char>>
    decreases ms.len(),
{
    if ms.len() == 0 {
        Seq::empty()
    } else if strong_marker(ms.last()) {
        strong_of(ms.drop_last()).push(ms.last())
    } else {
        strong_of(ms.drop_last())
    }
}

/// The markers of `present` that are weak, in order.
pub open spec fn weak_of(ms: Seq<Seq<char>>) -> Seq<Seq<char>>
    decreases ms.len(),
{
    if ms.len() == 0 {
        Seq::empty()
    } else if !strong_marker(ms.last()) {
        weak_of(ms.drop_last()).push(ms.last())
    } else {
        weak_of(ms.drop_last())
    }
}

/// The project-root verdict for a folder named `folder` whose present markers are `present`.
pub open spec fn root_verdict(folder: Seq<char>, present: Seq<Seq<char>>) -> Option<Seq<Seq<char>>> {
    let up = uppercase(folder);
    if (up == "AULAS"@ || up == "DOCUMENTOS"@ || up == "ESTUDOS"@) && strong_of(present).len() == 0 {
        None
    } else if present.len() == 0 {
        None
    } else {
        Some(present)
    }
}

/// The items of `s` whose flag in `mask` is set, in order.
pub open spec fn select(s: Seq<Seq<char>>, mask: Seq<bool>) -> Seq<Seq<char>>
    decreases s.len(),
{
    if s.len() == 0 || mask.len() < s.len() {
        Seq::empty()
    } else if mask[s.len() - 1] {
        select(s.drop_last(), mask).push(s.last())
    } else {
        select(s.drop_last(), mask)
    }
}

/// `Path::exists`. The answer depends on the file system: nothing is stated of it.
#[verifier::external_body]
pub(crate) fn path_exists(p: &str) -> (b: bool) {
    std::path::Path::new(p).exists()
}

fn strong_exec(m: &Vec<char>) -> (b: bool)
    ensures
        b == strong_marker(m@),
{
    eq_lit(m, ".git") || eq_lit(m, "flake.nix") || eq_lit(m, "Cargo.toml") || eq_lit(m, "pyproject.toml")
        || eq_lit(m, "package.json") || eq_lit(m, "go.mod") || eq_lit(m, ".obsidian")
}

/// Splits markers into strong and weak ones.
pub fn split_markers(markers: &Vec<String>) -> (r: (Vec<String>, Vec<String>))
    ensures
        strs(r.0@) == strong_of(strs(markers@)),
        strs(r.1@) == weak_of(strs(markers@)),
{
    let mut strong: Vec<String> = Vec::new();
    let mut weak: Vec<String> = Vec::new();
    let mut i: usize = 0;
    while i < markers.len()
        invariant
            i <= markers.len(),
            strs(strong@) == strong_of(strs(markers@).subrange(0, i as int)),
            strs(weak@) == weak_of(strs(markers@).subrange(0, i as int)),
        decreases markers.len() - i,
    {
        let ghost pre = strs(markers@).subrange(0, i as int);
        assert(strs(markers@).subrange(0, i + 1).drop_last() == pre);
        assert(strs(markers@).subrange(0, i + 1).last() == markers@[i as int]@);
        let m = chars_of(markers[i].as_str());
        if strong_exec(&m) {
            let ghost before = strs(strong@);
            strong.push(markers[i].clone());
            assert(strs(strong@) == before.push(markers@[i as int]@));
        } else {
            let ghost before = strs(weak@);
            weak.push(markers[i].clone());
            assert(strs(weak@) == before.push(markers@[i as int]@));
        }
        i += 1;
    }
    assert(strs(markers@).subrange(0, markers.len() as int) == strs(markers@));
    (strong, weak)
}

/// The project-root verdict from the folder name and its present markers:
/// the markers, unless there are none, or the folder is a study/document folder
/// (`AULAS`, `DOCUMENTOS`, `ESTUDOS`) without a strong marker.
pub fn project_root_verdict(folder: &str, present: Vec<String>) -> (r: Option<Vec<String>>)
    ensures
        match r {
            Some(v) => root_verdict(folder@, strs(present@)) == Some(strs(v@)),
            None => root_verdict(folder@, strs(present@)) is None,
        },
{
    let up = chars_of(to_upper(folder).as_str());
    if eq_lit(&up, "AULAS") || eq_lit(&up, "DOCUMENTOS") || eq_lit(&up, "ESTUDOS") {
        let (strong, _weak) = split_markers(&present);
        if strong.len() == 0 {
            return None;
        }
    }
    if present.len() == 0 {
        None
    } else {
        Some(present)
    }
}

/// Detects whether the directory `path` is a project root: the markers found
/// in it (in the order of the marker list), if it is one.
pub fn detect_project_root(path: &str) -> (r: Option<Vec<String>>)
    ensures
        exists|mask: Seq<bool>| #![auto] mask.len() == 12 && match r {
            Some(v) => root_verdict(file_name_or_empty(path@), select(project_markers(), mask)) == Some(strs(v@)),
            None => root_verdict(file_name_or_empty(path@), select(project_markers(), mask)) is None,
        },
{
    let names: [&str; 12] = [
        ".git", "flake.nix", "Cargo.toml", "pyproject.toml", "package.json", "go.mod", "Makefile",
        "README.md", "deno.json", "pnpm-lock.yaml", "yarn.lock", ".obsidian",
    ];
    let ghost ms = project_markers();
    assert(forall|k: int| 0 <= k < 12 ==> #[trigger] names@[k]@ == ms[k]) by {
        assert(names@[0]@ == ms[0]);
    }
    let mut present: Vec<String> = Vec::new();
    let ghost mut mask: Seq<bool> = Seq::empty();
    let mut i: usize = 0;
    while i < 12
        invariant
            i <= 12,
            mask.len() == i,
            ms == project_markers(),
            forall|k: int| 0 <= k < 12 ==> #[trigger] names@[k]@ == ms[k],
            strs(present@) == select(ms.subrange(0, i as int), mask),
        decreases 12 - i,
    {
        let candidate = join_path_str(path, names[i]);
        let exists_now = path_exists(string_of(&candidate).as_str());
        let ghost pre = ms.subrange(0, i as int);
        assert(ms.subrange(0, i + 1).drop_last() == pre);
        assert(ms.subrange(0, i + 1).last() == names@[i as int]@);
        proof {
            assert(select(pre, mask.push(exists_now)) == select(pre, mask)) by {
                lemma_select_prefix_mask(pre, mask, exists_now);
            }
        }
        if exists_now {
            let ghost before = strs(present@);
            present.push(string_of(&chars_of(names[i])));
            assert(strs(present@) == before.push(names@[i as int]@));
        }
        proof {
            mask = mask.push(exists_now);
        }
        i += 1;
    }
    assert(ms.subrange(0, 12) == ms);
    let pc = chars_of(path);
    let folder = file_name_or_empty_exec(&pc);
    project_root_verdict(string_of(&folder).as_str(), present)
}

proof fn lemma_select_prefix_mask(s: Seq<Seq<char>>, mask: Seq<bool>, b: bool)
    requires
        mask.len() == s.len(),
    ensures
        select(s, mask.push(b)) == select(s, mask),
    decreases s.len(),
{
    if s.len() > 0 {
        lemma_select_prefix_mask(s.drop_last(), mask.drop_last(), mask.last());
        assert(mask.drop_last().push(mask.last()) == mask);
        assert(mask.push(b)[s.len() - 1] == mask[s.len() - 1]);
        lemma_select_extra(s.drop_last(), mask, b);
    }
}

proof fn lemma_select_extra(s: Seq<Seq<char>>, mask: Seq<bool>, b: bool)
    requires
        mask.len() >= s.len(),
    ensures
        select(s, mask.push(b)) == select(s, mask),
    decreases s.len(),
{
    if s.len() > 0 {
        lemma_select_extra(s.drop_last(), mask, b);
    }
}

/// The category and reason given to a project from its name and markers.
pub open spec fn project_class(name: Seq<char>, markers: Seq<Seq<char>>) -> (Seq<char>, Seq<char>) {
    let l = lowercase(name);
    if markers.contains(".obsidian"@) || has_sub(l, "obsidian"@) || has_sub(l, "vault"@) {
        ("conhecimento.vault"@, "Obsidian Knowledge Vault detectado"@)
    } else if has_sub(l, "kryonix"@) || has_sub(l, "home-brain"@) || (markers.contains("flake.nix"@) && has_sub(l, "brain"@)) {
        ("projetos.kryonix"@, "Projeto Kryonix detectado"@)
    } else if has_sub(l, "ragos"@) || has_sub(l, "projeto-ragos"@) {
        ("projetos.ragos"@, "Projeto RAGOS detectado"@)
    } else if markers.contains("flake.nix"@) || has_sub(l, "nixos"@) || has_sub(l, "home-manager"@) {
        ("projetos.nixos"@, "Projeto NixOS/Flake detectado"@)
    } else if has_sub(l, "ia"@) || has_sub(l, "ai"@) || has_sub(l, "llm"@) || has_sub(l, "rag"@) || has_sub(l, "agent"@) {
        ("projetos.ia"@, "Projeto de IA/LLM detectado"@)
    } else if has_sub(l, "proxmox"@) || has_sub(l, "opnsense"@) || has_sub(l, "server"@) || has_sub(l, "network"@) {
        ("projetos.infra"@, "Projeto de Infraestrutura detectado"@)
    } else if has_sub(l, "windows"@) || has_sub(l, "ativador"@) || has_sub(l, "office"@) {
        ("projetos.windows"@, "Projeto relacionado a Windows detectado"@)
    } else {
        ("projetos.sandbox"@, "Projeto genérico detectado"@)
    }
}

/// Classifies a project by its name and markers: (category id, reason).
pub fn classify_project(name: &str, markers: &Vec<String>) -> (r: (String, String))
    ensures
        (r.0@, r.1@) == project_class(name@, strs(markers@)),
{
    let l = lower_chars(name);
    let obsidian = chars_of(".obsidian");
    let flake = chars_of("flake.nix");
    let has_obsidian = crate::taxonomy::strs_contains(markers, &obsidian);
    let has_flake = crate::taxonomy::strs_contains(markers, &flake);
    let (id, reason) = if has_obsidian || contains_lit(&l, "obsidian") || contains_lit(&l, "vault") {
        ("conhecimento.vault", "Obsidian Knowledge Vault detectado")
    } else if contains_lit(&l, "kryonix") || contains_lit(&l, "home-brain") || (has_flake && contains_lit(&l, "brain")) {
        ("projetos.kryonix", "Projeto Kryonix detectado")
    } else if contains_lit(&l, "ragos") || contains_lit(&l, "projeto-ragos") {
        ("projetos.ragos", "Projeto RAGOS detectado")
    } else if has_flake || contains_lit(&l, "nixos") || contains_lit(&l, "home-manager") {
        ("projetos.nixos", "Projeto NixOS/Flake detectado")
    } else if contains_lit(&l, "ia") || contains_lit(&l, "ai") || contains_lit(&l, "llm") || contains_lit(&l, "rag")
        || contains_lit(&l, "agent") {
        ("projetos.ia", "Projeto de IA/LLM detectado")
    } else if contains_lit(&l, "proxmox") || contains_lit(&l, "opnsense") || contains_lit(&l, "server")
        || contains_lit(&l, "network") {
        ("projetos.infra", "Projeto de Infraestrutura detectado")
    } else if contains_lit(&l, "windows") || contains_lit(&l, "ativador") || contains_lit(&l, "office") {
        ("projetos.windows", "Projeto relacionado a Windows detectado")
    } else {
        ("projetos.sandbox", "Projeto genérico detectado")
    };
    (string_of(&chars_of(id)), string_of(&chars_of(reason)))
}

/// Risk of a project from its markers: high, with mandatory review, for Git
/// repositories and Obsidian vaults; medium otherwise.
pub fn calculate_project_risk(markers: &Vec<String>) -> (r: (String, bool))
    ensures
        (r.0@, r.1) == (if strs(markers@).contains(".obsidian"@) || strs(markers@).contains(".git"@) {
            ("high"@, true)
        } else {
            ("medium"@, false)
        }),
{
    let obsidian = chars_of(".obsidian");
    let git = chars_of(".git");
    if crate::taxonomy::strs_contains(markers, &obsidian) || crate::taxonomy::strs_contains(markers, &git) {
        (string_of(&chars_of("high")), true)
    } else {
        (string_of(&chars_of("medium")), false)
    }
}

/// Confidence (hundredths) that a directory named `name` with these markers is a project.
pub open spec fn evidence_confidence(name: Seq<char>, markers: Seq<Seq<char>>) -> int {
    let strong = strong_of(markers);
    let weak = weak_of(markers);
    let c0 = 50 + (if strong.len() > 0 { 40 + (if strong.contains(".git"@) { 5int } else { 0int }) } else { 0int })
        + (if weak.len() > 0 { 5int } else { 0int });
    let l = lowercase(name);
    if (has_sub(l, "aulas"@) || has_sub(l, "estudos"@)) && strong.len() == 0 { 20 } else { c0 }
}

/// Mathematical model of project evidence.
pub struct EvidenceSpec {
    pub is_project: bool,
    pub confidence_pct: int,
    pub strong_markers: Seq<Seq<char>>,
    pub weak_markers: Seq<Seq<char>>,
    pub project_kind: Seq<char>,
    pub warnings: Seq<Seq<char>>,
    pub reason: Seq<char>,
}

impl View for ProjectEvidence {
    type V = EvidenceSpec;

    open spec fn view(&self) -> EvidenceSpec {
        EvidenceSpec {
            is_project: self.is_project,
            confidence_pct: self.confidence_pct as int,
            strong_markers: strs(self.strong_markers@),
            weak_markers: strs(self.weak_markers@),
            project_kind: self.project_kind@,
            warnings: strs(self.warnings@),
            reason: self.reason@,
        }
    }
}

/// The evidence for a directory named `name` with markers `markers`.
pub open spec fn evidence(name: Seq<char>, markers: Seq<Seq<char>>) -> EvidenceSpec {
    let strong = strong_of(markers);
    let conf = evidence_confidence(name, markers);
    let l = lowercase(name);
    EvidenceSpec {
        is_project: conf >= 70 && strong.len() > 0,
        confidence_pct: if conf > 100 { 100 } else { conf },
        strong_markers: strong,
        weak_markers: weak_of(markers),
        project_kind: project_class(name, markers).0,
        warnings: if (has_sub(l, "aulas"@) || has_sub(l, "estudos"@)) && strong.len() == 0 {
            seq!["Pasta de estudos sem marcadores fortes de código"@]
        } else {
            Seq::empty()
        },
        reason: project_class(name, markers).1,
    }
}

/// How strongly the directory named `name` with `markers` looks like a project.
pub fn get_project_evidence(name: &str, markers: &Vec<String>) -> (r: ProjectEvidence)
    ensures
        r@ == evidence(name@, strs(markers@)),
{
    let (strong, weak) = split_markers(markers);
    let (category_id, reason) = classify_project(name, markers);
    let mut warnings: Vec<String> = Vec::new();
    let mut confidence: u32 = 50;
    if strong.len() > 0 {
        confidence = confidence + 40;
        let git = chars_of(".git");
        if crate::taxonomy::strs_contains(&strong, &git) {
            confidence = confidence + 5;
        }
    }
    if weak.len() > 0 {
        confidence = confidence + 5;
    }
    let l = lower_chars(name);
    if contains_lit(&l, "aulas") || contains_lit(&l, "estudos") {
        if strong.len() == 0 {
            confidence = 20;
            warnings.push(string_of(&chars_of("Pasta de estudos sem marcadores fortes de código")));
        }
    }
    let is_project = confidence >= 70 && strong.len() > 0;
    let final_confidence = if confidence > 100 { 100 } else { confidence };
    let r = ProjectEvidence {
        is_project,
        confidence_pct: final_confidence,
        strong_markers: strong,
        weak_markers: weak,
        project_kind: category_id,
        warnings,
        reason,
    };
    assert(r@.warnings == evidence(name@, strs(markers@)).warnings);
    r
}

/// A project holding a `flake.nix` is a NixOS/flake project, unless its
/// name or an `.obsidian` marker makes it a vault, or its name makes it a
/// Kryonix (`kryonix`, `home-brain`, a flake named `brain`) or RAGOS project.
pub proof fn lemma_flake_is_nixos(name: Seq<char>, markers: Seq<Seq<char>>)
    ensures
        ({
            let l = lowercase(name);
            markers.contains("flake.nix"@) && !markers.contains(".obsidian"@) && !has_sub(l, "obsidian"@)
                && !has_sub(l, "vault"@) && !has_sub(l, "kryonix"@) && !has_sub(l, "home-brain"@)
                && !has_sub(l, "brain"@) && !has_sub(l, "ragos"@)
        }) ==> project_class(name, markers) == ("projetos.nixos"@, "Projeto NixOS/Flake detectado"@),
{
    let l = lowercase(name);
    if !has_sub(l, "ragos"@) {
        assert(!has_sub(l, "projeto-ragos"@)) by {
            reveal_strlit("projeto-ragos");
            reveal_strlit("ragos");
            if has_sub(l, "projeto-ragos"@) {
                let k = choose|k: int| #[trigger] crate::text::occurs_at(l, "projeto-ragos"@, k);
                assert(l.subrange(k + 8, k + 13) =~= l.subrange(k, k + 13).subrange(8, 13));
                assert(l.subrange(k + 8, k + 13) =~= "ragos"@);
                assert(crate::text::occurs_at(l, "ragos"@, k + 8));
            }
        }
    }
}

/// A project with an `.obsidian` marker is a knowledge vault, and a project
/// with a `flake.nix` or `.obsidian` marker is never a generic sandbox project.
pub proof fn lemma_markers_decide(name: Seq<char>, markers: Seq<Seq<char>>)
    ensures
        markers.contains(".obsidian"@) ==> project_class(name, markers).0 == "conhecimento.vault"@,
        markers.contains("flake.nix"@) || markers.contains(".obsidian"@) ==> project_class(name, markers).0
            != "projetos.sandbox"@,
{
    reveal_strlit("projetos.sandbox");
    reveal_strlit("projetos.ia");
    reveal_strlit("projetos.infra");
    reveal_strlit("projetos.windows");
    reveal_strlit("projetos.nixos");
    reveal_strlit("projetos.kryonix");
    reveal_strlit("projetos.ragos");
    reveal_strlit("conhecimento.vault");
    assert("projetos.sandbox"@.len() == 16);
    assert("projetos.nixos"@.len() == 14);
    assert("projetos.kryonix"@.len() == 16 && "projetos.kryonix"@[9] != "projetos.sandbox"@[9]);
    assert("projetos.ragos"@.len() == 14);
    assert("conhecimento.vault"@.len() == 18);
}

/// The name decides before the markers: a name with `obsidian` or `vault`
/// makes a knowledge vault, and otherwise a name with `kryonix` or
/// `home-brain` makes a Kryonix project.
pub proof fn lemma_name_rules(name: Seq<char>, markers: Seq<Seq<char>>)
    ensures
        ({
            let l = lowercase(name);
            &&& (has_sub(l, "obsidian"@) || has_sub(l, "vault"@) ==> project_class(name, markers).0
                == "conhecimento.vault"@)
            &&& (!markers.contains(".obsidian"@) && !has_sub(l, "obsidian"@) && !has_sub(l, "vault"@)
                && (has_sub(l, "kryonix"@) || has_sub(l, "home-brain"@)) ==> project_class(name, markers)
                == ("projetos.kryonix"@, "Projeto Kryonix detectado"@))
        }),
{
}

/// No earlier rule applies to a project: it is not a vault, not Kryonix,
/// not RAGOS and not a NixOS/flake project.
pub open spec fn no_named_rule(l: Seq<char>, markers: Seq<Seq<char>>) -> bool {
    &&& !markers.contains(".obsidian"@) && !has_sub(l, "obsidian"@) && !has_sub(l, "vault"@)
    &&& !has_sub(l, "kryonix"@) && !has_sub(l, "home-brain"@) && !has_sub(l, "brain"@)
    &&& !has_sub(l, "ragos"@) && !has_sub(l, "projeto-ragos"@)
    &&& !markers.contains("flake.nix"@) && !has_sub(l, "nixos"@) && !has_sub(l, "home-manager"@)
}

/// Past the named rules, the topic words decide: `llm` or `agent` make an
/// AI project; `proxmox` or `opnsense` (with no AI word) an infrastructure
/// project; `windows` or `ativador` (with neither) a Windows project; a name
/// with none of the words, and no marker rule, is a generic sandbox project.
pub proof fn lemma_topic_rules(name: Seq<char>, markers: Seq<Seq<char>>)
    ensures
        ({
            let l = lowercase(name);
            let ai = has_sub(l, "ia"@) || has_sub(l, "ai"@) || has_sub(l, "llm"@) || has_sub(l, "rag"@) || has_sub(l, "agent"@);
            let infra = has_sub(l, "proxmox"@) || has_sub(l, "opnsense"@) || has_sub(l, "server"@) || has_sub(l, "network"@);
            let win = has_sub(l, "windows"@) || has_sub(l, "ativador"@) || has_sub(l, "office"@);
            &&& (no_named_rule(l, markers) && (has_sub(l, "llm"@) || has_sub(l, "agent"@)) ==> project_class(name, markers).0
                == "projetos.ia"@)
            &&& (no_named_rule(l, markers) && !ai && (has_sub(l, "proxmox"@) || has_sub(l, "opnsense"@)) ==> project_class(
                name,
                markers,
            ).0 == "projetos.infra"@)
            &&& (no_named_rule(l, markers) && !ai && !infra && (has_sub(l, "windows"@) || has_sub(l, "ativador"@))
                ==> project_class(name, markers).0 == "projetos.windows"@)
            &&& (no_named_rule(l, markers) && !ai && !infra && !win ==> project_class(name, markers)
                == ("projetos.sandbox"@, "Projeto genérico detectado"@))
        }),
{
}

} // verus!
