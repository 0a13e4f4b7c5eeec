//! The manifest: the concrete, auditable list of actions derived from a plan,
//! its policy gate, its summary and its Markdown report.
use vstd::prelude::*;
use crate::decision::class_name;
use crate::paths::{file_name_or_empty, file_name_or_empty_exec, join_path, join_path_exec};
use crate::planner::{copy_opt_string, copy_opt_strings, Plan, PlanProposal};
use crate::project::ProjectCandidate;
use crate::metadata::FileMetadata;
use crate::naming::{rfc3339_format, rfc3339_formatted};
use crate::scanner::ScanResult;
use crate::taxonomy::{opt_str, opt_strs};
use crate::text::{append, append_lit, append_str, chars_of, dec, dec_chars, eq_lit, string_of, to_upper, uppercase};

verus! {

/// The risk an action has when none is recorded.
pub fn default_medium() -> (r: String)
    ensures
        r@ == "medium"@,
{
    string_of(&chars_of("medium"))
}

/// The manifest schema version written by this tool.
pub fn default_schema_version() -> (r: String)
    ensures
        r@ == "1.0"@,
{
    string_of(&chars_of("1.0"))
}

/// The decision class an action has when none is recorded.
pub fn default_needs_human() -> (r: String)
    ensures
        r@ == "NeedsHumanReview"@,
{
    string_of(&chars_of("NeedsHumanReview"))
}

/// One concrete action of a manifest.
#[derive(Debug)]
pub struct ManifestAction {
    pub source_path: String,
    pub target_path: String,
    /// `move`, `rename` or `move_project`.
    pub action_type: String,
    pub old_hash: Option<String>,
    pub size_bytes: u64,
    pub mime: String,
    pub reason: String,
    pub risk: String,
    /// `planned`, `executed`, `skipped`, `failed`, `blocked`, ...
    pub status: String,
    pub error_msg: Option<String>,
    pub old_filename: Option<String>,
    pub new_filename: Option<String>,
    pub rules_applied: Option<Vec<String>>,
    pub naming_profile: Option<String>,
    pub operation_kind: Option<String>,
    pub category_id: Option<String>,
    pub category_label: Option<String>,
    pub category_dir: Option<String>,
    /// Taxonomy score in basis points.
    pub taxonomy_score_bp: Option<u32>,
    pub matched_keywords: Option<Vec<String>>,
    pub taxonomy_reason: Option<String>,
    pub taxonomy_profile: Option<String>,
    pub candidate_categories: Option<Vec<String>>,
    pub already_organized: bool,
    pub decision_class: String,
    pub auto_apply_allowed: bool,
    pub blocked_from_apply: bool,
    pub staging_only: bool,
}

/// A manifest: the actions of one run and where they come from.
#[derive(Debug)]
pub struct Manifest {
    pub run_id: String,
    /// RFC 3339 timestamp of the manifest's creation.
    pub timestamp: String,
    pub hostname: String,
    pub user: String,
    pub tool_version: String,
    pub actions: Vec<ManifestAction>,
    pub protected_count: usize,
    pub schema_version: String,
}

// ---------------------------------------------------------------------------
// From plan to actions
// ---------------------------------------------------------------------------

/// The last scanned file recorded at `path` (a later record replaces an earlier one).
pub open spec fn last_file_index(files: Seq<FileMetadata>, path: Seq<char>) -> Option<int>
    decreases files.len(),
{
    if files.len() == 0 {
        None
    } else if files.last().path@ == path {
        Some(files.len() - 1)
    } else {
        last_file_index(files.drop_last(), path)
    }
}

/// The last detected project rooted at `path`.
pub open spec fn last_project_index(ps: Seq<ProjectCandidate>, path: Seq<char>) -> Option<int>
    decreases ps.len(),
{
    if ps.len() == 0 {
        None
    } else if ps.last().root_path@ == path {
        Some(ps.len() - 1)
    } else {
        last_project_index(ps.drop_last(), path)
    }
}

/// A proposal gives an action: a project move whose project was detected, or
/// a file proposal whose file was scanned.
pub open spec fn contributes(p: PlanProposal, scan: ScanResult) -> bool {
    if p.action@ == "move_project"@ {
        last_project_index(scan.projects@, p.old_path@) is Some
    } else {
        last_file_index(scan.files@, p.old_path@) is Some
    }
}

/// The indices of the proposals that give actions, in order.
pub open spec fn contributing(ps: Seq<PlanProposal>, scan: ScanResult) -> Seq<int>
    decreases ps.len(),
{
    if ps.len() == 0 {
        Seq::empty()
    } else {
        let r = contributing(ps.drop_last(), scan);
        if contributes(ps.last(), scan) {
            r.push(ps.len() - 1)
        } else {
            r
        }
    }
}

/// The fields an action copies from its proposal.
pub open spec fn copies_proposal(a: ManifestAction, p: PlanProposal) -> bool {
    &&& a.source_path@ == p.old_path@
    &&& a.action_type@ == p.action@
    &&& a.reason@ == p.reason@
    &&& a.risk@ == p.risk@
    &&& a.status@ == "planned"@
    &&& a.error_msg is None
    &&& opt_strs(a.rules_applied) == opt_strs(p.rules_applied)
    &&& opt_str(a.category_id) == opt_str(p.category_id)
    &&& opt_str(a.category_label) == opt_str(p.category_label)
    &&& opt_str(a.category_dir) == opt_str(p.category_dir)
    &&& a.taxonomy_score_bp == p.taxonomy_score_bp
    &&& opt_strs(a.matched_keywords) == opt_strs(p.matched_keywords)
    &&& opt_str(a.taxonomy_reason) == opt_str(p.taxonomy_reason)
    &&& opt_str(a.taxonomy_profile) == opt_str(p.taxonomy_profile)
    &&& opt_strs(a.candidate_categories) == opt_strs(p.candidate_categories)
    &&& a.already_organized == p.already_organized
    &&& a.decision_class@ == class_name(p.decision_class)
    &&& a.auto_apply_allowed == p.auto_apply_allowed
    &&& a.blocked_from_apply == p.blocked_from_apply
    &&& a.staging_only == p.staging_only
}

/// The action for a project move.
pub open spec fn project_action(a: ManifestAction, p: PlanProposal, proj: ProjectCandidate, home: Seq<char>) -> bool {
    &&& copies_proposal(a, p)
    &&& a.target_path@ == join_path(join_path(home, p.new_dir@), proj.name@)
    &&& a.old_hash is None
    &&& a.size_bytes == proj.total_size_bytes
    &&& a.mime@ == "inode/directory"@
    &&& opt_str(a.old_filename) == Some(proj.name@)
    &&& a.new_filename is None
    &&& a.naming_profile is None
    &&& opt_str(a.operation_kind) == Some("move_project"@)
}

/// The action for a file move or rename; `hash` is the file's SHA-256 when it could be read.
pub open spec fn file_action(a: ManifestAction, p: PlanProposal, f: FileMetadata, home: Seq<char>, hash: Option<Seq<char>>) -> bool {
    let name = file_name_or_empty(p.old_path@);
    &&& copies_proposal(a, p)
    &&& a.target_path@ == join_path(join_path(home, p.new_dir@), match p.new_filename {
        Some(n) => n@,
        None => name,
    })
    &&& opt_str(a.old_hash) == hash
    &&& a.size_bytes == f.size_bytes
    &&& a.mime@ == f.mime@
    &&& opt_str(a.old_filename) == Some(name)
    &&& opt_str(a.new_filename) == opt_str(p.new_filename)
    &&& opt_str(a.naming_profile) == opt_str(p.naming_profile)
    &&& opt_str(a.operation_kind) == Some(if p.action@ == "rename"@ { "move_rename"@ } else { p.action@ })
}

/// `a` is the action that proposal `p` gives.
pub open spec fn action_of(a: ManifestAction, p: PlanProposal, scan: ScanResult, home: Seq<char>, hash: Option<Seq<char>>) -> bool {
    if p.action@ == "move_project"@ {
        project_action(a, p, scan.projects@[last_project_index(scan.projects@, p.old_path@)->0], home)
    } else {
        file_action(a, p, scan.files@[last_file_index(scan.files@, p.old_path@)->0], home, hash)
    }
}

proof fn lemma_last_file_index(files: Seq<FileMetadata>, path: Seq<char>)
    ensures
        last_file_index(files, path) matches Some(i) ==> 0 <= i < files.len() && files[i].path@ == path,
    decreases files.len(),
{
    if files.len() > 0 {
        lemma_last_file_index(files.drop_last(), path);
    }
}

proof fn lemma_last_project_index(ps: Seq<ProjectCandidate>, path: Seq<char>)
    ensures
        last_project_index(ps, path) matches Some(i) ==> 0 <= i < ps.len() && ps[i].root_path@ == path,
    decreases ps.len(),
{
    if ps.len() > 0 {
        lemma_last_project_index(ps.drop_last(), path);
    }
}

fn find_last_file(files: &Vec<FileMetadata>, path: &String) -> (r: Option<usize>)
    ensures
        r matches Some(i) ==> last_file_index(files@, path@) == Some(i as int),
        r is None ==> last_file_index(files@, path@) is None,
{
    let pc = chars_of(path.as_str());
    let mut k: usize = files.len();
    assert(files@.subrange(0, k as int) =~= files@);
    while k > 0
        invariant
            k <= files@.len(),
            pc@ == path@,
            last_file_index(files@, path@) == last_file_index(files@.subrange(0, k as int), path@),
        decreases k,
    {
        let fc = chars_of(files[k - 1].path.as_str());
        assert(files@.subrange(0, k as int).drop_last() == files@.subrange(0, k - 1));
        if crate::text::seq_eq(&fc, &pc) {
            return Some(k - 1);
        }
        k -= 1;
    }
    None
}

fn find_last_project(ps: &Vec<ProjectCandidate>, path: &String) -> (r: Option<usize>)
    ensures
        r matches Some(i) ==> last_project_index(ps@, path@) == Some(i as int),
        r is None ==> last_project_index(ps@, path@) is None,
{
    let pc = chars_of(path.as_str());
    let mut k: usize = ps.len();
    assert(ps@.subrange(0, k as int) =~= ps@);
    while k > 0
        invariant
            k <= ps@.len(),
            pc@ == path@,
            last_project_index(ps@, path@) == last_project_index(ps@.subrange(0, k as int), path@),
        decreases k,
    {
        let rc = chars_of(ps[k - 1].root_path.as_str());
        assert(ps@.subrange(0, k as int).drop_last() == ps@.subrange(0, k - 1));
        if crate::text::seq_eq(&rc, &pc) {
            return Some(k - 1);
        }
        k -= 1;
    }
    None
}

fn base_action(p: &PlanProposal) -> (a: ManifestAction)
    ensures
        copies_proposal(a, *p),
        a.old_hash is None,
        a.new_filename is None,
        a.naming_profile is None,
{
    ManifestAction {
        source_path: p.old_path.clone(),
        target_path: String::new(),
        action_type: p.action.clone(),
        old_hash: None,
        size_bytes: 0,
        mime: String::new(),
        reason: p.reason.clone(),
        risk: p.risk.clone(),
        status: string_of(&chars_of("planned")),
        error_msg: None,
        old_filename: None,
        new_filename: None,
        rules_applied: copy_opt_strings(&p.rules_applied),
        naming_profile: None,
        operation_kind: None,
        category_id: copy_opt_string(&p.category_id),
        category_label: copy_opt_string(&p.category_label),
        category_dir: copy_opt_string(&p.category_dir),
        taxonomy_score_bp: p.taxonomy_score_bp,
        matched_keywords: copy_opt_strings(&p.matched_keywords),
        taxonomy_reason: copy_opt_string(&p.taxonomy_reason),
        taxonomy_profile: copy_opt_string(&p.taxonomy_profile),
        candidate_categories: copy_opt_strings(&p.candidate_categories),
        already_organized: p.already_organized,
        decision_class: p.decision_class.name(),
        auto_apply_allowed: p.auto_apply_allowed,
        blocked_from_apply: p.blocked_from_apply,
        staging_only: p.staging_only,
    }
}

/// The action for moving the project `proj` as proposal `p` says.
pub fn project_move_action(p: &PlanProposal, proj: &ProjectCandidate, home_dir: &str) -> (a: ManifestAction)
    ensures
        project_action(a, *p, *proj, home_dir@),
{
    let mut a = base_action(p);
    let base = join_path_exec(&chars_of(home_dir), &chars_of(p.new_dir.as_str()));
    a.target_path = string_of(&join_path_exec(&base, &chars_of(proj.name.as_str())));
    a.size_bytes = proj.total_size_bytes;
    a.mime = string_of(&chars_of("inode/directory"));
    a.old_filename = Some(string_of(&chars_of(proj.name.as_str())));
    a.operation_kind = Some(string_of(&chars_of("move_project")));
    a
}

/// The action for moving or renaming the scanned file `f` as proposal `p` says.
pub fn file_move_action(p: &PlanProposal, f: &FileMetadata, home_dir: &str, old_hash: Option<String>) -> (a: ManifestAction)
    ensures
        file_action(a, *p, *f, home_dir@, opt_str(old_hash)),
{
    let mut a = base_action(p);
    let name = file_name_or_empty_exec(&chars_of(p.old_path.as_str()));
    let target_name = match &p.new_filename {
        Some(n) => chars_of(n.as_str()),
        None => name.clone(),
    };
    let base = join_path_exec(&chars_of(home_dir), &chars_of(p.new_dir.as_str()));
    a.target_path = string_of(&join_path_exec(&base, &target_name));
    a.old_hash = old_hash;
    a.size_bytes = f.size_bytes;
    a.mime = f.mime.clone();
    a.old_filename = Some(string_of(&name));
    a.new_filename = copy_opt_string(&p.new_filename);
    a.naming_profile = copy_opt_string(&p.naming_profile);
    let act = chars_of(p.action.as_str());
    a.operation_kind = Some(if eq_lit(&act, "rename") { string_of(&chars_of("move_rename")) } else { p.action.clone() });
    a
}

/// The actions of a plan: one per project move whose project was detected and
/// one per file proposal whose file was scanned, in the plan's order.
/// `file_hashes[i]` is the SHA-256 of the file of proposal `i`, where it could be read.
pub fn manifest_actions(plan: &Plan, scan: &ScanResult, file_hashes: &Vec<Option<String>>) -> (r: Vec<ManifestAction>)
    requires
        file_hashes@.len() == plan.proposals@.len(),
    ensures
        r@.len() == contributing(plan.proposals@, *scan).len(),
        forall|k: int| 0 <= k < r@.len() ==> {
            let i = #[trigger] contributing(plan.proposals@, *scan)[k];
            action_of(r@[k], plan.proposals@[i], *scan, plan.home_dir@, opt_str(file_hashes@[i]))
        },
{
    let mut out: Vec<ManifestAction> = Vec::new();
    let mut i: usize = 0;
    let ghost props = plan.proposals@;
    while i < plan.proposals.len()
        invariant
            i <= props.len(),
            props == plan.proposals@,
            file_hashes@.len() == props.len(),
            out@.len() == contributing(props.subrange(0, i as int), *scan).len(),
            forall|k: int| 0 <= k < out@.len() ==> {
                let j = #[trigger] contributing(props.subrange(0, i as int), *scan)[k];
                action_of(out@[k], props[j], *scan, plan.home_dir@, opt_str(file_hashes@[j]))
            },
            forall|k: int| 0 <= k < contributing(props.subrange(0, i as int), *scan).len() ==>
                0 <= #[trigger] contributing(props.subrange(0, i as int), *scan)[k] < i,
        decreases props.len() - i,
    {
        let p = &plan.proposals[i];
        let ghost before = contributing(props.subrange(0, i as int), *scan);
        proof {
            assert(props.subrange(0, i + 1).drop_last() == props.subrange(0, i as int));
            assert(props.subrange(0, i + 1).last() == props[i as int]);
        }
        let act = chars_of(p.action.as_str());
        if eq_lit(&act, "move_project") {
            match find_last_project(&scan.projects, &p.old_path) {
                Some(j) => {
                    proof { lemma_last_project_index(scan.projects@, p.old_path@); }
                    let a = project_move_action(p, &scan.projects[j], plan.home_dir.as_str());
                    out.push(a);
                },
                None => {},
            }
        } else {
            match find_last_file(&scan.files, &p.old_path) {
                Some(j) => {
                    proof { lemma_last_file_index(scan.files@, p.old_path@); }
                    let h = copy_opt_string(&file_hashes[i]);
                    let a = file_move_action(p, &scan.files[j], plan.home_dir.as_str(), h);
                    out.push(a);
                },
                None => {},
            }
        }
        proof {
            let after = contributing(props.subrange(0, i + 1), *scan);
            assert forall|k: int| 0 <= k < out@.len() implies {
                let j = #[trigger] contributing(props.subrange(0, i + 1), *scan)[k];
                action_of(out@[k], props[j], *scan, plan.home_dir@, opt_str(file_hashes@[j]))
            } by {
                if k < before.len() {
                    assert(after[k] == before[k]);
                }
            }
        }
        i += 1;
    }
    assert(props.subrange(0, i as int) == props);
    out
}

/// The manifest of a plan. The time of creation, host, user and tool version
/// are handed in by the caller.
pub fn build_manifest(
    plan: &Plan,
    scan: &ScanResult,
    file_hashes: &Vec<Option<String>>,
    timestamp: String,
    hostname: String,
    user: String,
    tool_version: String,
) -> (m: Manifest)
    requires
        file_hashes@.len() == plan.proposals@.len(),
    ensures
        m.run_id@ == plan.run_id@,
        m.timestamp == timestamp,
        m.hostname == hostname,
        m.user == user,
        m.tool_version == tool_version,
        m.protected_count == plan.protected_files@.len(),
        m.schema_version@ == "1.0"@,
        m.actions@.len() == contributing(plan.proposals@, *scan).len(),
        forall|k: int| 0 <= k < m.actions@.len() ==> {
            let i = #[trigger] contributing(plan.proposals@, *scan)[k];
            action_of(m.actions@[k], plan.proposals@[i], *scan, plan.home_dir@, opt_str(file_hashes@[i]))
        },
{
    let actions = manifest_actions(plan, scan, file_hashes);
    Manifest {
        run_id: plan.run_id.clone(),
        timestamp,
        hostname,
        user,
        tool_version,
        actions,
        protected_count: plan.protected_files.len(),
        schema_version: default_schema_version(),
    }
}

// ---------------------------------------------------------------------------
// Policy gate
// ---------------------------------------------------------------------------

/// An action the autopilot may apply: certified, allowed and not blocked.
pub open spec fn passes_gate(a: ManifestAction) -> bool {
    a.decision_class@ == "AutoMoveCertified"@ && a.auto_apply_allowed && !a.blocked_from_apply
}

/// Marks every action that may not be applied automatically as `skipped_policy_gate`.
pub fn gate_manifest_actions(m: &mut Manifest)
    ensures
        *final(m) == (Manifest { actions: final(m).actions, ..*old(m) }),
        final(m).actions@.len() == old(m).actions@.len(),
        forall|i: int| 0 <= i < final(m).actions@.len() ==> {
            let a = #[trigger] final(m).actions@[i];
            let b = old(m).actions@[i];
            &&& a == (ManifestAction { status: a.status, ..b })
            &&& if passes_gate(b) { a.status == b.status } else { a.status@ == "skipped_policy_gate"@ }
        },
{
    let ghost old_actions = m.actions@;
    let mut i: usize = 0;
    while i < m.actions.len()
        invariant
            i <= m.actions@.len(),
            m.actions@.len() == old_actions.len(),
            *m == (Manifest { actions: m.actions, ..*old(m) }),
            forall|k: int| i <= k < m.actions@.len() ==> m.actions@[k] == old_actions[k],
            forall|k: int| 0 <= k < i ==> {
                let a = #[trigger] m.actions@[k];
                let b = old_actions[k];
                &&& a == (ManifestAction { status: a.status, ..b })
                &&& if passes_gate(b) { a.status == b.status } else { a.status@ == "skipped_policy_gate"@ }
            },
        decreases m.actions@.len() - i,
    {
        let dc = chars_of(m.actions[i].decision_class.as_str());
        let pass = eq_lit(&dc, "AutoMoveCertified") && m.actions[i].auto_apply_allowed && !m.actions[i].blocked_from_apply;
        if !pass {
            let mut a = m.actions.remove(i);
            a.status = string_of(&chars_of("skipped_policy_gate"));
            m.actions.insert(i, a);
        }
        i += 1;
    }
}

// ---------------------------------------------------------------------------
// Summary and report
// ---------------------------------------------------------------------------

/// The kinds of action the summary counts.
pub open spec fn of_kind(a: ManifestAction, kind: int) -> bool {
    if kind == 0 {
        a.action_type@ == "move"@
    } else if kind == 1 {
        a.action_type@ == "rename"@
    } else {
        a.risk@ == "high"@
    }
}

/// How many actions are of `kind` (0: moves, 1: renames, 2: high risk).
pub open spec fn count_kind(s: Seq<ManifestAction>, kind: int) -> nat
    decreases s.len(),
{
    if s.len() == 0 {
        0
    } else {
        count_kind(s.drop_last(), kind) + if of_kind(s.last(), kind) { 1nat } else { 0nat }
    }
}

/// The counts shown by the manifest summary.
#[derive(Debug, Clone, Copy, PartialEq, Eq, Structural)]
pub struct ManifestSummary {
    pub total: usize,
    pub moves: usize,
    pub renames: usize,
    pub high_risk: usize,
}

proof fn lemma_count_le(s: Seq<ManifestAction>, kind: int)
    ensures
        count_kind(s, kind) <= s.len(),
    decreases s.len(),
{
    if s.len() > 0 {
        lemma_count_le(s.drop_last(), kind);
    }
}

/// The totals of a manifest: all actions, moves, renames and high-risk actions.
pub fn summarize_manifest(m: &Manifest) -> (s: ManifestSummary)
    ensures
        s.total == m.actions@.len(),
        s.moves == count_kind(m.actions@, 0),
        s.renames == count_kind(m.actions@, 1),
        s.high_risk == count_kind(m.actions@, 2),
{
    let mut moves: usize = 0;
    let mut renames: usize = 0;
    let mut high: usize = 0;
    let mut i: usize = 0;
    while i < m.actions.len()
        invariant
            i <= m.actions@.len(),
            moves == count_kind(m.actions@.subrange(0, i as int), 0),
            renames == count_kind(m.actions@.subrange(0, i as int), 1),
            high == count_kind(m.actions@.subrange(0, i as int), 2),
        decreases m.actions@.len() - i,
    {
        let ghost s1 = m.actions@.subrange(0, i + 1);
        proof {
            assert(s1.drop_last() == m.actions@.subrange(0, i as int));
            assert(s1.last() == m.actions@[i as int]);
            lemma_count_le(m.actions@.subrange(0, i as int), 0);
            lemma_count_le(m.actions@.subrange(0, i as int), 1);
            lemma_count_le(m.actions@.subrange(0, i as int), 2);
        }
        let t = chars_of(m.actions[i].action_type.as_str());
        let r = chars_of(m.actions[i].risk.as_str());
        if eq_lit(&t, "move") {
            moves += 1;
        }
        if eq_lit(&t, "rename") {
            renames += 1;
        }
        if eq_lit(&r, "high") {
            high += 1;
        }
        i += 1;
    }
    assert(m.actions@.subrange(0, i as int) == m.actions@);
    ManifestSummary { total: m.actions.len(), moves, renames, high_risk: high }
}

/// A percentage of basis points, rounded to the nearest whole number, ties to even.
pub open spec fn rounded_pct(bp: nat) -> nat {
    let q = bp / 100;
    let r = bp % 100;
    if r > 50 || (r == 50 && q % 2 == 1) { q + 1 } else { q }
}

/// The score column of the report.
pub open spec fn score_cell(bp: Option<u32>) -> Seq<char> {
    match bp {
        Some(b) => dec(rounded_pct(b as nat)) + "%"@,
        None => "N/A"@,
    }
}

/// One table row of the report.
pub open spec fn report_row(a: ManifestAction) -> Seq<char> {
    "| `"@ + a.source_path@ + "` | `"@ + a.target_path@ + "` | "@ + (match a.category_label {
        Some(l) => l@,
        None => "Incerto"@,
    }) + " | "@ + score_cell(a.taxonomy_score_bp) + " | "@ + uppercase(a.risk@) + " | "@ + a.reason@ + " |\n"@
}

pub open spec fn report_rows(s: Seq<ManifestAction>) -> Seq<char>
    decreases s.len(),
{
    if s.len() == 0 {
        Seq::empty()
    } else {
        report_rows(s.drop_last()) + report_row(s.last())
    }
}

/// The Markdown report of a manifest; `date` is its creation time as shown to the reader.
pub open spec fn report_text(m: Manifest, date: Seq<char>) -> Seq<char> {
    "# 🧠 Kryonix Home Brain - Relatório de Organização\n\n"@
        + "- **ID do Run:** `"@ + m.run_id@ + "`\n"@
        + "- **Data:** "@ + date + "\n"@
        + "- **Host/User:** "@ + m.hostname@ + " / "@ + m.user@ + "\n"@
        + "- **Arquivos protegidos ignorados:** "@ + dec(m.protected_count as nat) + "\n\n"@
        + "## 📋 Propostas de Ação\n\n"@
        + "| DE ONDE ESTÁ | PARA ONDE VAI | CATEGORIA | CONFIANÇA | RISCO | MOTIVO |\n"@
        + "| :--- | :--- | :--- | :--- | :--- | :--- |\n"@
        + report_rows(m.actions@)
        + "\n---\n*Este relatório foi gerado automaticamente pelo Kryonix Home Brain.*"@
}

fn rounded_pct_exec(bp: u32) -> (r: u32)
    ensures
        r == rounded_pct(bp as nat),
{
    let q = bp / 100;
    let r = bp % 100;
    if r > 50 || (r == 50 && q % 2 == 1) { q + 1 } else { q }
}

fn report_row_exec(a: &ManifestAction, out: &mut Vec<char>)
    ensures
        final(out)@ == old(out)@ + report_row(*a),
{
    append_lit(out, "| `");
    append_str(out, &a.source_path);
    append_lit(out, "` | `");
    append_str(out, &a.target_path);
    append_lit(out, "` | ");
    match &a.category_label {
        Some(l) => append_str(out, l),
        None => append_lit(out, "Incerto"),
    }
    append_lit(out, " | ");
    match a.taxonomy_score_bp {
        Some(b) => {
            let d = dec_chars(rounded_pct_exec(b) as u128);
            append(out, &d);
            append_lit(out, "%");
        },
        None => append_lit(out, "N/A"),
    }
    append_lit(out, " | ");
    let up = to_upper(a.risk.as_str());
    append_str(out, &up);
    append_lit(out, " | ");
    append_str(out, &a.reason);
    append_lit(out, " |\n");
}

/// The Markdown report of a manifest.
pub fn markdown_report(m: &Manifest, date: &str) -> (r: String)
    ensures
        r@ == report_text(*m, date@),
{
    let mut out: Vec<char> = Vec::new();
    append_lit(&mut out, "# 🧠 Kryonix Home Brain - Relatório de Organização\n\n");
    append_lit(&mut out, "- **ID do Run:** `");
    append_str(&mut out, &m.run_id);
    append_lit(&mut out, "`\n");
    append_lit(&mut out, "- **Data:** ");
    append(&mut out, &chars_of(date));
    append_lit(&mut out, "\n");
    append_lit(&mut out, "- **Host/User:** ");
    append_str(&mut out, &m.hostname);
    append_lit(&mut out, " / ");
    append_str(&mut out, &m.user);
    append_lit(&mut out, "\n");
    append_lit(&mut out, "- **Arquivos protegidos ignorados:** ");
    append(&mut out, &dec_chars(m.protected_count as u128));
    append_lit(&mut out, "\n\n");
    append_lit(&mut out, "## 📋 Propostas de Ação\n\n");
    append_lit(&mut out, "| DE ONDE ESTÁ | PARA ONDE VAI | CATEGORIA | CONFIANÇA | RISCO | MOTIVO |\n");
    append_lit(&mut out, "| :--- | :--- | :--- | :--- | :--- | :--- |\n");
    let ghost head = out@;
    let mut i: usize = 0;
    while i < m.actions.len()
        invariant
            i <= m.actions@.len(),
            out@ == head + report_rows(m.actions@.subrange(0, i as int)),
        decreases m.actions@.len() - i,
    {
        proof {
            assert(m.actions@.subrange(0, i + 1).drop_last() == m.actions@.subrange(0, i as int));
        }
        report_row_exec(&m.actions[i], &mut out);
        i += 1;
    }
    assert(m.actions@.subrange(0, i as int) == m.actions@);
    append_lit(&mut out, "\n---\n*Este relatório foi gerado automaticamente pelo Kryonix Home Brain.*");
    string_of(&out)
}

/// The creation time as the report shows it (`%Y-%m-%d %H:%M:%S`, UTC), or the
/// raw timestamp when it is not RFC 3339.
pub open spec fn report_date(m: Manifest) -> Seq<char> {
    match rfc3339_format(m.timestamp@, "%Y-%m-%d %H:%M:%S"@) {
        Some(d) => d,
        None => m.timestamp@,
    }
}

/// The Markdown report of a manifest, dated by its timestamp.
pub fn manifest_report(m: &Manifest) -> (r: String)
    ensures
        r@ == report_text(*m, report_date(*m)),
{
    let date = match rfc3339_formatted(m.timestamp.as_str(), "%Y-%m-%d %H:%M:%S") {
        Some(d) => d,
        None => m.timestamp.clone(),
    };
    markdown_report(m, date.as_str())
}

/// The stamp that names the files of a run (`%Y%m%d-%H%M%S`, UTC).
pub fn file_stamp(timestamp: &str) -> (r: Option<String>)
    ensures
        opt_str(r) == rfc3339_format(timestamp@, "%Y%m%d-%H%M%S"@),
{
    rfc3339_formatted(timestamp, "%Y%m%d-%H%M%S")
}

} // verus!
