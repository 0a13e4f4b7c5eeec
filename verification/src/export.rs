//! The memory export: flat, auditable file events built from a scan, a plan,
//! a manifest or an audit log, with deterministic event identifiers. Reading
//! the sources and writing the JSONL lines are the caller's.
use vstd::prelude::*;
use crate::manifest::{last_file_index, Manifest, ManifestAction};
use crate::metadata::{guess_mime, guessed_mime, FileMetadata};
use crate::paths::{file_name_or_empty, file_name_or_empty_exec, join_path, join_path_exec, normals, normals_exec};
use crate::planner::{copy_opt_string, copy_opt_strings, Plan, PlanProposal};
use crate::scanner::ScanResult;
use crate::taxonomy::{opt_str, opt_strs};
use crate::text::{append, append_lit, append_str, chars_of, eq_lit, seq_eq, slice_chars, string_of, vviews};

verus! {

// ---------------------------------------------------------------------------
// Hashing
// ---------------------------------------------------------------------------

/// The UTF-8 encoding of a string.
pub open spec fn utf8(s: Seq<char>) -> Seq<u8> {
    vstd::utf8::encode_utf8(s)
}

/// The SHA-256 digest of some bytes.
pub uninterp spec fn sha256_digest(data: Seq<u8>) -> Seq<u8>;

/// The UTF-8 bytes of a string, copied into a vector.
fn utf8_bytes(s: &str) -> (r: Vec<u8>)
    ensures
        r@ == utf8(s@),
{
    s.as_bytes_vec()
}

/// `sha2::Sha256::digest`: the SHA-256 digest of `data`, 32 bytes. The
/// contract names the digest (`sha256_digest`) and states only its length.
#[verifier::external_body]
fn sha256(data: &Vec<u8>) -> (r: Vec<u8>)
    ensures
        r@ == sha256_digest(data@),
        r@.len() == 32,
{
    <sha2::Sha256 as sha2::Digest>::digest(data.as_slice()).to_vec()
}

/// The lowercase hexadecimal digit of a value below 16.
pub open spec fn hex_digit(v: u8) -> char {
    if v < 10 { ((v + 48) as u8) as char } else { ((v - 10 + 97) as u8) as char }
}

/// Bytes in lowercase hexadecimal: two digits per byte, high nibble first.
pub open spec fn hex_lower(data: Seq<u8>) -> Seq<char>
    decreases data.len(),
{
    if data.len() == 0 {
        Seq::empty()
    } else {
        hex_lower(data.drop_last()) + seq![hex_digit(data.last() / 16), hex_digit(data.last() % 16)]
    }
}

/// `hex::encode`: `data` in lowercase hexadecimal, two digits per byte, high
/// nibble first (the crate's `HEX_CHARS_LOWER` table).
#[verifier::external_body]
fn hex_encode(data: &Vec<u8>) -> (r: String)
    ensures
        r@ == hex_lower(data@),
{
    hex::encode(data)
}

proof fn lemma_hex_len(data: Seq<u8>)
    ensures
        hex_lower(data).len() == 2 * data.len(),
    decreases data.len(),
{
    if data.len() > 0 {
        lemma_hex_len(data.drop_last());
    }
}

/// The SHA-256 of some contents, in lowercase hexadecimal (64 digits).
pub fn sha256_hex(data: &Vec<u8>) -> (r: String)
    ensures
        r@ == hex_lower(sha256_digest(data@)),
        r@.len() == 64,
{
    let d = sha256(data);
    proof { lemma_hex_len(d@); }
    hex_encode(&d)
}

/// The SHA-256 of a string's UTF-8 bytes, in lowercase hexadecimal.
pub fn sha256_str(input: &str) -> (r: String)
    ensures
        r@ == hex_lower(sha256_digest(utf8(input@))),
        r@.len() == 64,
{
    let bytes = utf8_bytes(input);
    sha256_hex(&bytes)
}

/// What an event identifier is computed from.
pub open spec fn event_input(
    source_type: Seq<char>,
    run_id: Seq<char>,
    file_path: Seq<char>,
    file_hash: Option<Seq<char>>,
    action: Seq<char>,
    target_path: Seq<char>,
) -> Seq<char> {
    "kryonix.home.memory.v1"@ + source_type + run_id + file_path + (match file_hash {
        Some(h) => h,
        None => Seq::empty(),
    }) + action + target_path
}

/// An event identifier: `evt_` and the first 32 hexadecimal digits of the
/// SHA-256 of its input.
pub open spec fn event_id(
    source_type: Seq<char>,
    run_id: Seq<char>,
    file_path: Seq<char>,
    file_hash: Option<Seq<char>>,
    action: Seq<char>,
    target_path: Seq<char>,
) -> Seq<char> {
    "evt_"@ + hex_lower(sha256_digest(utf8(event_input(source_type, run_id, file_path, file_hash, action, target_path)))).take(32)
}

/// The deterministic identifier of an event.
pub fn generate_event_id(
    source_type: &str,
    run_id: &str,
    file_path: &str,
    file_hash: Option<&str>,
    action: &str,
    target_path: &str,
) -> (r: String)
    ensures
        r@ == event_id(source_type@, run_id@, file_path@, match file_hash { Some(h) => Some(h@), None => None }, action@, target_path@),
{
    let mut input = chars_of("kryonix.home.memory.v1");
    append(&mut input, &chars_of(source_type));
    append(&mut input, &chars_of(run_id));
    append(&mut input, &chars_of(file_path));
    match file_hash {
        Some(h) => append(&mut input, &chars_of(h)),
        None => {},
    }
    append(&mut input, &chars_of(action));
    append(&mut input, &chars_of(target_path));
    let ghost fh = match file_hash { Some(h) => Some(h@), None => None::<Seq<char>> };
    assert(input@ =~= event_input(source_type@, run_id@, file_path@, fh, action@, target_path@));
    let s = string_of(&input);
    let hex = sha256_str(s.as_str());
    let hc = chars_of(hex.as_str());
    let mut out = chars_of("evt_");
    let head = slice_chars(&hc, 0, 32);
    append(&mut out, &head);
    assert(hc@.subrange(0, 32) =~= hc@.take(32));
    string_of(&out)
}

// ---------------------------------------------------------------------------
// Paths never exported
// ---------------------------------------------------------------------------

/// Names of folders whose contents are never exported.
pub open spec fn forbidden_component(n: Seq<char>) -> bool {
    n == ".config"@ || n == ".local"@ || n == ".cache"@ || n == ".ssh"@ || n == ".gnupg"@ || n == ".mozilla"@
        || n == ".var"@ || n == ".npm"@ || n == ".cargo"@ || n == ".rustup"@ || n == ".git"@
}

/// Some name component of the path is a forbidden folder.
pub open spec fn forbidden(p: Seq<char>) -> bool {
    exists|i: int| 0 <= i < normals(p).len() && forbidden_component(#[trigger] normals(p)[i])
}

/// Whether a path lies in a folder that is never exported.
pub fn is_forbidden_path(path_str: &str) -> (b: bool)
    ensures
        b == forbidden(path_str@),
{
    let ns = normals_exec(&chars_of(path_str));
    let mut i: usize = 0;
    while i < ns.len()
        invariant
            i <= ns@.len(),
            vviews(ns@) == normals(path_str@),
            forall|k: int| 0 <= k < i ==> !forbidden_component(#[trigger] normals(path_str@)[k]),
        decreases ns@.len() - i,
    {
        let n = &ns[i];
        assert(n@ == normals(path_str@)[i as int]);
        if eq_lit(n, ".config") || eq_lit(n, ".local") || eq_lit(n, ".cache") || eq_lit(n, ".ssh") || eq_lit(n, ".gnupg")
            || eq_lit(n, ".mozilla") || eq_lit(n, ".var") || eq_lit(n, ".npm") || eq_lit(n, ".cargo") || eq_lit(n, ".rustup")
            || eq_lit(n, ".git") {
            return true;
        }
        i += 1;
    }
    false
}

// ---------------------------------------------------------------------------
// Events
// ---------------------------------------------------------------------------

/// One exported file event.
#[derive(Debug)]
pub struct FileEvent {
    pub schema_version: String,
    pub event_id: String,
    pub timestamp: String,
    pub hostname: String,
    pub user: String,
    /// `scan`, `plan`, `manifest` or `audit`.
    pub source_type: String,
    pub source_run_id: String,
    pub file_path: String,
    pub file_hash: Option<String>,
    pub mime: String,
    pub size: u64,
    pub action: String,
    pub category_id: Option<String>,
    pub category_label: Option<String>,
    pub category_dir: Option<String>,
    /// Taxonomy score in basis points.
    pub taxonomy_score_bp: Option<u32>,
    pub matched_keywords: Option<Vec<String>>,
    pub suggested_dir: Option<String>,
    pub suggested_filename: Option<String>,
    pub naming_profile: Option<String>,
    pub taxonomy_profile: Option<String>,
    pub manifest_id: Option<String>,
    pub audit_id: Option<String>,
    pub action_status: String,
    pub reason: String,
    pub source_path: String,
    pub target_path: String,
    pub content_exported: bool,
}

/// Where events are exported from.
#[derive(Debug, Clone, Copy, PartialEq, Eq, Structural)]
pub enum ExportSource {
    LatestScan,
    LatestPlan,
    LatestManifest,
    LatestAudit,
}

/// The source a name selects.
pub open spec fn export_source_of(s: Seq<char>) -> Option<ExportSource> {
    if s == "latest-scan"@ {
        Some(ExportSource::LatestScan)
    } else if s == "latest-plan"@ {
        Some(ExportSource::LatestPlan)
    } else if s == "latest-manifest"@ {
        Some(ExportSource::LatestManifest)
    } else if s == "latest-audit"@ {
        Some(ExportSource::LatestAudit)
    } else {
        None
    }
}

/// Reads the name of an export source; an unknown name gives the message that reports it.
pub fn parse_export_source(s: &str) -> (r: Result<ExportSource, String>)
    ensures
        match r {
            Ok(src) => export_source_of(s@) == Some(src),
            Err(msg) => export_source_of(s@) is None && msg@ == "Fonte de exportação '"@ + s@
                + "' não reconhecida. Use latest-scan, latest-plan, latest-manifest ou latest-audit"@,
        },
{
    let c = chars_of(s);
    if eq_lit(&c, "latest-scan") {
        Ok(ExportSource::LatestScan)
    } else if eq_lit(&c, "latest-plan") {
        Ok(ExportSource::LatestPlan)
    } else if eq_lit(&c, "latest-manifest") {
        Ok(ExportSource::LatestManifest)
    } else if eq_lit(&c, "latest-audit") {
        Ok(ExportSource::LatestAudit)
    } else {
        let mut m = chars_of("Fonte de exportação '");
        append(&mut m, &c);
        append_lit(&mut m, "' não reconhecida. Use latest-scan, latest-plan, latest-manifest ou latest-audit");
        Err(string_of(&m))
    }
}

/// The fields every event of a given origin shares.
pub open spec fn event_base(
    e: FileEvent,
    source_type: Seq<char>,
    run_id: Seq<char>,
    timestamp: Seq<char>,
    hostname: Seq<char>,
    user: Seq<char>,
    path: Seq<char>,
    hash: Option<Seq<char>>,
    action: Seq<char>,
    target: Seq<char>,
) -> bool {
    &&& e.schema_version@ == "kryonix.home.memory.v1"@
    &&& e.event_id@ == event_id(source_type, run_id, path, hash, action, target)
    &&& e.timestamp@ == timestamp
    &&& e.hostname@ == hostname
    &&& e.user@ == user
    &&& e.source_type@ == source_type
    &&& e.source_run_id@ == run_id
    &&& e.file_path@ == path
    &&& opt_str(e.file_hash) == hash
    &&& e.action@ == action
    &&& e.source_path@ == path
    &&& e.target_path@ == target
    &&& !e.content_exported
}

fn new_event(
    source_type: &str,
    run_id: &String,
    timestamp: &String,
    hostname: &String,
    user: &String,
    path: &String,
    hash: Option<String>,
    action: &String,
    target: &String,
) -> (e: FileEvent)
    ensures
        event_base(e, source_type@, run_id@, timestamp@, hostname@, user@, path@, opt_str(hash), action@, target@),
        e.category_id is None && e.category_label is None && e.category_dir is None,
        e.taxonomy_score_bp is None && e.matched_keywords is None,
        e.suggested_dir is None && e.suggested_filename is None,
        e.naming_profile is None && e.taxonomy_profile is None,
        e.manifest_id is None && e.audit_id is None,
{
    let id = match &hash {
        Some(h) => generate_event_id(source_type, run_id.as_str(), path.as_str(), Some(h.as_str()), action.as_str(), target.as_str()),
        None => generate_event_id(source_type, run_id.as_str(), path.as_str(), None, action.as_str(), target.as_str()),
    };
    FileEvent {
        schema_version: string_of(&chars_of("kryonix.home.memory.v1")),
        event_id: id,
        timestamp: timestamp.clone(),
        hostname: hostname.clone(),
        user: user.clone(),
        source_type: string_of(&chars_of(source_type)),
        source_run_id: run_id.clone(),
        file_path: path.clone(),
        file_hash: hash,
        mime: String::new(),
        size: 0,
        action: action.clone(),
        category_id: None,
        category_label: None,
        category_dir: None,
        taxonomy_score_bp: None,
        matched_keywords: None,
        suggested_dir: None,
        suggested_filename: None,
        naming_profile: None,
        taxonomy_profile: None,
        manifest_id: None,
        audit_id: None,
        action_status: String::new(),
        reason: String::new(),
        source_path: path.clone(),
        target_path: target.clone(),
        content_exported: false,
    }
}

/// The event of a scanned file.
pub open spec fn scan_event(e: FileEvent, scan: ScanResult, f: FileMetadata, hash: Option<Seq<char>>, hostname: Seq<char>, user: Seq<char>) -> bool {
    &&& event_base(e, "scan"@, scan.run_id@, scan.timestamp@, hostname, user, f.path@, hash, "scan"@, f.path@)
    &&& e.mime@ == f.mime@
    &&& e.size == f.size_bytes
    &&& e.category_id is None && e.category_label is None && e.category_dir is None
    &&& e.taxonomy_score_bp is None && e.matched_keywords is None
    &&& e.suggested_dir is None && e.suggested_filename is None
    &&& e.naming_profile is None && e.taxonomy_profile is None
    &&& e.manifest_id is None && e.audit_id is None
    &&& e.action_status@ == "none"@
    &&& e.reason@ == "Arquivo escaneado na run "@ + scan.run_id@
}

/// The event of one scanned file.
pub fn scan_file_event(scan: &ScanResult, f: &FileMetadata, hash: Option<String>, hostname: &String, user: &String) -> (e: FileEvent)
    ensures
        scan_event(e, *scan, *f, opt_str(hash), hostname@, user@),
{
    let act = string_of(&chars_of("scan"));
    let mut e = new_event("scan", &scan.run_id, &scan.timestamp, hostname, user, &f.path, hash, &act, &f.path);
    e.mime = f.mime.clone();
    e.size = f.size_bytes;
    e.action_status = string_of(&chars_of("none"));
    let mut r = chars_of("Arquivo escaneado na run ");
    append_str(&mut r, &scan.run_id);
    e.reason = string_of(&r);
    e
}

/// The destination of a plan proposal: its directory under the home, and its
/// new name or its current one.
pub open spec fn proposal_target(home: Seq<char>, p: PlanProposal) -> Seq<char> {
    join_path(join_path(home, p.new_dir@), match p.new_filename {
        Some(n) => n@,
        None => file_name_or_empty(p.old_path@),
    })
}

/// The event of a plan proposal.
pub open spec fn plan_event(e: FileEvent, plan: Plan, scan: ScanResult, p: PlanProposal, hash: Option<Seq<char>>, hostname: Seq<char>, user: Seq<char>) -> bool {
    let target = proposal_target(plan.home_dir@, p);
    let found = last_file_index(scan.files@, p.old_path@);
    &&& event_base(e, "plan"@, plan.run_id@, scan.timestamp@, hostname, user, p.old_path@, hash, p.action@, target)
    &&& e.mime@ == (match found { Some(i) => scan.files@[i].mime@, None => guessed_mime(p.old_path@) })
    &&& e.size == (match found { Some(i) => scan.files@[i].size_bytes, None => 0 })
    &&& opt_str(e.category_id) == opt_str(p.category_id)
    &&& opt_str(e.category_label) == opt_str(p.category_label)
    &&& opt_str(e.category_dir) == opt_str(p.category_dir)
    &&& e.taxonomy_score_bp == p.taxonomy_score_bp
    &&& opt_strs(e.matched_keywords) == opt_strs(p.matched_keywords)
    &&& opt_str(e.suggested_dir) == Some(p.new_dir@)
    &&& opt_str(e.suggested_filename) == opt_str(p.new_filename)
    &&& opt_str(e.naming_profile) == opt_str(p.naming_profile)
    &&& opt_str(e.taxonomy_profile) == opt_str(p.taxonomy_profile)
    &&& e.manifest_id is None && e.audit_id is None
    &&& e.action_status@ == "planned"@
    &&& e.reason@ == p.reason@
}

/// The event of one plan proposal; the scan supplies the file's MIME type and
/// size where it recorded the file.
pub fn plan_proposal_event(plan: &Plan, scan: &ScanResult, p: &PlanProposal, hash: Option<String>, hostname: &String, user: &String) -> (e: FileEvent)
    ensures
        plan_event(e, *plan, *scan, *p, opt_str(hash), hostname@, user@),
{
    let name = file_name_or_empty_exec(&chars_of(p.old_path.as_str()));
    let target_name = match &p.new_filename {
        Some(n) => chars_of(n.as_str()),
        None => name,
    };
    let base = join_path_exec(&chars_of(plan.home_dir.as_str()), &chars_of(p.new_dir.as_str()));
    let target = string_of(&join_path_exec(&base, &target_name));
    let mut e = new_event("plan", &plan.run_id, &scan.timestamp, hostname, user, &p.old_path, hash, &p.action, &target);
    match find_file(&scan.files, &p.old_path) {
        Some(i) => {
            e.mime = scan.files[i].mime.clone();
            e.size = scan.files[i].size_bytes;
        },
        None => {
            e.mime = guess_mime(p.old_path.as_str());
            e.size = 0;
        },
    }
    e.category_id = copy_opt_string(&p.category_id);
    e.category_label = copy_opt_string(&p.category_label);
    e.category_dir = copy_opt_string(&p.category_dir);
    e.taxonomy_score_bp = p.taxonomy_score_bp;
    e.matched_keywords = copy_opt_strings(&p.matched_keywords);
    e.suggested_dir = Some(p.new_dir.clone());
    e.suggested_filename = copy_opt_string(&p.new_filename);
    e.naming_profile = copy_opt_string(&p.naming_profile);
    e.taxonomy_profile = copy_opt_string(&p.taxonomy_profile);
    e.action_status = string_of(&chars_of("planned"));
    e.reason = p.reason.clone();
    e
}

fn find_file(files: &Vec<FileMetadata>, path: &String) -> (r: Option<usize>)
    ensures
        match r {
            Some(i) => last_file_index(files@, path@) == Some(i as int) && i < files@.len(),
            None => last_file_index(files@, path@) is None,
        },
{
    let pc = chars_of(path.as_str());
    let mut k: usize = files.len();
    assert(files@.subrange(0, k as int) =~= files@);
    while k > 0
        invariant
            k <= files@.len(),
            pc@ == path@,
            last_file_index(files@, path@) == last_file_index(files@.subrange(0, k as int), path@),
        decreases k,
    {
        let fc = chars_of(files[k - 1].path.as_str());
        assert(files@.subrange(0, k as int).drop_last() == files@.subrange(0, k - 1));
        if seq_eq(&fc, &pc) {
            return Some(k - 1);
        }
        k -= 1;
    }
    None
}

/// The event of a manifest's (or, for `audit`, an audit log's) action.
pub open spec fn action_event(e: FileEvent, m: Manifest, a: ManifestAction, hash: Option<Seq<char>>, audit: bool) -> bool {
    let st = if audit { "audit"@ } else { "manifest"@ };
    &&& event_base(e, st, m.run_id@, m.timestamp@, m.hostname@, m.user@, a.source_path@, hash, a.action_type@, a.target_path@)
    &&& e.mime@ == a.mime@
    &&& e.size == a.size_bytes
    &&& opt_str(e.category_id) == opt_str(a.category_id)
    &&& opt_str(e.category_label) == opt_str(a.category_label)
    &&& opt_str(e.category_dir) == opt_str(a.category_dir)
    &&& e.taxonomy_score_bp == a.taxonomy_score_bp
    &&& opt_strs(e.matched_keywords) == opt_strs(a.matched_keywords)
    &&& opt_str(e.suggested_dir) == opt_str(a.category_dir)
    &&& opt_str(e.suggested_filename) == opt_str(a.new_filename)
    &&& opt_str(e.naming_profile) == opt_str(a.naming_profile)
    &&& opt_str(e.taxonomy_profile) == opt_str(a.taxonomy_profile)
    &&& opt_str(e.manifest_id) == Some(m.run_id@)
    &&& opt_str(e.audit_id) == (if audit { Some(m.run_id@) } else { None })
    &&& e.action_status@ == a.status@
    &&& e.reason@ == a.reason@
}

/// The hash an action's event carries: the one recorded in the manifest, else
/// the one computed now (`current`).
pub open spec fn action_hash(a: ManifestAction, current: Option<Seq<char>>) -> Option<Seq<char>> {
    match a.old_hash {
        Some(h) => Some(h@),
        None => current,
    }
}

/// The event of one action of a manifest or audit log.
pub fn manifest_action_event(m: &Manifest, a: &ManifestAction, current_hash: Option<String>, audit: bool) -> (e: FileEvent)
    ensures
        action_event(e, *m, *a, action_hash(*a, opt_str(current_hash)), audit),
{
    let hash = match &a.old_hash {
        Some(h) => Some(h.clone()),
        None => current_hash,
    };
    let st = if audit { "audit" } else { "manifest" };
    let mut e = new_event(st, &m.run_id, &m.timestamp, &m.hostname, &m.user, &a.source_path, hash, &a.action_type, &a.target_path);
    e.mime = a.mime.clone();
    e.size = a.size_bytes;
    e.category_id = copy_opt_string(&a.category_id);
    e.category_label = copy_opt_string(&a.category_label);
    e.category_dir = copy_opt_string(&a.category_dir);
    e.taxonomy_score_bp = a.taxonomy_score_bp;
    e.matched_keywords = copy_opt_strings(&a.matched_keywords);
    e.suggested_dir = copy_opt_string(&a.category_dir);
    e.suggested_filename = copy_opt_string(&a.new_filename);
    e.naming_profile = copy_opt_string(&a.naming_profile);
    e.taxonomy_profile = copy_opt_string(&a.taxonomy_profile);
    e.manifest_id = Some(m.run_id.clone());
    e.audit_id = if audit { Some(m.run_id.clone()) } else { None };
    e.action_status = a.status.clone();
    e.reason = a.reason.clone();
    e
}

/// The indices of the paths that may be exported, in order.
pub open spec fn exportable(paths: Seq<Seq<char>>) -> Seq<int>
    decreases paths.len(),
{
    if paths.len() == 0 {
        Seq::empty()
    } else {
        let r = exportable(paths.drop_last());
        if forbidden(paths.last()) { r } else { r.push(paths.len() - 1) }
    }
}

proof fn lemma_exportable_step(paths: Seq<Seq<char>>, i: int)
    requires
        0 <= i < paths.len(),
    ensures
        paths.subrange(0, i + 1).drop_last() == paths.subrange(0, i),
        paths.subrange(0, i + 1).last() == paths[i],
        forall|k: int| 0 <= k < exportable(paths.subrange(0, i)).len() ==>
            exportable(paths.subrange(0, i + 1))[k] == #[trigger] exportable(paths.subrange(0, i))[k],
{
    assert(paths.subrange(0, i + 1).drop_last() =~= paths.subrange(0, i));
}

pub open spec fn file_paths(fs: Seq<FileMetadata>) -> Seq<Seq<char>> {
    fs.map_values(|f: FileMetadata| f.path@)
}

pub open spec fn proposal_paths(ps: Seq<PlanProposal>) -> Seq<Seq<char>> {
    ps.map_values(|p: PlanProposal| p.old_path@)
}

pub open spec fn action_paths(s: Seq<ManifestAction>) -> Seq<Seq<char>> {
    s.map_values(|a: ManifestAction| a.source_path@)
}

/// The events of a scan: one per scanned file outside the forbidden folders.
/// `hashes[i]` is the SHA-256 of file `i` where it could be read.
pub fn scan_events(scan: &ScanResult, hashes: &Vec<Option<String>>, hostname: &String, user: &String) -> (r: Vec<FileEvent>)
    requires
        hashes@.len() == scan.files@.len(),
    ensures
        r@.len() == exportable(file_paths(scan.files@)).len(),
        forall|k: int| 0 <= k < r@.len() ==> {
            let i = #[trigger] exportable(file_paths(scan.files@))[k];
            scan_event(r@[k], *scan, scan.files@[i], opt_str(hashes@[i]), hostname@, user@)
        },
{
    let ghost paths = file_paths(scan.files@);
    let mut out: Vec<FileEvent> = Vec::new();
    let mut i: usize = 0;
    while i < scan.files.len()
        invariant
            i <= scan.files@.len(),
            hashes@.len() == scan.files@.len(),
            paths == file_paths(scan.files@),
            out@.len() == exportable(paths.subrange(0, i as int)).len(),
            forall|k: int| 0 <= k < out@.len() ==> {
                let j = #[trigger] exportable(paths.subrange(0, i as int))[k];
                scan_event(out@[k], *scan, scan.files@[j], opt_str(hashes@[j]), hostname@, user@)
            },
        decreases scan.files@.len() - i,
    {
        proof { lemma_exportable_step(paths, i as int); }
        let f = &scan.files[i];
        if !is_forbidden_path(f.path.as_str()) {
            let e = scan_file_event(scan, f, copy_opt_string(&hashes[i]), hostname, user);
            out.push(e);
        }
        i += 1;
    }
    assert(paths.subrange(0, i as int) =~= paths);
    out
}

/// The events of a plan: one per proposal outside the forbidden folders.
/// `hashes[i]` is the SHA-256 of the file of proposal `i` where it could be read.
pub fn plan_events(plan: &Plan, scan: &ScanResult, hashes: &Vec<Option<String>>, hostname: &String, user: &String) -> (r: Vec<FileEvent>)
    requires
        hashes@.len() == plan.proposals@.len(),
    ensures
        r@.len() == exportable(proposal_paths(plan.proposals@)).len(),
        forall|k: int| 0 <= k < r@.len() ==> {
            let i = #[trigger] exportable(proposal_paths(plan.proposals@))[k];
            plan_event(r@[k], *plan, *scan, plan.proposals@[i], opt_str(hashes@[i]), hostname@, user@)
        },
{
    let ghost paths = proposal_paths(plan.proposals@);
    let mut out: Vec<FileEvent> = Vec::new();
    let mut i: usize = 0;
    while i < plan.proposals.len()
        invariant
            i <= plan.proposals@.len(),
            hashes@.len() == plan.proposals@.len(),
            paths == proposal_paths(plan.proposals@),
            out@.len() == exportable(paths.subrange(0, i as int)).len(),
            forall|k: int| 0 <= k < out@.len() ==> {
                let j = #[trigger] exportable(paths.subrange(0, i as int))[k];
                plan_event(out@[k], *plan, *scan, plan.proposals@[j], opt_str(hashes@[j]), hostname@, user@)
            },
        decreases plan.proposals@.len() - i,
    {
        proof { lemma_exportable_step(paths, i as int); }
        let p = &plan.proposals[i];
        if !is_forbidden_path(p.old_path.as_str()) {
            let e = plan_proposal_event(plan, scan, p, copy_opt_string(&hashes[i]), hostname, user);
            out.push(e);
        }
        i += 1;
    }
    assert(paths.subrange(0, i as int) =~= paths);
    out
}

/// The events of a manifest (or audit log): one per action outside the
/// forbidden folders. `current_hashes[i]` is the SHA-256 of the source of
/// action `i` now, used where the manifest recorded none.
pub fn manifest_events(m: &Manifest, current_hashes: &Vec<Option<String>>, audit: bool) -> (r: Vec<FileEvent>)
    requires
        current_hashes@.len() == m.actions@.len(),
    ensures
        r@.len() == exportable(action_paths(m.actions@)).len(),
        forall|k: int| 0 <= k < r@.len() ==> {
            let i = #[trigger] exportable(action_paths(m.actions@))[k];
            action_event(r@[k], *m, m.actions@[i], action_hash(m.actions@[i], opt_str(current_hashes@[i])), audit)
        },
{
    let ghost paths = action_paths(m.actions@);
    let mut out: Vec<FileEvent> = Vec::new();
    let mut i: usize = 0;
    while i < m.actions.len()
        invariant
            i <= m.actions@.len(),
            current_hashes@.len() == m.actions@.len(),
            paths == action_paths(m.actions@),
            out@.len() == exportable(paths.subrange(0, i as int)).len(),
            forall|k: int| 0 <= k < out@.len() ==> {
                let j = #[trigger] exportable(paths.subrange(0, i as int))[k];
                action_event(out@[k], *m, m.actions@[j], action_hash(m.actions@[j], opt_str(current_hashes@[j])), audit)
            },
        decreases m.actions@.len() - i,
    {
        proof { lemma_exportable_step(paths, i as int); }
        let a = &m.actions[i];
        if !is_forbidden_path(a.source_path.as_str()) {
            let e = manifest_action_event(m, a, copy_opt_string(&current_hashes[i]), audit);
            out.push(e);
        }
        i += 1;
    }
    assert(paths.subrange(0, i as int) =~= paths);
    out
}

/// No event is ever built for a path inside a forbidden folder.
pub proof fn lemma_forbidden_never_exported(paths: Seq<Seq<char>>, k: int)
    requires
        0 <= k < exportable(paths).len(),
    ensures
        0 <= exportable(paths)[k] < paths.len(),
        !forbidden(paths[exportable(paths)[k]]),
    decreases paths.len(),
{
    let r = exportable(paths.drop_last());
    if k < r.len() {
        lemma_forbidden_never_exported(paths.drop_last(), k);
        assert(paths.drop_last()[r[k]] == paths[r[k]]);
    }
}

} // verus!
