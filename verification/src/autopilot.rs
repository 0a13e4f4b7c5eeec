//! The safe autopilot: its configuration, the host gate, and the strict
//! policy that sorts plan proposals into decision buckets.
use vstd::prelude::*;
use crate::decision::DecisionClass;
use crate::paths::{extension_or_empty, extension_or_empty_exec, file_name_or_empty, file_name_or_empty_exec, join_path, join_path_exec};
use crate::planner::PlanProposal;
use crate::text::{chars_of, contains, eq_lit, has_sub, lower_chars, lowercase, seq_eq, starts, starts_with, string_of, strs};

verus! {

/// Configuration of the autopilot.
#[derive(Debug)]
pub struct AutopilotConfig {
    pub enabled: bool,
    /// Minimum confidence in basis points.
    pub min_confidence_bp: u32,
    pub max_actions: usize,
    pub dry_run: bool,
    pub staging_only: bool,
    pub blacklist_extensions: Vec<String>,
    pub blacklist_folders: Vec<String>,
}

/// The configuration file's layout: an optional `[autopilot]` table.
#[derive(Debug)]
pub struct AutopilotConfigContainer {
    pub autopilot: Option<AutopilotConfig>,
}

impl Default for AutopilotConfigContainer {
    fn default() -> (c: Self)
        ensures
            c.autopilot is None,
    {
        AutopilotConfigContainer { autopilot: None }
    }
}

/// The default minimum confidence: 0.95, in basis points.
pub fn default_min_confidence() -> (r: u32)
    ensures
        r == 9500,
{
    9500
}

/// The default limit of automatic actions per run.
pub fn default_max_actions() -> (r: usize)
    ensures
        r == 100,
{
    100
}

pub fn default_true() -> (r: bool)
    ensures
        r,
{
    true
}

pub fn default_false() -> (r: bool)
    ensures
        !r,
{
    false
}

/// Extensions the autopilot never moves: executables and scripts, virtual
/// machine disks, databases, secrets and keys.
pub open spec fn blacklist_extensions_spec() -> Seq<Seq<char>> {
    seq![
        "exe"@, "msi"@, "sh"@, "bat"@, "ps1"@, "bin"@, "run"@, "qcow2"@, "vmdk"@, "vdi"@, "vhd"@,
        "vhdx"@, "sqlite"@, "db"@, "sqlite3"@, "env"@, "token"@, "secret"@, "key"@, "pem"@,
    ]
}

/// Folders the autopilot never touches.
pub open spec fn blacklist_folders_spec() -> Seq<Seq<char>> {
    seq![
        "Obsidian Vault"@, ".ssh"@, ".gnupg"@, ".config"@, ".env"@, ".password-store"@, ".pki"@,
        "VMs"@, "libvirt"@, ".local/share/gnome-boxes"@, ".local/share/libvirt"@,
    ]
}

fn strings_of(items: &[&str]) -> (r: Vec<String>)
    ensures
        r@.len() == items@.len(),
        forall|k: int| 0 <= k < items@.len() ==> #[trigger] r@[k]@ == items@[k]@,
{
    let mut out: Vec<String> = Vec::new();
    let mut i: usize = 0;
    while i < items.len()
        invariant
            i <= items@.len(),
            out@.len() == i,
            forall|k: int| 0 <= k < i ==> #[trigger] out@[k]@ == items@[k]@,
        decreases items@.len() - i,
    {
        out.push(string_of(&chars_of(items[i])));
        i += 1;
    }
    out
}

/// The default extension blacklist.
pub fn default_blacklist_extensions() -> (r: Vec<String>)
    ensures
        strs(r@) == blacklist_extensions_spec(),
{
    let items: [&str; 20] = [
        "exe", "msi", "sh", "bat", "ps1", "bin", "run", "qcow2", "vmdk", "vdi", "vhd", "vhdx", "sqlite",
        "db", "sqlite3", "env", "token", "secret", "key", "pem",
    ];
    let r = strings_of(&items);
    assert(strs(r@) =~= blacklist_extensions_spec());
    r
}

/// The default folder blacklist.
pub fn default_blacklist_folders() -> (r: Vec<String>)
    ensures
        strs(r@) == blacklist_folders_spec(),
{
    let items: [&str; 11] = [
        "Obsidian Vault", ".ssh", ".gnupg", ".config", ".env", ".password-store", ".pki", "VMs", "libvirt",
        ".local/share/gnome-boxes", ".local/share/libvirt",
    ];
    let r = strings_of(&items);
    assert(strs(r@) =~= blacklist_folders_spec());
    r
}

impl Default for AutopilotConfig {
    /// The safe defaults: disabled, dry-run, 0.95 minimum confidence, at most
    /// 100 actions, no staging, and the default blacklists.
    fn default() -> (c: Self)
        ensures
            !c.enabled,
            c.min_confidence_bp == 9500,
            c.max_actions == 100,
            c.dry_run,
            !c.staging_only,
            strs(c.blacklist_extensions@) == blacklist_extensions_spec(),
            strs(c.blacklist_folders@) == blacklist_folders_spec(),
    {
        AutopilotConfig {
            enabled: false,
            min_confidence_bp: 9500,
            max_actions: 100,
            dry_run: true,
            staging_only: false,
            blacklist_extensions: default_blacklist_extensions(),
            blacklist_folders: default_blacklist_folders(),
        }
    }
}

/// Hosts allowed to run the autopilot on the user's home.
pub open spec fn allowed_hosts() -> Seq<Seq<char>> {
    seq!["inspiron"@, "inspiron-nina"@]
}

/// The hosts allowed to run the autopilot (workstations, never the server).
pub fn allowed_autopilot_hostnames() -> (r: Vec<String>)
    ensures
        strs(r@) == allowed_hosts(),
{
    let items: [&str; 2] = ["inspiron", "inspiron-nina"];
    let r = strings_of(&items);
    assert(strs(r@) =~= allowed_hosts());
    r
}

/// The host (lowercased name, or `unknown` when it cannot be read) may run the autopilot.
pub open spec fn host_allowed(hostname: Option<Seq<char>>) -> bool {
    let h = match hostname {
        Some(n) => lowercase(n),
        None => "unknown"@,
    };
    starts(h, "inspiron"@) || starts(h, "inspiron-nina"@) || h == "unknown"@
}

/// Whether the host may run the autopilot: its lowercased name begins with an
/// allowed host name, or the name could not be read.
pub fn is_host_allowed(hostname: Option<&str>) -> (b: bool)
    ensures
        b == host_allowed(match hostname { Some(h) => Some(h@), None => None }),
{
    let h = match hostname {
        Some(n) => lower_chars(n),
        None => chars_of("unknown"),
    };
    let allowed = allowed_autopilot_hostnames();
    let mut any = false;
    let mut i: usize = 0;
    while i < allowed.len()
        invariant
            i <= allowed@.len(),
            strs(allowed@) == allowed_hosts(),
            any == exists|k: int| 0 <= k < i && starts(h@, #[trigger] strs(allowed@)[k]),
        decreases allowed@.len() - i,
    {
        let a = chars_of(allowed[i].as_str());
        let s = starts_with(&h, &a);
        proof {
            assert(a@ == strs(allowed@)[i as int]);
            if s {
                assert(starts(h@, strs(allowed@)[i as int]));
            }
        }
        any = any || s;
        i += 1;
    }
    proof {
        assert(strs(allowed@).len() == 2);
        assert(strs(allowed@)[0] == "inspiron"@);
        if any {
            let k = choose|k: int| 0 <= k < i && starts(h@, #[trigger] strs(allowed@)[k]);
            assert(k == 0 || k == 1);
        }
        assert(strs(allowed@)[1] == "inspiron-nina"@);
        if starts(h@, "inspiron"@) {
            assert(starts(h@, strs(allowed@)[0]));
        }
        if starts(h@, "inspiron-nina"@) {
            assert(starts(h@, strs(allowed@)[1]));
        }
    }
    any || eq_lit(&h, "unknown")
}

/// Whether the run is a simulation: an explicit `--dry-run` wins, then an
/// explicit `--execute`, then the configuration.
pub fn resolve_dry_run(dry_run_flag: bool, execute_flag: bool, config_dry_run: bool) -> (r: bool)
    ensures
        r == (if dry_run_flag { true } else if execute_flag { false } else { config_dry_run }),
{
    if dry_run_flag {
        true
    } else if execute_flag {
        false
    } else {
        config_dry_run
    }
}

/// A real (non-simulated) run is permitted only when the configuration enables the autopilot.
pub fn execution_permitted(is_dry_run: bool, enabled: bool) -> (r: bool)
    ensures
        r == (is_dry_run || enabled),
{
    is_dry_run || enabled
}

// ---------------------------------------------------------------------------
// Policy triage
// ---------------------------------------------------------------------------

/// The proposal's file is on one of the configured blacklists.
pub open spec fn blacklisted(old_path: Seq<char>, ext_bl: Seq<Seq<char>>, folder_bl: Seq<Seq<char>>) -> bool {
    let e = lowercase(extension_or_empty(old_path));
    let l = lowercase(old_path);
    (exists|k: int| 0 <= k < ext_bl.len() && lowercase(#[trigger] ext_bl[k]) == e)
        || (exists|k: int| 0 <= k < folder_bl.len() && has_sub(l, lowercase(#[trigger] folder_bl[k])))
}

/// The class a proposal keeps after the policy: blacklisted files are
/// blocked; certified proposals below the confidence floors or not of low
/// risk go to human review.
pub open spec fn policy_class(p: PlanProposal, cfg: AutopilotConfig) -> DecisionClass {
    let c1 = if blacklisted(p.old_path@, strs(cfg.blacklist_extensions@), strs(cfg.blacklist_folders@)) {
        DecisionClass::BlockedUnsafe
    } else {
        p.decision_class
    };
    if c1 == DecisionClass::AutoMoveCertified && (p.confidence_bp < 9500 || p.confidence_bp < cfg.min_confidence_bp
        || p.risk@ != "low"@) {
        DecisionClass::NeedsHumanReview
    } else {
        c1
    }
}

/// What the ordering and the buckets are stated over: a proposal's
/// confidence and source path.
pub open spec fn key(p: PlanProposal) -> (u32, Seq<char>) {
    (p.confidence_bp, p.old_path@)
}

pub open spec fn keys(s: Seq<PlanProposal>) -> Seq<(u32, Seq<char>)> {
    s.map_values(|p: PlanProposal| key(p))
}

/// The keys of the proposals that the policy puts in class `d`, in input order.
pub open spec fn class_keys(s: Seq<PlanProposal>, cfg: AutopilotConfig, d: DecisionClass) -> Seq<(u32, Seq<char>)>
    decreases s.len(),
{
    if s.len() == 0 {
        Seq::empty()
    } else {
        let r = class_keys(s.drop_last(), cfg, d);
        if policy_class(s.last(), cfg) == d {
            r.push(key(s.last()))
        } else {
            r
        }
    }
}

/// Where a stable sort by decreasing confidence puts `x` among the sorted `r`:
/// after every item of greater or equal confidence.
pub open spec fn insert_pos(r: Seq<(u32, Seq<char>)>, x: (u32, Seq<char>)) -> int
    decreases r.len(),
{
    if r.len() == 0 {
        0
    } else if r.last().0 >= x.0 {
        r.len() as int
    } else {
        insert_pos(r.drop_last(), x)
    }
}

/// A stable sort by decreasing confidence.
pub open spec fn sort_by_confidence(s: Seq<(u32, Seq<char>)>) -> Seq<(u32, Seq<char>)>
    decreases s.len(),
{
    if s.len() == 0 {
        Seq::empty()
    } else {
        let r = sort_by_confidence(s.drop_last());
        r.insert(insert_pos(r, s.last()), s.last())
    }
}

pub open spec fn sorted_desc(s: Seq<(u32, Seq<char>)>) -> bool {
    forall|i: int, j: int| 0 <= i < j < s.len() ==> s[i].0 >= s[j].0
}

/// The certified proposals in the order the autopilot applies them.
pub open spec fn certified_order(s: Seq<PlanProposal>, cfg: AutopilotConfig) -> Seq<(u32, Seq<char>)> {
    sort_by_confidence(class_keys(s, cfg, DecisionClass::AutoMoveCertified))
}

/// How many certified proposals fit under `max_actions`.
pub open spec fn kept_count(s: Seq<PlanProposal>, cfg: AutopilotConfig) -> int {
    let n = certified_order(s, cfg).len() as int;
    if n < cfg.max_actions { n } else { cfg.max_actions as int }
}

/// What the autopilot requires of a proposal it applies.
pub open spec fn certifiable(c: PlanProposal, cfg: AutopilotConfig) -> bool {
    &&& c.decision_class == DecisionClass::AutoMoveCertified
    &&& c.confidence_bp >= 9500
    &&& c.confidence_bp >= cfg.min_confidence_bp
    &&& c.risk@ == "low"@
    &&& !blacklisted(c.old_path@, strs(cfg.blacklist_extensions@), strs(cfg.blacklist_folders@))
}

pub open spec fn all_class(s: Seq<PlanProposal>, d: DecisionClass) -> bool {
    forall|i: int| 0 <= i < s.len() ==> #[trigger] s[i].decision_class == d
}

/// The buckets of the autopilot's report.
#[derive(Debug)]
pub struct Triage {
    pub certified: Vec<PlanProposal>,
    pub review: Vec<PlanProposal>,
    pub blocked: Vec<PlanProposal>,
    pub ignored: Vec<PlanProposal>,
    pub keep: Vec<PlanProposal>,
}

fn blacklisted_exec(old_path: &String, cfg: &AutopilotConfig) -> (b: bool)
    ensures
        b == blacklisted(old_path@, strs(cfg.blacklist_extensions@), strs(cfg.blacklist_folders@)),
{
    let op = chars_of(old_path.as_str());
    let e = lower_chars(string_of(&extension_or_empty_exec(&op)).as_str());
    let l = lower_chars(old_path.as_str());
    let ghost ext_bl = strs(cfg.blacklist_extensions@);
    let ghost folder_bl = strs(cfg.blacklist_folders@);
    let mut i: usize = 0;
    while i < cfg.blacklist_extensions.len()
        invariant
            i <= cfg.blacklist_extensions@.len(),
            ext_bl == strs(cfg.blacklist_extensions@),
            e@ == lowercase(extension_or_empty(old_path@)),
            forall|k: int| 0 <= k < i ==> lowercase(#[trigger] ext_bl[k]) != e@,
        decreases cfg.blacklist_extensions@.len() - i,
    {
        let x = lower_chars(cfg.blacklist_extensions[i].as_str());
        if seq_eq(&x, &e) {
            assert(0 <= i < ext_bl.len() && lowercase(ext_bl[i as int]) == e@);
            return true;
        }
        i += 1;
    }
    let mut j: usize = 0;
    while j < cfg.blacklist_folders.len()
        invariant
            j <= cfg.blacklist_folders@.len(),
            ext_bl == strs(cfg.blacklist_extensions@),
            folder_bl == strs(cfg.blacklist_folders@),
            e@ == lowercase(extension_or_empty(old_path@)),
            l@ == lowercase(old_path@),
            forall|k: int| 0 <= k < ext_bl.len() ==> lowercase(#[trigger] ext_bl[k]) != e@,
            forall|k: int| 0 <= k < j ==> !has_sub(l@, lowercase(#[trigger] folder_bl[k])),
        decreases cfg.blacklist_folders@.len() - j,
    {
        let x = lower_chars(cfg.blacklist_folders[j].as_str());
        if contains(&l, &x) {
            assert(0 <= j < folder_bl.len() && has_sub(l@, lowercase(folder_bl[j as int])));
            return true;
        }
        j += 1;
    }
    false
}

/// The fields the autopilot policy leaves as they were.
pub open spec fn screen_keeps(a: PlanProposal, b: PlanProposal) -> bool {
    &&& a.action == b.action
    &&& a.source == b.source
    &&& a.reason == b.reason
    &&& a.evidence == b.evidence
    &&& a.needs_review == b.needs_review
    &&& a.protected == b.protected
    &&& a.rules_applied == b.rules_applied
    &&& a.category_id == b.category_id
    &&& a.category_label == b.category_label
    &&& a.category_dir == b.category_dir
    &&& a.already_organized == b.already_organized
    &&& a.is_project == b.is_project
    &&& a.confidence_breakdown == b.confidence_breakdown
    &&& a.rollback_hint == b.rollback_hint
}

/// Applies the autopilot policy to one proposal (blacklists, confidence
/// floors, staging). Only the fields named here change.
pub fn screen_proposal(p: &mut PlanProposal, cfg: &AutopilotConfig, home_dir: &str)
    ensures
        screen_keeps(*old(p), *final(p)),
        *final(p) == (PlanProposal {
            decision_class: final(p).decision_class,
            auto_apply_allowed: final(p).auto_apply_allowed,
            blocked_from_apply: final(p).blocked_from_apply,
            safety_flags: final(p).safety_flags,
            staging_only: final(p).staging_only,
            new_dir: final(p).new_dir,
            destination: final(p).destination,
            ..*old(p)
        }),
        final(p).decision_class == policy_class(*old(p), *cfg),
        final(p).old_path == old(p).old_path,
        final(p).confidence_bp == old(p).confidence_bp,
        final(p).risk == old(p).risk,
        final(p).new_filename == old(p).new_filename,
        final(p).auto_apply_allowed == (old(p).auto_apply_allowed
            && !blacklisted(old(p).old_path@, strs(cfg.blacklist_extensions@), strs(cfg.blacklist_folders@))
            && !(old(p).decision_class == DecisionClass::AutoMoveCertified && policy_class(*old(p), *cfg) == DecisionClass::NeedsHumanReview)),
        final(p).blocked_from_apply == (old(p).blocked_from_apply
            || blacklisted(old(p).old_path@, strs(cfg.blacklist_extensions@), strs(cfg.blacklist_folders@))),
        strs(final(p).safety_flags@) == strs(old(p).safety_flags@)
            + (if blacklisted(old(p).old_path@, strs(cfg.blacklist_extensions@), strs(cfg.blacklist_folders@)) {
                seq!["blacklisted_by_autopilot_config"@]
            } else {
                Seq::empty()
            })
            + (if policy_class(*old(p), *cfg) == DecisionClass::NeedsHumanReview
                && !blacklisted(old(p).old_path@, strs(cfg.blacklist_extensions@), strs(cfg.blacklist_folders@))
                && old(p).decision_class == DecisionClass::AutoMoveCertified {
                seq!["confidence_below_autopilot_threshold"@]
            } else {
                Seq::empty()
            }),
        final(p).staging_only == (old(p).staging_only || (cfg.staging_only && final(p).decision_class == DecisionClass::AutoMoveCertified)),
        if cfg.staging_only && final(p).decision_class == DecisionClass::AutoMoveCertified {
            &&& final(p).new_dir@ == "Documentos/00_Inbox/Downloads/Revisar"@
            &&& final(p).destination@ == join_path(join_path(home_dir@, "Documentos/00_Inbox/Downloads/Revisar"@), match old(p).new_filename {
                Some(n) => n@,
                None => file_name_or_empty(old(p).old_path@),
            })
        } else {
            &&& final(p).new_dir == old(p).new_dir
            &&& final(p).destination == old(p).destination
        },
{
    let bl = blacklisted_exec(&p.old_path, cfg);
    let ghost f0 = strs(p.safety_flags@);
    if bl {
        p.decision_class = DecisionClass::BlockedUnsafe;
        p.blocked_from_apply = true;
        p.auto_apply_allowed = false;
        p.safety_flags.push(string_of(&chars_of("blacklisted_by_autopilot_config")));
    }
    let ghost f1 = strs(p.safety_flags@);
    assert(f1 == f0 + (if bl { seq!["blacklisted_by_autopilot_config"@] } else { Seq::<Seq<char>>::empty() }));
    let risk = chars_of(p.risk.as_str());
    if p.decision_class == DecisionClass::AutoMoveCertified
        && (p.confidence_bp < 9500 || p.confidence_bp < cfg.min_confidence_bp || !eq_lit(&risk, "low")) {
        p.decision_class = DecisionClass::NeedsHumanReview;
        p.auto_apply_allowed = false;
        p.safety_flags.push(string_of(&chars_of("confidence_below_autopilot_threshold")));
    }
    if cfg.staging_only && p.decision_class == DecisionClass::AutoMoveCertified {
        p.staging_only = true;
        p.new_dir = string_of(&chars_of("Documentos/00_Inbox/Downloads/Revisar"));
        let hc = chars_of(home_dir);
        let nd = chars_of(p.new_dir.as_str());
        let base = join_path_exec(&hc, &nd);
        let name = match &p.new_filename {
            Some(n) => chars_of(n.as_str()),
            None => file_name_or_empty_exec(&chars_of(p.old_path.as_str())),
        };
        p.destination = string_of(&join_path_exec(&base, &name));
    }
}

proof fn lemma_keys_push(s: Seq<PlanProposal>, p: PlanProposal)
    ensures
        keys(s.push(p)) == keys(s).push(key(p)),
{
    assert(keys(s.push(p)) =~= keys(s).push(key(p)));
}

proof fn lemma_keys_subrange(s: Seq<PlanProposal>, a: int, b: int)
    requires
        0 <= a <= b <= s.len(),
    ensures
        keys(s.subrange(a, b)) == keys(s).subrange(a, b),
{
    assert(keys(s.subrange(a, b)) =~= keys(s).subrange(a, b));
}

proof fn lemma_insert_pos_bounds(r: Seq<(u32, Seq<char>)>, x: (u32, Seq<char>))
    ensures
        0 <= insert_pos(r, x) <= r.len(),
        forall|i: int| 0 <= i < insert_pos(r, x) ==> sorted_desc(r) ==> r[i].0 >= x.0,
        forall|i: int| insert_pos(r, x) <= i < r.len() ==> r[i].0 < x.0,
    decreases r.len(),
{
    if r.len() > 0 {
        if r.last().0 >= x.0 {
            assert forall|i: int| 0 <= i < insert_pos(r, x) && sorted_desc(r) implies r[i].0 >= x.0 by {
                if i < r.len() - 1 {
                    assert(r[i].0 >= r[r.len() - 1].0);
                }
            }
        } else {
            lemma_insert_pos_bounds(r.drop_last(), x);
            assert forall|i: int| 0 <= i < insert_pos(r, x) && sorted_desc(r) implies r[i].0 >= x.0 by {
                assert(sorted_desc(r.drop_last()));
                assert(r.drop_last()[i] == r[i]);
            }
            assert forall|i: int| insert_pos(r, x) <= i < r.len() implies r[i].0 < x.0 by {
                if i < r.len() - 1 {
                    assert(r.drop_last()[i] == r[i]);
                }
            }
        }
    }
}

proof fn lemma_insert_sorted(r: Seq<(u32, Seq<char>)>, x: (u32, Seq<char>))
    requires
        sorted_desc(r),
    ensures
        sorted_desc(r.insert(insert_pos(r, x), x)),
{
    lemma_insert_pos_bounds(r, x);
    let k = insert_pos(r, x);
    let t = r.insert(k, x);
    assert forall|i: int, j: int| 0 <= i < j < t.len() implies t[i].0 >= t[j].0 by {
        if j < k {
            assert(t[i] == r[i] && t[j] == r[j]);
        } else if j == k {
            assert(t[i] == r[i]);
        } else if i < k {
            assert(t[i] == r[i] && t[j] == r[j - 1]);
        } else if i == k {
            assert(t[j] == r[j - 1]);
        } else {
            assert(t[i] == r[i - 1] && t[j] == r[j - 1]);
        }
    }
}

/// The order of the certified proposals is by decreasing confidence, and it
/// loses or adds none.
pub proof fn lemma_sort_sorted(s: Seq<(u32, Seq<char>)>)
    ensures
        sorted_desc(sort_by_confidence(s)),
        sort_by_confidence(s).len() == s.len(),
    decreases s.len(),
{
    if s.len() > 0 {
        let r = sort_by_confidence(s.drop_last());
        lemma_sort_sorted(s.drop_last());
        lemma_insert_pos_bounds(r, s.last());
        lemma_insert_sorted(r, s.last());
    }
}

/// `b` is one of the proposals of `s` as the policy left it: the same key,
/// and the fields the policy keeps.
pub open spec fn screened_from(s: Seq<PlanProposal>, b: PlanProposal) -> bool {
    exists|j: int| 0 <= j < s.len() && #[trigger] screen_keeps(s[j], b) && key(s[j]) == key(b)
}

/// Every proposal of `bucket` is one of `s`, screened.
pub open spec fn all_screened_from(s: Seq<PlanProposal>, bucket: Seq<PlanProposal>) -> bool {
    forall|i: int| 0 <= i < bucket.len() ==> screened_from(s, #[trigger] bucket[i])
}

proof fn lemma_screened_push(s: Seq<PlanProposal>, bucket: Seq<PlanProposal>, x: PlanProposal)
    requires
        all_screened_from(s, bucket),
        screened_from(s, x),
    ensures
        all_screened_from(s, bucket.push(x)),
{
    assert forall|i: int| 0 <= i < bucket.push(x).len() implies screened_from(s, #[trigger] bucket.push(x)[i]) by {
        if i < bucket.len() {
            assert(bucket.push(x)[i] == bucket[i]);
        }
    }
}

/// Every proposal lands in exactly one of the five buckets.
pub proof fn lemma_buckets_partition(s: Seq<PlanProposal>, cfg: AutopilotConfig)
    ensures
        class_keys(s, cfg, DecisionClass::AutoMoveCertified).len() + class_keys(s, cfg, DecisionClass::NeedsHumanReview).len()
            + class_keys(s, cfg, DecisionClass::BlockedUnsafe).len() + class_keys(s, cfg, DecisionClass::IgnoreNoise).len()
            + class_keys(s, cfg, DecisionClass::KeepInPlace).len() == s.len(),
    decreases s.len(),
{
    if s.len() > 0 {
        lemma_buckets_partition(s.drop_last(), cfg);
    }
}

/// Inserts `x` into `r` after every proposal of greater or equal confidence.
fn insert_sorted(r: &mut Vec<PlanProposal>, x: PlanProposal)
    ensures
        0 <= insert_pos(keys(old(r)@), key(x)) <= old(r)@.len(),
        final(r)@ == old(r)@.insert(insert_pos(keys(old(r)@), key(x)), x),
{
    let ghost ks = keys(r@);
    let mut k: usize = r.len();
    assert(ks.subrange(0, k as int) =~= ks);
    while k > 0 && r[k - 1].confidence_bp < x.confidence_bp
        invariant
            k <= r@.len(),
            ks == keys(r@),
            insert_pos(ks, key(x)) == insert_pos(ks.subrange(0, k as int), key(x)),
        decreases k,
    {
        assert(ks.subrange(0, k as int).drop_last() == ks.subrange(0, k - 1));
        assert(ks.subrange(0, k as int).last() == key(r@[k - 1]));
        k -= 1;
    }
    proof {
        let t = ks.subrange(0, k as int);
        if k > 0 {
            assert(t.last() == key(r@[k - 1]));
        }
        assert(insert_pos(t, key(x)) == k);
    }
    r.insert(k, x);
}

/// Sorts proposals by decreasing confidence, keeping the input order among equals.
fn sort_proposals(v: Vec<PlanProposal>) -> (r: Vec<PlanProposal>)
    ensures
        keys(r@) == sort_by_confidence(keys(v@)),
        forall|i: int| 0 <= i < r@.len() ==> exists|j: int| 0 <= j < v@.len() && #[trigger] r@[i] == v@[j],
{
    let mut rest = v;
    let ghost orig = rest@;
    let mut r: Vec<PlanProposal> = Vec::new();
    let ghost mut n: int = 0;
    while rest.len() > 0
        invariant
            0 <= n <= orig.len(),
            rest@ == orig.subrange(n, orig.len() as int),
            keys(r@) == sort_by_confidence(keys(orig.subrange(0, n))),
            forall|i: int| 0 <= i < r@.len() ==> exists|j: int| 0 <= j < orig.len() && #[trigger] r@[i] == orig[j],
        decreases rest@.len(),
    {
        let x = rest.remove(0);
        let ghost r0 = r@;
        assert(x == orig[n]);
        insert_sorted(&mut r, x);
        proof {
            let k = insert_pos(keys(r0), key(x));
            assert(keys(r@) =~= keys(r0).insert(k, key(x)));
            assert(keys(orig.subrange(0, n + 1)).drop_last() =~= keys(orig.subrange(0, n)));
            assert(keys(orig.subrange(0, n + 1)).last() == key(x));
            assert forall|i: int| 0 <= i < r@.len() implies exists|j: int| 0 <= j < orig.len() && #[trigger] r@[i] == orig[j] by {
                if i < k {
                    assert(r@[i] == r0[i]);
                } else if i == k {
                    assert(r@[i] == orig[n]);
                } else {
                    assert(r@[i] == r0[i - 1]);
                }
            }
            n = n + 1;
        }
    }
    assert(orig.subrange(0, n) =~= orig);
    r
}

/// Sorts proposals into the autopilot's buckets: the policy is applied to
/// each, certified ones are ordered by decreasing confidence, and those past
/// `max_actions` are demoted to human review.
pub fn triage_proposals(proposals: Vec<PlanProposal>, cfg: &AutopilotConfig, home_dir: &str) -> (t: Triage)
    ensures
        keys(t.certified@) == certified_order(proposals@, *cfg).take(kept_count(proposals@, *cfg)),
        keys(t.review@) == class_keys(proposals@, *cfg, DecisionClass::NeedsHumanReview)
            + certified_order(proposals@, *cfg).skip(kept_count(proposals@, *cfg)),
        keys(t.blocked@) == class_keys(proposals@, *cfg, DecisionClass::BlockedUnsafe),
        keys(t.ignored@) == class_keys(proposals@, *cfg, DecisionClass::IgnoreNoise),
        keys(t.keep@) == class_keys(proposals@, *cfg, DecisionClass::KeepInPlace),
        forall|i: int| 0 <= i < t.certified@.len() ==> certifiable(#[trigger] t.certified@[i], *cfg),
        all_class(t.review@, DecisionClass::NeedsHumanReview),
        all_class(t.blocked@, DecisionClass::BlockedUnsafe),
        all_class(t.ignored@, DecisionClass::IgnoreNoise),
        all_class(t.keep@, DecisionClass::KeepInPlace),
        all_screened_from(proposals@, t.certified@),
        all_screened_from(proposals@, t.review@),
        all_screened_from(proposals@, t.blocked@),
        all_screened_from(proposals@, t.ignored@),
        all_screened_from(proposals@, t.keep@),
{
    let mut rest = proposals;
    let ghost orig = rest@;
    let mut cert: Vec<PlanProposal> = Vec::new();
    let mut review: Vec<PlanProposal> = Vec::new();
    let mut blocked: Vec<PlanProposal> = Vec::new();
    let mut ignored: Vec<PlanProposal> = Vec::new();
    let mut keep: Vec<PlanProposal> = Vec::new();
    let ghost mut n: int = 0;
    while rest.len() > 0
        invariant
            0 <= n <= orig.len(),
            rest@ == orig.subrange(n, orig.len() as int),
            keys(cert@) == class_keys(orig.subrange(0, n), *cfg, DecisionClass::AutoMoveCertified),
            keys(review@) == class_keys(orig.subrange(0, n), *cfg, DecisionClass::NeedsHumanReview),
            keys(blocked@) == class_keys(orig.subrange(0, n), *cfg, DecisionClass::BlockedUnsafe),
            keys(ignored@) == class_keys(orig.subrange(0, n), *cfg, DecisionClass::IgnoreNoise),
            keys(keep@) == class_keys(orig.subrange(0, n), *cfg, DecisionClass::KeepInPlace),
            forall|i: int| 0 <= i < cert@.len() ==> certifiable(#[trigger] cert@[i], *cfg),
            all_class(review@, DecisionClass::NeedsHumanReview),
            all_class(blocked@, DecisionClass::BlockedUnsafe),
            all_class(ignored@, DecisionClass::IgnoreNoise),
            all_class(keep@, DecisionClass::KeepInPlace),
            all_screened_from(orig, cert@),
            all_screened_from(orig, review@),
            all_screened_from(orig, blocked@),
            all_screened_from(orig, ignored@),
            all_screened_from(orig, keep@),
        decreases rest@.len(),
    {
        let mut p = rest.remove(0);
        let ghost p0 = p;
        assert(p0 == orig[n]);
        screen_proposal(&mut p, cfg, home_dir);
        proof {
            let s1 = orig.subrange(0, n + 1);
            assert(s1.drop_last() =~= orig.subrange(0, n));
            assert(s1.last() == p0);
            assert(key(p) == key(p0));
            lemma_keys_push(cert@, p);
            lemma_keys_push(review@, p);
            lemma_keys_push(blocked@, p);
            lemma_keys_push(ignored@, p);
            lemma_keys_push(keep@, p);
            assert(screen_keeps(orig[n], p) && key(orig[n]) == key(p));
            lemma_screened_push(orig, cert@, p);
            lemma_screened_push(orig, review@, p);
            lemma_screened_push(orig, blocked@, p);
            lemma_screened_push(orig, ignored@, p);
            lemma_screened_push(orig, keep@, p);
        }
        match p.decision_class {
            DecisionClass::AutoMoveCertified => {
                proof {
                    reveal_strlit("low");
                }
                cert.push(p);
            },
            DecisionClass::NeedsHumanReview => {
                review.push(p);
            },
            DecisionClass::BlockedUnsafe => {
                blocked.push(p);
            },
            DecisionClass::IgnoreNoise => {
                ignored.push(p);
            },
            DecisionClass::KeepInPlace => {
                keep.push(p);
            },
        }
        proof {
            n = n + 1;
        }
    }
    assert(orig.subrange(0, n) =~= orig);
    let mut certified = sort_proposals(cert);
    let total = certified.len();
    let ghost sorted = certified@;
    let ghost review0 = review@;
    proof {
        assert forall|i: int| 0 <= i < sorted.len() implies certifiable(#[trigger] sorted[i], *cfg) by {
            let j = choose|j: int| 0 <= j < cert@.len() && sorted[i] == cert@[j];
            assert(certifiable(cert@[j], *cfg));
        }
        assert forall|i: int| 0 <= i < sorted.len() implies screened_from(orig, #[trigger] sorted[i]) by {
            let j = choose|j: int| 0 <= j < cert@.len() && sorted[i] == cert@[j];
            assert(screened_from(orig, cert@[j]));
        }
        lemma_sort_sorted(keys(cert@));
    }
    // Limit of automatic actions: the rest is demoted to review.
    let mut final_auto: Vec<PlanProposal> = Vec::new();
    let mut idx: usize = 0;
    while certified.len() > 0
        invariant
            idx <= sorted.len(),
            sorted.len() == total,
            certified@ == sorted.subrange(idx as int, sorted.len() as int),
            final_auto@ == sorted.subrange(0, if idx < cfg.max_actions { idx as int } else { cfg.max_actions as int }),
            keys(review@) == keys(review0) + keys(sorted.subrange(
                if idx < cfg.max_actions { idx as int } else { cfg.max_actions as int }, idx as int)),
            forall|i: int| 0 <= i < sorted.len() ==> certifiable(#[trigger] sorted[i], *cfg),
            all_class(review@, DecisionClass::NeedsHumanReview),
            all_screened_from(orig, sorted),
            all_screened_from(orig, review@),
        decreases certified@.len(),
    {
        let mut prop = certified.remove(0);
        assert(prop == sorted[idx as int]);
        if idx < cfg.max_actions {
            final_auto.push(prop);
            assert(sorted.subrange(0, idx + 1) =~= sorted.subrange(0, idx as int).push(sorted[idx as int]));
            assert(sorted.subrange(idx + 1, idx + 1) =~= sorted.subrange(idx as int, idx as int));
        } else {
            let ghost before = review@;
            let ghost p_in = prop;
            assert(screened_from(orig, p_in));
            prop.decision_class = DecisionClass::NeedsHumanReview;
            prop.auto_apply_allowed = false;
            prop.safety_flags.push(string_of(&chars_of("demoted_due_to_max_actions_limit")));
            proof {
                let j = choose|j: int| 0 <= j < orig.len() && #[trigger] screen_keeps(orig[j], p_in) && key(orig[j]) == key(p_in);
                assert(screen_keeps(orig[j], prop) && key(orig[j]) == key(prop));
                lemma_screened_push(orig, review@, prop);
            }
            review.push(prop);
            proof {
                lemma_keys_push(before, prop);
                assert(key(prop) == key(sorted[idx as int]));
                let m = cfg.max_actions as int;
                assert(sorted.subrange(m, idx + 1) =~= sorted.subrange(m, idx as int).push(sorted[idx as int]));
                lemma_keys_push(sorted.subrange(m, idx as int), sorted[idx as int]);
            }
        }
        idx += 1;
    }
    proof {
        let m = if idx < cfg.max_actions { idx as int } else { cfg.max_actions as int };
        assert(idx == sorted.len());
        assert(m == kept_count(orig, *cfg));
        lemma_keys_subrange(sorted, 0, m);
        lemma_keys_subrange(sorted, m, sorted.len() as int);
        assert(keys(sorted).subrange(0, m) =~= keys(sorted).take(m));
        assert(keys(sorted).subrange(m, sorted.len() as int) =~= keys(sorted).skip(m));
        assert forall|i: int| 0 <= i < final_auto@.len() implies certifiable(#[trigger] final_auto@[i], *cfg) by {
            assert(final_auto@[i] == sorted[i]);
        }
        assert forall|i: int| 0 <= i < final_auto@.len() implies screened_from(orig, #[trigger] final_auto@[i]) by {
            assert(final_auto@[i] == sorted[i]);
        }
    }
    Triage { certified: final_auto, review, blocked, ignored, keep }
}

} // verus!
