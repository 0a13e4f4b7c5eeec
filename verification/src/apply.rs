//! Applying a manifest: the checks each action must pass before a file is
//! moved, what is recorded of the outcome, and where the cleanup of emptied
//! folders stops. The moves themselves are the caller's.
use vstd::prelude::*;
use crate::manifest::ManifestAction;
use crate::metadata::{is_protected_path, protected_reason};
use crate::paths::{comps, comps_prefix};
use crate::metadata::comps_prefix_exec;
use crate::taxonomy::opt_str;
use crate::text::{append_lit, append_str, chars_of, eq_lit, seq_eq, string_of};

verus! {

/// What the apply step does with one action.
#[derive(Debug, PartialEq, Eq)]
pub enum ApplyVerdict {
    /// The action is not `planned`: it is left as it is.
    NotPlanned,
    /// The source is a protected path (the reason is given).
    Protected(String),
    /// The autopilot policy does not allow the action.
    PolicyBlocked,
    /// The source does not exist.
    SourceMissing,
    /// The destination exists and holds the same content.
    Duplicate,
    /// The destination exists with other content.
    DestinationExists,
    /// The file changed since the plan.
    HashChanged,
    /// The file could not be read to check its hash.
    HashUnreadable,
    /// The action type is not a move, a rename or a project move.
    Unsupported,
    /// Every check passed: the move may be made (or shown, in a dry run).
    Proceed,
}

/// The kind of a verdict, as stated over the inputs.
pub enum VerdictKind {
    NotPlanned,
    Protected,
    PolicyBlocked,
    SourceMissing,
    Duplicate,
    DestinationExists,
    HashChanged,
    HashUnreadable,
    Unsupported,
    Proceed,
}

pub open spec fn kind_of(v: ApplyVerdict) -> VerdictKind {
    match v {
        ApplyVerdict::NotPlanned => VerdictKind::NotPlanned,
        ApplyVerdict::Protected(_) => VerdictKind::Protected,
        ApplyVerdict::PolicyBlocked => VerdictKind::PolicyBlocked,
        ApplyVerdict::SourceMissing => VerdictKind::SourceMissing,
        ApplyVerdict::Duplicate => VerdictKind::Duplicate,
        ApplyVerdict::DestinationExists => VerdictKind::DestinationExists,
        ApplyVerdict::HashChanged => VerdictKind::HashChanged,
        ApplyVerdict::HashUnreadable => VerdictKind::HashUnreadable,
        ApplyVerdict::Unsupported => VerdictKind::Unsupported,
        ApplyVerdict::Proceed => VerdictKind::Proceed,
    }
}

/// The policy that every applied action must meet: certified, allowed, not
/// blocked and of low risk.
pub open spec fn policy_allows(a: ManifestAction) -> bool {
    !a.blocked_from_apply && a.auto_apply_allowed && a.decision_class@ == "AutoMoveCertified"@ && a.risk@ == "low"@
}

/// The checks of one action, in order, given whether its source and target
/// exist and the current hashes of source and target (`None`: unreadable).
pub open spec fn verdict_spec(
    a: ManifestAction,
    source_exists: bool,
    target_exists: bool,
    source_hash: Option<Seq<char>>,
    target_hash: Option<Seq<char>>,
) -> VerdictKind {
    if a.status@ != "planned"@ {
        VerdictKind::NotPlanned
    } else if protected_reason(a.source_path@) is Some {
        VerdictKind::Protected
    } else if !policy_allows(a) {
        VerdictKind::PolicyBlocked
    } else if !source_exists {
        VerdictKind::SourceMissing
    } else if target_exists {
        if source_hash is Some && target_hash is Some && source_hash == target_hash {
            VerdictKind::Duplicate
        } else {
            VerdictKind::DestinationExists
        }
    } else if a.action_type@ != "move_project"@ && a.old_hash is Some && source_hash is None {
        VerdictKind::HashUnreadable
    } else if a.action_type@ != "move_project"@ && a.old_hash is Some && source_hash != opt_str(a.old_hash) {
        VerdictKind::HashChanged
    } else if a.action_type@ != "move"@ && a.action_type@ != "rename"@ && a.action_type@ != "move_project"@ {
        VerdictKind::Unsupported
    } else {
        VerdictKind::Proceed
    }
}

/// Decides what to do with one action.
pub fn apply_verdict(
    a: &ManifestAction,
    source_exists: bool,
    target_exists: bool,
    source_hash: &Option<String>,
    target_hash: &Option<String>,
) -> (v: ApplyVerdict)
    ensures
        kind_of(v) == verdict_spec(*a, source_exists, target_exists, opt_str(*source_hash), opt_str(*target_hash)),
        v matches ApplyVerdict::Protected(r) ==> protected_reason(a.source_path@) == Some(r@),
        kind_of(v) == VerdictKind::Proceed ==> {
            &&& policy_allows(*a)
            &&& protected_reason(a.source_path@) is None
            &&& source_exists
            &&& !target_exists
        },
{
    let status = chars_of(a.status.as_str());
    if !eq_lit(&status, "planned") {
        return ApplyVerdict::NotPlanned;
    }
    match is_protected_path(a.source_path.as_str()) {
        Some(r) => {
            return ApplyVerdict::Protected(r);
        },
        None => {},
    }
    let dc = chars_of(a.decision_class.as_str());
    let risk = chars_of(a.risk.as_str());
    if a.blocked_from_apply || !a.auto_apply_allowed || !eq_lit(&dc, "AutoMoveCertified") || !eq_lit(&risk, "low") {
        return ApplyVerdict::PolicyBlocked;
    }
    if !source_exists {
        return ApplyVerdict::SourceMissing;
    }
    if target_exists {
        let dup = match (source_hash, target_hash) {
            (Some(s), Some(t)) => seq_eq(&chars_of(s.as_str()), &chars_of(t.as_str())),
            _ => false,
        };
        if dup {
            return ApplyVerdict::Duplicate;
        } else {
            return ApplyVerdict::DestinationExists;
        }
    }
    let ty = chars_of(a.action_type.as_str());
    if !eq_lit(&ty, "move_project") {
        match &a.old_hash {
            Some(expected) => match source_hash {
                Some(current) => {
                    if !seq_eq(&chars_of(current.as_str()), &chars_of(expected.as_str())) {
                        return ApplyVerdict::HashChanged;
                    }
                },
                None => {
                    return ApplyVerdict::HashUnreadable;
                },
            },
            None => {},
        }
    }
    if !eq_lit(&ty, "move") && !eq_lit(&ty, "rename") && !eq_lit(&ty, "move_project") {
        return ApplyVerdict::Unsupported;
    }
    ApplyVerdict::Proceed
}

/// The status a verdict leaves on its action (`None`: unchanged).
pub open spec fn verdict_status(v: VerdictKind) -> Option<Seq<char>> {
    match v {
        VerdictKind::Protected => Some("blocked"@),
        VerdictKind::PolicyBlocked => Some("blocked_autopilot"@),
        VerdictKind::SourceMissing => Some("failed"@),
        VerdictKind::Duplicate => Some("skipped"@),
        VerdictKind::DestinationExists => Some("blocked"@),
        VerdictKind::HashChanged => Some("skipped"@),
        VerdictKind::HashUnreadable => Some("failed"@),
        VerdictKind::Unsupported => Some("skipped"@),
        _ => None,
    }
}

/// The error message a verdict leaves on its action.
pub open spec fn verdict_message(v: ApplyVerdict, action_type: Seq<char>) -> Option<Seq<char>> {
    match v {
        ApplyVerdict::Protected(r) => Some("Caminho protegido ("@ + r@ + "): não pode ser movido"@),
        ApplyVerdict::PolicyBlocked => Some(
            "Bloqueado pelas políticas estritas de segurança do autopilot (confidence < 0.95 ou risco != low)"@,
        ),
        ApplyVerdict::SourceMissing => Some("Origem não encontrada"@),
        ApplyVerdict::Duplicate => Some("Destino já existe e hash é idêntico (duplicata exata)"@),
        ApplyVerdict::DestinationExists => Some("destination_exists"@),
        ApplyVerdict::HashChanged => Some("Hash alterado desde o plano"@),
        ApplyVerdict::HashUnreadable => Some("Falha ao ler hash atual"@),
        ApplyVerdict::Unsupported => Some("Ação não suportada ou proibida: "@ + action_type),
        _ => None,
    }
}

/// Records a verdict on its action: status and error message; an action that
/// proceeds, or is not planned, is left unchanged.
pub fn record_verdict(a: &mut ManifestAction, v: &ApplyVerdict)
    ensures
        match verdict_status(kind_of(*v)) {
            Some(s) => final(a).status@ == s && opt_str(final(a).error_msg) == verdict_message(*v, old(a).action_type@),
            None => final(a).status == old(a).status && final(a).error_msg == old(a).error_msg,
        },
        *final(a) == (ManifestAction { status: final(a).status, error_msg: final(a).error_msg, ..*old(a) }),
{
    let (status, msg): (&str, Option<Vec<char>>) = match v {
        ApplyVerdict::NotPlanned => ("", None),
        ApplyVerdict::Proceed => ("", None),
        ApplyVerdict::Protected(r) => {
            let mut m = chars_of("Caminho protegido (");
            append_str(&mut m, r);
            append_lit(&mut m, "): não pode ser movido");
            ("blocked", Some(m))
        },
        ApplyVerdict::PolicyBlocked => (
            "blocked_autopilot",
            Some(chars_of("Bloqueado pelas políticas estritas de segurança do autopilot (confidence < 0.95 ou risco != low)")),
        ),
        ApplyVerdict::SourceMissing => ("failed", Some(chars_of("Origem não encontrada"))),
        ApplyVerdict::Duplicate => ("skipped", Some(chars_of("Destino já existe e hash é idêntico (duplicata exata)"))),
        ApplyVerdict::DestinationExists => ("blocked", Some(chars_of("destination_exists"))),
        ApplyVerdict::HashChanged => ("skipped", Some(chars_of("Hash alterado desde o plano"))),
        ApplyVerdict::HashUnreadable => ("failed", Some(chars_of("Falha ao ler hash atual"))),
        ApplyVerdict::Unsupported => {
            let mut m = chars_of("Ação não suportada ou proibida: ");
            append_str(&mut m, &a.action_type);
            ("skipped", Some(m))
        },
    };
    match msg {
        Some(m) => {
            a.status = string_of(&chars_of(status));
            a.error_msg = Some(string_of(&m));
        },
        None => {},
    }
}

/// What became of a move that was attempted.
#[derive(Debug)]
pub enum MoveOutcome {
    Moved,
    /// The target's folder could not be created (the error's text).
    DirFailed(String),
    /// The rename failed (the error's text).
    RenameFailed(String),
}

/// Records the outcome of a real move on its action.
pub fn record_move(a: &mut ManifestAction, outcome: &MoveOutcome)
    ensures
        match outcome {
            MoveOutcome::Moved => final(a).status@ == "executed"@ && final(a).error_msg == old(a).error_msg,
            MoveOutcome::DirFailed(e) => final(a).status@ == "failed"@
                && opt_str(final(a).error_msg) == Some("Falha ao criar diretório: "@ + e@),
            MoveOutcome::RenameFailed(e) => final(a).status@ == "failed"@
                && opt_str(final(a).error_msg) == Some("Falha no rename: "@ + e@),
        },
        *final(a) == (ManifestAction { status: final(a).status, error_msg: final(a).error_msg, ..*old(a) }),
{
    match outcome {
        MoveOutcome::Moved => {
            a.status = string_of(&chars_of("executed"));
        },
        MoveOutcome::DirFailed(e) => {
            let mut m = chars_of("Falha ao criar diretório: ");
            append_str(&mut m, e);
            a.status = string_of(&chars_of("failed"));
            a.error_msg = Some(string_of(&m));
        },
        MoveOutcome::RenameFailed(e) => {
            let mut m = chars_of("Falha no rename: ");
            append_str(&mut m, e);
            a.status = string_of(&chars_of("failed"));
            a.error_msg = Some(string_of(&m));
        },
    }
}

/// The counts of an apply run.
#[derive(Debug, Clone, Copy, PartialEq, Eq, Structural)]
pub struct ApplyTally {
    pub executed: usize,
    pub skipped: usize,
    pub failed: usize,
}

/// A verdict counts as skipped.
pub open spec fn counts_skipped(v: VerdictKind) -> bool {
    v == VerdictKind::Duplicate || v == VerdictKind::HashChanged || v == VerdictKind::Unsupported
}

/// A verdict counts as failed.
pub open spec fn counts_failed(v: VerdictKind) -> bool {
    v == VerdictKind::Protected || v == VerdictKind::PolicyBlocked || v == VerdictKind::SourceMissing
        || v == VerdictKind::DestinationExists || v == VerdictKind::HashUnreadable
}

/// Adds one action's result to the counts: its verdict and, for a real move,
/// whether the move succeeded.
pub fn tally_step(t: ApplyTally, v: &ApplyVerdict, moved: Option<bool>) -> (r: ApplyTally)
    requires
        t.executed < usize::MAX,
        t.skipped < usize::MAX,
        t.failed < usize::MAX,
    ensures
        r.executed == t.executed + (if kind_of(*v) == VerdictKind::Proceed && moved == Some(true) { 1int } else { 0 }),
        r.skipped == t.skipped + (if counts_skipped(kind_of(*v)) { 1int } else { 0 }),
        r.failed == t.failed + (if counts_failed(kind_of(*v)) || (kind_of(*v) == VerdictKind::Proceed
            && moved == Some(false)) { 1int } else { 0 }),
{
    match v {
        ApplyVerdict::NotPlanned => t,
        ApplyVerdict::Duplicate | ApplyVerdict::HashChanged | ApplyVerdict::Unsupported => ApplyTally {
            skipped: t.skipped + 1,
            ..t
        },
        ApplyVerdict::Proceed => match moved {
            Some(true) => ApplyTally { executed: t.executed + 1, ..t },
            Some(false) => ApplyTally { failed: t.failed + 1, ..t },
            None => t,
        },
        _ => ApplyTally { failed: t.failed + 1, ..t },
    }
}

/// A move is made only for an action that passed every check, and never in a dry run.
pub open spec fn moves(v: VerdictKind, dry_run: bool) -> bool {
    v == VerdictKind::Proceed && !dry_run
}

/// Whether the caller moves the action's file now.
pub fn performs_move(v: &ApplyVerdict, dry_run: bool) -> (b: bool)
    ensures
        b == moves(kind_of(*v), dry_run),
{
    match v {
        ApplyVerdict::Proceed => !dry_run,
        _ => false,
    }
}

/// A dry run moves nothing; a real run moves only a planned action that the
/// policy allows, whose source is not protected, exists, and whose target is free.
pub proof fn lemma_only_checked_moves(
    a: ManifestAction,
    source_exists: bool,
    target_exists: bool,
    source_hash: Option<Seq<char>>,
    target_hash: Option<Seq<char>>,
    dry_run: bool,
)
    ensures
        moves(verdict_spec(a, source_exists, target_exists, source_hash, target_hash), dry_run) ==> {
            &&& !dry_run
            &&& a.status@ == "planned"@
            &&& policy_allows(a)
            &&& protected_reason(a.source_path@) is None
            &&& source_exists
            &&& !target_exists
        },
{
}

/// Whether an apply run is a simulation: unless `--confirm` is given without
/// `--dry-run`, nothing is moved.
pub fn effective_dry_run(dry_run_flag: bool, confirm: bool) -> (d: bool)
    ensures
        d == (dry_run_flag || !confirm),
{
    dry_run_flag || !confirm
}

/// No file is moved without an explicit confirmation, and never when a dry
/// run is asked for.
pub proof fn lemma_no_move_without_confirm(v: VerdictKind, dry_run_flag: bool, confirm: bool)
    ensures
        moves(v, dry_run_flag || !confirm) ==> confirm && !dry_run_flag && v == VerdictKind::Proceed,
{
}

/// Where the cleanup of emptied folders stops: at the home itself, or at a
/// folder outside it.
pub open spec fn cleanup_stops_at(path: Seq<char>, home: Seq<char>) -> bool {
    comps(path) == comps(home) || !comps_prefix(home, path)
}

/// Whether the cleanup of emptied folders must stop at `path`.
pub fn cleanup_stops(path: &str, home: &str) -> (b: bool)
    ensures
        b == cleanup_stops_at(path@, home@),
{
    let p = chars_of(path);
    let h = chars_of(home);
    let inside = comps_prefix_exec(&h, &p);
    let back = comps_prefix_exec(&p, &h);
    proof {
        if inside && back {
            assert(comps(path@).segs =~= comps(home@).segs);
        }
    }
    (inside && back) || !inside
}

/// The cleanup never removes the home itself nor anything outside it.
pub proof fn lemma_cleanup_stays_inside(path: Seq<char>, home: Seq<char>)
    requires
        !cleanup_stops_at(path, home),
    ensures
        comps_prefix(home, path),
        comps(path) != comps(home),
{
}

} // verus!
