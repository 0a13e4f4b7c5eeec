//! Rolling back the last applied run: which actions are reverted, in which
//! order, and what is recorded of each. The renames are the caller's.
use vstd::prelude::*;
use crate::manifest::ManifestAction;
use crate::taxonomy::opt_str;
use crate::text::{append_str, chars_of, eq_lit, string_of};

verus! {

/// What rollback does with one action of an audit log.
#[derive(Debug, Clone, Copy, PartialEq, Eq, Structural)]
pub enum RollbackVerdict {
    /// The action was not executed: nothing to revert.
    NotExecuted,
    /// The file is no longer at the target.
    TargetMissing,
    /// Another file now occupies the original path.
    SourceOccupied,
    /// Move the file back from the target to the source.
    Revert,
}

/// The checks of one action, given whether its target and its source exist.
pub open spec fn rollback_spec(status: Seq<char>, target_exists: bool, source_exists: bool) -> RollbackVerdict {
    if status != "executed"@ {
        RollbackVerdict::NotExecuted
    } else if !target_exists {
        RollbackVerdict::TargetMissing
    } else if source_exists {
        RollbackVerdict::SourceOccupied
    } else {
        RollbackVerdict::Revert
    }
}

/// Decides what to do with one action.
pub fn rollback_verdict(a: &ManifestAction, target_exists: bool, source_exists: bool) -> (v: RollbackVerdict)
    ensures
        v == rollback_spec(a.status@, target_exists, source_exists),
{
    let st = chars_of(a.status.as_str());
    if !eq_lit(&st, "executed") {
        RollbackVerdict::NotExecuted
    } else if !target_exists {
        RollbackVerdict::TargetMissing
    } else if source_exists {
        RollbackVerdict::SourceOccupied
    } else {
        RollbackVerdict::Revert
    }
}

/// Records the verdict, and for a revert the result of the rename back
/// (`Err` holds the error's text), on its action.
pub fn record_rollback(a: &mut ManifestAction, v: RollbackVerdict, renamed: Result<(), String>)
    ensures
        *final(a) == (ManifestAction { status: final(a).status, error_msg: final(a).error_msg, ..*old(a) }),
        match v {
            RollbackVerdict::NotExecuted => final(a).status == old(a).status && final(a).error_msg == old(a).error_msg,
            RollbackVerdict::TargetMissing => final(a).status == old(a).status
                && opt_str(final(a).error_msg) == Some("Arquivo ausente no destino. Impossível reverter."@),
            RollbackVerdict::SourceOccupied => final(a).status == old(a).status
                && opt_str(final(a).error_msg) == Some("Caminho original ocupado. Abortando reversão deste arquivo."@),
            RollbackVerdict::Revert => match renamed {
                Ok(_) => final(a).status@ == "reverted"@ && final(a).error_msg == old(a).error_msg,
                Err(e) => final(a).status == old(a).status
                    && opt_str(final(a).error_msg) == Some("Falha no rename de rollback: "@ + e@),
            },
        },
{
    match v {
        RollbackVerdict::NotExecuted => {},
        RollbackVerdict::TargetMissing => {
            a.error_msg = Some(string_of(&chars_of("Arquivo ausente no destino. Impossível reverter.")));
        },
        RollbackVerdict::SourceOccupied => {
            a.error_msg = Some(string_of(&chars_of("Caminho original ocupado. Abortando reversão deste arquivo.")));
        },
        RollbackVerdict::Revert => match renamed {
            Ok(_) => {
                a.status = string_of(&chars_of("reverted"));
            },
            Err(e) => {
                let mut m = chars_of("Falha no rename de rollback: ");
                append_str(&mut m, &e);
                a.error_msg = Some(string_of(&m));
            },
        },
    }
}

/// The order in which rollback visits the actions: last applied first.
pub fn rollback_order(n: usize) -> (r: Vec<usize>)
    ensures
        r@.len() == n,
        forall|i: int| 0 <= i < n ==> #[trigger] r@[i] == n - 1 - i,
{
    let mut r: Vec<usize> = Vec::new();
    let mut k: usize = n;
    while k > 0
        invariant
            k <= n,
            r@.len() == n - k,
            forall|i: int| 0 <= i < n - k ==> #[trigger] r@[i] == n - 1 - i,
        decreases k,
    {
        k -= 1;
        r.push(k);
    }
    r
}

/// The counts of a rollback run.
#[derive(Debug, Clone, Copy, PartialEq, Eq, Structural)]
pub struct RollbackTally {
    pub reverted: usize,
    pub failed: usize,
}

/// Adds one action's result to the counts.
pub fn rollback_tally_step(t: RollbackTally, v: RollbackVerdict, renamed_ok: bool) -> (r: RollbackTally)
    requires
        t.reverted < usize::MAX,
        t.failed < usize::MAX,
    ensures
        r.reverted == t.reverted + (if v == RollbackVerdict::Revert && renamed_ok { 1int } else { 0 }),
        r.failed == t.failed + (if v == RollbackVerdict::TargetMissing || v == RollbackVerdict::SourceOccupied
            || (v == RollbackVerdict::Revert && !renamed_ok) { 1int } else { 0 }),
{
    match v {
        RollbackVerdict::NotExecuted => t,
        RollbackVerdict::Revert => if renamed_ok {
            RollbackTally { reverted: t.reverted + 1, ..t }
        } else {
            RollbackTally { failed: t.failed + 1, ..t }
        },
        _ => RollbackTally { failed: t.failed + 1, ..t },
    }
}

/// Rollback reverts only what apply executed; an executed action whose file
/// is still at its target, and whose original path is free, is reverted.
pub proof fn lemma_rollback_reverts_executed(status: Seq<char>, target_exists: bool, source_exists: bool)
    ensures
        rollback_spec(status, target_exists, source_exists) == RollbackVerdict::Revert
            <==> (status == "executed"@ && target_exists && !source_exists),
{
}

} // verus!
