//! The assisted review queue: which actions are shown, how the queue is
//! counted, and what each answer does to an action. Reading answers and
//! printing are the caller's.
use vstd::prelude::*;
use crate::manifest::{Manifest, ManifestAction};
use crate::text::{chars_of, contains, eq_lit, has_sub, lower_chars, lowercase, string_of, trim, trim_exec};

verus! {

/// Filters of the review queue.
#[derive(Debug)]
pub struct ReviewOptions {
    /// Show only actions whose category label or id contains this text (any case).
    pub category: Option<String>,
    /// Show only actions up to this risk (`low`, `medium`, `high`).
    pub max_risk: Option<String>,
    /// Show only actions with at least this taxonomy confidence, in percent.
    pub min_confidence: u8,
}

/// The level of a risk name: `low` 0, `medium` 1, `high` 2, anything else 3.
pub open spec fn risk_level(r: Seq<char>) -> int {
    if r == "low"@ { 0 } else if r == "medium"@ { 1 } else if r == "high"@ { 2 } else { 3 }
}

fn risk_level_exec(r: &Vec<char>) -> (l: u8)
    ensures
        l == risk_level(r@),
{
    if eq_lit(r, "low") { 0 } else if eq_lit(r, "medium") { 1 } else if eq_lit(r, "high") { 2 } else { 3 }
}

/// The taxonomy confidence of an action in whole percent (truncated; none counts as 0).
pub open spec fn confidence_pct(a: ManifestAction) -> int {
    match a.taxonomy_score_bp {
        Some(b) => if b / 100 > 255 { 255 } else { (b / 100) as int },
        None => 0,
    }
}

/// An action still waiting for a decision.
pub open spec fn pending(a: ManifestAction) -> bool {
    a.status@ == "planned"@ && !a.already_organized
}

/// The review shows the action: it passes the category, risk and confidence
/// filters and is still pending.
pub open spec fn shown(a: ManifestAction, o: ReviewOptions) -> bool {
    &&& (o.category matches Some(c) ==> {
        let cat = lowercase(c@);
        has_sub(lowercase(match a.category_label { Some(l) => l@, None => Seq::empty() }), cat)
            || has_sub(lowercase(match a.category_id { Some(i) => i@, None => Seq::empty() }), cat)
    })
    &&& (o.max_risk matches Some(m) ==> risk_level(a.risk@) <= risk_level(lowercase(m@)))
    &&& confidence_pct(a) >= o.min_confidence
    &&& pending(a)
}

fn lower_or_empty(o: &Option<String>) -> (r: Vec<char>)
    ensures
        r@ == lowercase(match *o { Some(s) => s@, None => Seq::empty() }),
{
    match o {
        Some(s) => lower_chars(s.as_str()),
        None => {
            proof {
                reveal_strlit("");
                assert(""@ =~= Seq::<char>::empty());
            }
            lower_chars("")
        },
    }
}

/// Whether the review shows an action.
pub fn review_shows(a: &ManifestAction, o: &ReviewOptions) -> (b: bool)
    ensures
        b == shown(*a, *o),
{
    match &o.category {
        Some(c) => {
            let cat = lower_chars(c.as_str());
            let label = lower_or_empty(&a.category_label);
            let id = lower_or_empty(&a.category_id);
            if !contains(&label, &cat) && !contains(&id, &cat) {
                return false;
            }
        },
        None => {},
    }
    match &o.max_risk {
        Some(m) => {
            let level = risk_level_exec(&chars_of(a.risk.as_str()));
            let target = risk_level_exec(&lower_chars(m.as_str()));
            if level > target {
                return false;
            }
        },
        None => {},
    }
    let pct: u32 = match a.taxonomy_score_bp {
        Some(b) => if b / 100 > 255 { 255 } else { b / 100 },
        None => 0,
    };
    if pct < o.min_confidence as u32 {
        return false;
    }
    let st = chars_of(a.status.as_str());
    eq_lit(&st, "planned") && !a.already_organized
}

/// The confidence the review shows for an action, in percent.
pub fn review_confidence(a: &ManifestAction) -> (p: u8)
    ensures
        p == confidence_pct(*a),
{
    match a.taxonomy_score_bp {
        Some(b) => if b / 100 > 255 { 255 } else { (b / 100) as u8 },
        None => 0,
    }
}

/// How many pending actions are of low, medium and other risk.
pub open spec fn queue_counts(s: Seq<ManifestAction>) -> (nat, nat, nat)
    decreases s.len(),
{
    if s.len() == 0 {
        (0, 0, 0)
    } else {
        let (l, m, h) = queue_counts(s.drop_last());
        let a = s.last();
        if !pending(a) {
            (l, m, h)
        } else if a.risk@ == "low"@ {
            (l + 1, m, h)
        } else if a.risk@ == "medium"@ {
            (l, m + 1, h)
        } else {
            (l, m, h + 1)
        }
    }
}

proof fn lemma_queue_counts_le(s: Seq<ManifestAction>)
    ensures
        queue_counts(s).0 + queue_counts(s).1 + queue_counts(s).2 <= s.len(),
    decreases s.len(),
{
    if s.len() > 0 {
        lemma_queue_counts_le(s.drop_last());
    }
}

/// The queue's counts: pending actions of low risk (safe), of medium risk (to
/// review) and of any other risk (high).
pub fn review_queue_counts(m: &Manifest) -> (r: (usize, usize, usize))
    ensures
        (r.0 as nat, r.1 as nat, r.2 as nat) == queue_counts(m.actions@),
{
    let mut l: usize = 0;
    let mut md: usize = 0;
    let mut h: usize = 0;
    let mut i: usize = 0;
    while i < m.actions.len()
        invariant
            i <= m.actions@.len(),
            (l as nat, md as nat, h as nat) == queue_counts(m.actions@.subrange(0, i as int)),
        decreases m.actions@.len() - i,
    {
        proof {
            assert(m.actions@.subrange(0, i + 1).drop_last() == m.actions@.subrange(0, i as int));
            lemma_queue_counts_le(m.actions@.subrange(0, i as int));
        }
        let a = &m.actions[i];
        let st = chars_of(a.status.as_str());
        if eq_lit(&st, "planned") && !a.already_organized {
            let r = chars_of(a.risk.as_str());
            if eq_lit(&r, "low") {
                l += 1;
            } else if eq_lit(&r, "medium") {
                md += 1;
            } else {
                h += 1;
            }
        }
        i += 1;
    }
    assert(m.actions@.subrange(0, i as int) == m.actions@);
    (l, md, h)
}

/// An answer at the review prompt.
#[derive(Debug, Clone, Copy, PartialEq, Eq, Structural)]
pub enum ReviewCommand {
    Approve,
    Skip,
    Explain,
    Quit,
    Invalid,
}

/// The command an answer names, after trimming and lowercasing it.
pub open spec fn command_of(input: Seq<char>) -> ReviewCommand {
    let c = lowercase(trim(input));
    if c == "a"@ || c == "approve"@ {
        ReviewCommand::Approve
    } else if c == "s"@ || c == "skip"@ {
        ReviewCommand::Skip
    } else if c == "e"@ || c == "explain"@ {
        ReviewCommand::Explain
    } else if c == "q"@ || c == "quit"@ {
        ReviewCommand::Quit
    } else {
        ReviewCommand::Invalid
    }
}

/// Reads an answer typed at the review prompt.
pub fn parse_review_command(input: &str) -> (c: ReviewCommand)
    ensures
        c == command_of(input@),
{
    let t = trim_exec(&chars_of(input));
    let c = lower_chars(string_of(&t).as_str());
    if eq_lit(&c, "a") || eq_lit(&c, "approve") {
        ReviewCommand::Approve
    } else if eq_lit(&c, "s") || eq_lit(&c, "skip") {
        ReviewCommand::Skip
    } else if eq_lit(&c, "e") || eq_lit(&c, "explain") {
        ReviewCommand::Explain
    } else if eq_lit(&c, "q") || eq_lit(&c, "quit") {
        ReviewCommand::Quit
    } else {
        ReviewCommand::Invalid
    }
}

/// What an answer does to the action under review: approving keeps it
/// planned, skipping marks it skipped; other answers change nothing.
pub fn apply_review_command(a: &mut ManifestAction, c: ReviewCommand)
    ensures
        c == ReviewCommand::Approve ==> final(a).status@ == "planned"@,
        c == ReviewCommand::Skip ==> final(a).status@ == "skipped"@,
        c != ReviewCommand::Approve && c != ReviewCommand::Skip ==> final(a).status == old(a).status,
        *final(a) == (ManifestAction { status: final(a).status, ..*old(a) }),
{
    match c {
        ReviewCommand::Approve => {
            a.status = string_of(&chars_of("planned"));
        },
        ReviewCommand::Skip => {
            a.status = string_of(&chars_of("skipped"));
        },
        _ => {},
    }
}

/// The review never approves an action that is not pending: only pending
/// actions are shown.
pub proof fn lemma_review_shows_only_pending(a: ManifestAction, o: ReviewOptions)
    ensures
        shown(a, o) ==> pending(a),
{
}

/// Whether a file's classification must go through human review: when the
/// category asks for it, the path is protected, or the file is in an
/// Obsidian vault.
pub fn review_mandatory(category_needs_review: bool, protected: bool, path: &str) -> (b: bool)
    ensures
        b == (category_needs_review || protected || has_sub(path@, "Obsidian Vault"@)),
{
    let pc = chars_of(path);
    category_needs_review || protected || crate::text::contains_lit(&pc, "Obsidian Vault")
}

} // verus!
