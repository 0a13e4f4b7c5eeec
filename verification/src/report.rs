//! Figures of the reports: human-readable sizes, MIME categories, the plan
//! dashboard's counts and the space wasted by duplicates. Printing is the caller's.
use vstd::prelude::*;
use crate::planner::{Plan, PlanProposal};
use crate::metadata::{FileMetadata, FileStatus};
use crate::text::{append, append_lit, chars_of, contains_lit, dec, dec_chars, digit, digit_exec, eq_lit, has_sub, starts, starts_lit, string_of};

verus! {

pub open spec fn kib() -> nat { 1024 }
pub open spec fn mib() -> nat { 1024 * 1024 }
pub open spec fn gib() -> nat { 1024 * 1024 * 1024 }
pub open spec fn tib() -> nat { 1024 * 1024 * 1024 * 1024 }

/// `n / d` rounded to the nearest integer, ties to even (how one decimal of a
/// quotient is printed).
pub open spec fn round_half_even(n: nat, d: nat) -> nat
    recommends
        d > 0,
{
    let q = n / d;
    let r = n % d;
    if 2 * r > d || (2 * r == d && q % 2 == 1) { q + 1 } else { q }
}

/// A number of tenths written with one decimal.
pub open spec fn tenths_str(t: nat) -> Seq<char> {
    dec(t / 10) + seq!['.', digit(t % 10)]
}

/// A size in bytes as people read it: one decimal in the largest binary unit
/// it reaches, or whole bytes below one KiB.
pub open spec fn size_str(b: nat) -> Seq<char> {
    if b >= tib() {
        tenths_str(round_half_even(b * 10, tib())) + " TiB"@
    } else if b >= gib() {
        tenths_str(round_half_even(b * 10, gib())) + " GiB"@
    } else if b >= mib() {
        tenths_str(round_half_even(b * 10, mib())) + " MiB"@
    } else if b >= kib() {
        tenths_str(round_half_even(b * 10, kib())) + " KiB"@
    } else {
        dec(b) + " B"@
    }
}

fn round_half_even_exec(n: u128, d: u128) -> (r: u128)
    requires
        d > 0,
        n < u128::MAX / 4,
        d < u128::MAX / 4,
    ensures
        r == round_half_even(n as nat, d as nat),
{
    let q = n / d;
    let r = n % d;
    if 2 * r > d || (2 * r == d && q % 2 == 1) { q + 1 } else { q }
}

fn tenths_exec(t: u128, out: &mut Vec<char>)
    ensures
        final(out)@ == old(out)@ + tenths_str(t as nat),
{
    let d = dec_chars(t / 10);
    append(out, &d);
    out.push('.');
    out.push(digit_exec(t % 10));
}

/// Formats a size in bytes (`1.5 KiB`, `512 B`).
pub fn format_size(bytes: u64) -> (s: String)
    ensures
        s@ == size_str(bytes as nat),
{
    let k: u128 = 1024;
    let m: u128 = k * 1024;
    let g: u128 = m * 1024;
    let t: u128 = g * 1024;
    let b = bytes as u128;
    let mut out: Vec<char> = Vec::new();
    if b >= t {
        tenths_exec(round_half_even_exec(b * 10, t), &mut out);
        append_lit(&mut out, " TiB");
    } else if b >= g {
        tenths_exec(round_half_even_exec(b * 10, g), &mut out);
        append_lit(&mut out, " GiB");
    } else if b >= m {
        tenths_exec(round_half_even_exec(b * 10, m), &mut out);
        append_lit(&mut out, " MiB");
    } else if b >= k {
        tenths_exec(round_half_even_exec(b * 10, k), &mut out);
        append_lit(&mut out, " KiB");
    } else {
        append(&mut out, &dec_chars(b));
        append_lit(&mut out, " B");
    }
    string_of(&out)
}

/// The simplified category of a MIME type.
pub open spec fn mime_category_spec(m: Seq<char>) -> Seq<char> {
    if starts(m, "image/"@) {
        "Imagens"@
    } else if starts(m, "video/"@) {
        "Vídeos"@
    } else if starts(m, "audio/"@) {
        "Áudio"@
    } else if starts(m, "text/"@) {
        "Texto"@
    } else if m == "application/pdf"@ {
        "PDF"@
    } else if has_sub(m, "zip"@) || has_sub(m, "tar"@) || has_sub(m, "compressed"@) || has_sub(m, "gzip"@) {
        "Compactados"@
    } else {
        "Outros"@
    }
}

/// The simplified category of a MIME type (images, videos, audio, text, PDF,
/// archives, others).
pub fn mime_category(mime: &str) -> (c: String)
    ensures
        c@ == mime_category_spec(mime@),
{
    let m = chars_of(mime);
    let r = if starts_lit(&m, "image/") {
        "Imagens"
    } else if starts_lit(&m, "video/") {
        "Vídeos"
    } else if starts_lit(&m, "audio/") {
        "Áudio"
    } else if starts_lit(&m, "text/") {
        "Texto"
    } else if eq_lit(&m, "application/pdf") {
        "PDF"
    } else if contains_lit(&m, "zip") || contains_lit(&m, "tar") || contains_lit(&m, "compressed") || contains_lit(&m, "gzip") {
        "Compactados"
    } else {
        "Outros"
    };
    string_of(&chars_of(r))
}

/// The plan dashboard's counts.
#[derive(Debug, Clone, Copy, PartialEq, Eq, Structural)]
pub struct PlanDashboard {
    pub safe: usize,
    pub review: usize,
    pub conflict: usize,
    pub project_moves: usize,
    pub file_moves: usize,
    pub renames: usize,
}

/// The dashboard's counts as naturals: (safe, review, conflict, project
/// moves, file moves, renames).
pub open spec fn dashboard_counts(s: Seq<PlanProposal>) -> (nat, nat, nat, nat, nat, nat)
    decreases s.len(),
{
    if s.len() == 0 {
        (0, 0, 0, 0, 0, 0)
    } else {
        let (sa, rv, cf, pm, fm, rn) = dashboard_counts(s.drop_last());
        let p = s.last();
        let (sa2, rv2, cf2) = if p.needs_review {
            (sa, rv + 1, cf)
        } else if p.risk@ == "low"@ {
            (sa + 1, rv, cf)
        } else {
            (sa, rv, cf + 1)
        };
        let (pm2, fm2, rn2) = if p.action@ == "move_project"@ {
            (pm + 1, fm, rn)
        } else if p.action@ == "move"@ {
            (pm, fm + 1, rn)
        } else if p.action@ == "rename"@ {
            (pm, fm, rn + 1)
        } else {
            (pm, fm, rn)
        };
        (sa2, rv2, cf2, pm2, fm2, rn2)
    }
}

proof fn lemma_dashboard_bounded(s: Seq<PlanProposal>)
    ensures
        dashboard_counts(s).0 + dashboard_counts(s).1 + dashboard_counts(s).2 == s.len(),
        dashboard_counts(s).3 + dashboard_counts(s).4 + dashboard_counts(s).5 <= s.len(),
    decreases s.len(),
{
    if s.len() > 0 {
        lemma_dashboard_bounded(s.drop_last());
    }
}

/// Counts the plan's proposals by safety (safe, to review, in conflict) and
/// by kind (project moves, file moves, renames).
pub fn plan_dashboard(plan: &Plan) -> (d: PlanDashboard)
    ensures
        (d.safe as nat, d.review as nat, d.conflict as nat, d.project_moves as nat, d.file_moves as nat, d.renames as nat)
            == dashboard_counts(plan.proposals@),
{
    let mut d = PlanDashboard { safe: 0, review: 0, conflict: 0, project_moves: 0, file_moves: 0, renames: 0 };
    let mut i: usize = 0;
    while i < plan.proposals.len()
        invariant
            i <= plan.proposals@.len(),
            (d.safe as nat, d.review as nat, d.conflict as nat, d.project_moves as nat, d.file_moves as nat, d.renames as nat)
                == dashboard_counts(plan.proposals@.subrange(0, i as int)),
        decreases plan.proposals@.len() - i,
    {
        proof {
            assert(plan.proposals@.subrange(0, i + 1).drop_last() == plan.proposals@.subrange(0, i as int));
            lemma_dashboard_bounded(plan.proposals@.subrange(0, i as int));
        }
        let p = &plan.proposals[i];
        let risk = chars_of(p.risk.as_str());
        let act = chars_of(p.action.as_str());
        if p.needs_review {
            d.review = d.review + 1;
        } else if eq_lit(&risk, "low") {
            d.safe = d.safe + 1;
        } else {
            d.conflict = d.conflict + 1;
        }
        if eq_lit(&act, "move_project") {
            d.project_moves = d.project_moves + 1;
        } else if eq_lit(&act, "move") {
            d.file_moves = d.file_moves + 1;
        } else if eq_lit(&act, "rename") {
            d.renames = d.renames + 1;
        }
        i += 1;
    }
    assert(plan.proposals@.subrange(0, i as int) == plan.proposals@);
    d
}

/// A group of files with identical content.
#[derive(Debug)]
pub struct DuplicateGroup {
    pub hash: String,
    pub size_bytes: u64,
    pub files: Vec<String>,
}

/// The bytes wasted by duplicate groups: every copy beyond the first.
pub open spec fn wasted(gs: Seq<DuplicateGroup>) -> int
    decreases gs.len(),
{
    if gs.len() == 0 {
        0
    } else {
        wasted(gs.drop_last()) + gs.last().size_bytes * (gs.last().files@.len() - 1)
    }
}

/// The bytes wasted by duplicates. Every group holds at least one file, and
/// the total fits in 64 bits.
pub fn total_waste(groups: &Vec<DuplicateGroup>) -> (w: u64)
    requires
        forall|i: int| 0 <= i < groups@.len() ==> #[trigger] groups@[i].files@.len() >= 1,
        forall|i: int| 0 <= i <= groups@.len() ==> 0 <= #[trigger] wasted(groups@.subrange(0, i)) <= u64::MAX,
    ensures
        w == wasted(groups@),
{
    let mut w: u64 = 0;
    let mut i: usize = 0;
    while i < groups.len()
        invariant
            i <= groups@.len(),
            forall|k: int| 0 <= k < groups@.len() ==> #[trigger] groups@[k].files@.len() >= 1,
            forall|k: int| 0 <= k <= groups@.len() ==> 0 <= #[trigger] wasted(groups@.subrange(0, k)) <= u64::MAX,
            w == wasted(groups@.subrange(0, i as int)),
        decreases groups@.len() - i,
    {
        let g = &groups[i];
        proof {
            assert(groups@.subrange(0, i + 1).drop_last() == groups@.subrange(0, i as int));
            assert(groups@.subrange(0, i + 1).last() == groups@[i as int]);
            assert(0 <= wasted(groups@.subrange(0, i + 1)) <= u64::MAX);
        }
        let copies = (g.files.len() - 1) as u64;
        let extra = (g.size_bytes as u128) * (copies as u128);
        proof {
            assert(wasted(groups@.subrange(0, i + 1)) == w + g.size_bytes * copies);
            assert(extra == g.size_bytes * copies) by (nonlinear_arith)
                requires extra == (g.size_bytes as u128) * (copies as u128);
            assert(0 <= g.size_bytes * copies) by (nonlinear_arith);
        }
        w = w + extra as u64;
        i += 1;
    }
    assert(groups@.subrange(0, i as int) == groups@);
    w
}

// ---------------------------------------------------------------------------
// The full report's tables
// ---------------------------------------------------------------------------

/// A row of a report table: a label and its figure.
pub open spec fn rows_view(v: Seq<(String, u64)>) -> Seq<(Seq<char>, nat)> {
    v.map_values(|r: (String, u64)| (r.0@, r.1 as nat))
}

/// Where a stable sort by decreasing figure puts `x` among the sorted `r`.
pub open spec fn row_pos(r: Seq<(Seq<char>, nat)>, x: (Seq<char>, nat)) -> int
    decreases r.len(),
{
    if r.len() == 0 {
        0
    } else if r.last().1 >= x.1 {
        r.len() as int
    } else {
        row_pos(r.drop_last(), x)
    }
}

/// A stable sort of rows by decreasing figure.
pub open spec fn sort_rows(s: Seq<(Seq<char>, nat)>) -> Seq<(Seq<char>, nat)>
    decreases s.len(),
{
    if s.len() == 0 {
        Seq::empty()
    } else {
        let r = sort_rows(s.drop_last());
        r.insert(row_pos(r, s.last()), s.last())
    }
}

/// The index of the row labelled `k`, if any.
pub open spec fn row_index(t: Seq<(Seq<char>, nat)>, k: Seq<char>) -> Option<int>
    decreases t.len(),
{
    if t.len() == 0 {
        None
    } else if t.last().0 == k {
        Some(t.len() - 1)
    } else {
        row_index(t.drop_last(), k)
    }
}

/// Adds `w` to the row labelled `k`, or appends that row.
pub open spec fn add_to_row(t: Seq<(Seq<char>, nat)>, k: Seq<char>, w: nat) -> Seq<(Seq<char>, nat)> {
    match row_index(t, k) {
        Some(j) => t.update(j, (k, t[j].1 + w)),
        None => t.push((k, w)),
    }
}

/// The label of a file's extension in the report.
pub open spec fn ext_label(f: FileMetadata) -> Seq<char> {
    if f.extension@.len() == 0 { "(sem extensão)"@ } else { f.extension@ }
}

/// The analyzed files per extension label, in order of first appearance.
pub open spec fn ext_tally(fs: Seq<FileMetadata>) -> Seq<(Seq<char>, nat)>
    decreases fs.len(),
{
    if fs.len() == 0 {
        Seq::empty()
    } else {
        let t = ext_tally(fs.drop_last());
        if fs.last().status == FileStatus::Analyzed { add_to_row(t, ext_label(fs.last()), 1) } else { t }
    }
}

/// The bytes of analyzed files per MIME category, in order of first appearance.
pub open spec fn category_tally(fs: Seq<FileMetadata>) -> Seq<(Seq<char>, nat)>
    decreases fs.len(),
{
    if fs.len() == 0 {
        Seq::empty()
    } else {
        let t = category_tally(fs.drop_last());
        let f = fs.last();
        if f.status == FileStatus::Analyzed { add_to_row(t, mime_category_spec(f.mime@), f.size_bytes as nat) } else { t }
    }
}

/// The analyzed files with their sizes, in order.
pub open spec fn analyzed_rows(fs: Seq<FileMetadata>) -> Seq<(Seq<char>, nat)>
    decreases fs.len(),
{
    if fs.len() == 0 {
        Seq::empty()
    } else {
        let t = analyzed_rows(fs.drop_last());
        let f = fs.last();
        if f.status == FileStatus::Analyzed { t.push((f.path@, f.size_bytes as nat)) } else { t }
    }
}

/// The sum of a table's figures.
pub open spec fn rows_total(t: Seq<(Seq<char>, nat)>) -> nat
    decreases t.len(),
{
    if t.len() == 0 { 0 } else { rows_total(t.drop_last()) + t.last().1 }
}

proof fn lemma_rows_total_update(t: Seq<(Seq<char>, nat)>, j: int, x: (Seq<char>, nat))
    requires
        0 <= j < t.len(),
    ensures
        rows_total(t.update(j, x)) + t[j].1 == rows_total(t) + x.1,
    decreases t.len(),
{
    if j < t.len() - 1 {
        lemma_rows_total_update(t.drop_last(), j, x);
        assert(t.update(j, x).drop_last() =~= t.drop_last().update(j, x));
    } else {
        assert(t.update(j, x).drop_last() =~= t.drop_last());
    }
}

proof fn lemma_row_le_total(t: Seq<(Seq<char>, nat)>, j: int)
    requires
        0 <= j < t.len(),
    ensures
        t[j].1 <= rows_total(t),
    decreases t.len(),
{
    if j < t.len() - 1 {
        lemma_row_le_total(t.drop_last(), j);
    }
}

proof fn lemma_row_index(t: Seq<(Seq<char>, nat)>, k: Seq<char>)
    ensures
        row_index(t, k) matches Some(j) ==> 0 <= j < t.len() && t[j].0 == k,
    decreases t.len(),
{
    if t.len() > 0 {
        lemma_row_index(t.drop_last(), k);
    }
}

proof fn lemma_add_total(t: Seq<(Seq<char>, nat)>, k: Seq<char>, w: nat)
    ensures
        rows_total(add_to_row(t, k, w)) == rows_total(t) + w,
{
    lemma_row_index(t, k);
    match row_index(t, k) {
        Some(j) => {
            lemma_rows_total_update(t, j, (k, t[j].1 + w));
        },
        None => {
            assert(add_to_row(t, k, w).drop_last() =~= t);
        },
    }
}

fn find_row(t: &Vec<(String, u64)>, k: &Vec<char>) -> (r: Option<usize>)
    ensures
        match r {
            Some(j) => row_index(rows_view(t@), k@) == Some(j as int) && j < t@.len(),
            None => row_index(rows_view(t@), k@) is None,
        },
{
    let ghost tv = rows_view(t@);
    let mut i: usize = t.len();
    assert(tv.subrange(0, i as int) =~= tv);
    while i > 0
        invariant
            i <= t@.len(),
            tv == rows_view(t@),
            row_index(tv, k@) == row_index(tv.subrange(0, i as int), k@),
        decreases i,
    {
        assert(tv.subrange(0, i as int).drop_last() =~= tv.subrange(0, i - 1));
        assert(tv.subrange(0, i as int).last() == tv[i - 1]);
        let l = chars_of(t[i - 1].0.as_str());
        if crate::text::seq_eq(&l, k) {
            return Some(i - 1);
        }
        i -= 1;
    }
    None
}

/// Adds `w` to the row labelled `k` (the total stays within 64 bits).
fn add_row(t: &mut Vec<(String, u64)>, k: &Vec<char>, w: u64)
    requires
        rows_total(rows_view(old(t)@)) + w <= u64::MAX,
    ensures
        rows_view(final(t)@) == add_to_row(rows_view(old(t)@), k@, w as nat),
{
    let ghost tv = rows_view(t@);
    proof { lemma_row_index(tv, k@); }
    match find_row(t, k) {
        Some(j) => {
            proof { lemma_row_le_total(tv, j as int); }
            let (label, n) = t.remove(j);
            t.insert(j, (label, n + w));
            assert(rows_view(t@) =~= tv.update(j as int, (k@, tv[j as int].1 + w as nat)));
        },
        None => {
            t.push((string_of(k), w));
            assert(rows_view(t@) =~= tv.push((k@, w as nat)));
        },
    }
}

proof fn lemma_row_pos_bounds(r: Seq<(Seq<char>, nat)>, x: (Seq<char>, nat))
    ensures
        0 <= row_pos(r, x) <= r.len(),
    decreases r.len(),
{
    if r.len() > 0 {
        lemma_row_pos_bounds(r.drop_last(), x);
    }
}

/// Sorts rows by decreasing figure, keeping the order of equal figures.
fn sort_rows_exec(v: Vec<(String, u64)>) -> (r: Vec<(String, u64)>)
    ensures
        rows_view(r@) == sort_rows(rows_view(v@)),
{
    let ghost orig = rows_view(v@);
    let mut rest = v;
    let mut out: Vec<(String, u64)> = Vec::new();
    let ghost mut n: int = 0;
    while rest.len() > 0
        invariant
            0 <= n <= orig.len(),
            rows_view(rest@) == orig.subrange(n, orig.len() as int),
            rows_view(out@) == sort_rows(orig.subrange(0, n)),
        decreases rest@.len(),
    {
        let ghost r0 = rest@;
        proof {
            assert(rows_view(r0).len() == r0.len());
            assert(n < orig.len());
            assert(rows_view(r0)[0] == orig[n]);
        }
        let x = rest.remove(0);
        proof {
            assert(x == r0[0]);
            assert forall|i: int| 0 <= i < rest@.len() implies rows_view(rest@)[i] == orig.subrange(n + 1, orig.len() as int)[i] by {
                assert(rest@[i] == r0[i + 1]);
                assert(rows_view(r0)[i + 1] == orig.subrange(n, orig.len() as int)[i + 1]);
            }
            assert(rows_view(rest@) =~= orig.subrange(n + 1, orig.len() as int));
        }
        let ghost ov = rows_view(out@);
        let ghost xv = (x.0@, x.1 as nat);
        assert(xv == orig[n]);
        let mut k: usize = out.len();
        assert(ov.subrange(0, k as int) =~= ov);
        while k > 0 && out[k - 1].1 < x.1
            invariant
                k <= out@.len(),
                ov == rows_view(out@),
                xv == (x.0@, x.1 as nat),
                row_pos(ov, xv) == row_pos(ov.subrange(0, k as int), xv),
            decreases k,
        {
            assert(ov.subrange(0, k as int).drop_last() =~= ov.subrange(0, k - 1));
            assert(ov.subrange(0, k as int).last() == ov[k - 1]);
            assert(ov[k - 1] == (out@[k - 1].0@, out@[k - 1].1 as nat));
            k -= 1;
        }
        proof {
            let t = ov.subrange(0, k as int);
            if k > 0 {
                assert(t.last() == ov[k - 1]);
                assert(ov[k - 1] == (out@[k - 1].0@, out@[k - 1].1 as nat));
            }
            assert(row_pos(t, xv) == k);
            assert(orig.subrange(0, n + 1).drop_last() =~= orig.subrange(0, n));
            assert(orig.subrange(0, n + 1).last() == xv);
        }
        out.insert(k, x);
        proof {
            assert(rows_view(out@) =~= ov.insert(k as int, xv));
            n = n + 1;
        }
    }
    assert(orig.subrange(0, n) =~= orig);
    out
}

/// The extensions of the analyzed files with their counts, most frequent
/// first (ties in order of first appearance).
pub fn extension_counts(files: &Vec<FileMetadata>) -> (r: Vec<(String, u64)>)
    ensures
        rows_view(r@) == sort_rows(ext_tally(files@)),
{
    let mut t: Vec<(String, u64)> = Vec::new();
    let mut i: usize = 0;
    while i < files.len()
        invariant
            i <= files@.len(),
            rows_view(t@) == ext_tally(files@.subrange(0, i as int)),
            rows_total(rows_view(t@)) <= i,
        decreases files@.len() - i,
    {
        proof {
            assert(files@.subrange(0, i + 1).drop_last() =~= files@.subrange(0, i as int));
            assert(files@.subrange(0, i + 1).last() == files@[i as int]);
        }
        let f = &files[i];
        if f.status == FileStatus::Analyzed {
            let ext = chars_of(f.extension.as_str());
            let label = if ext.len() == 0 { chars_of("(sem extensão)") } else { ext };
            proof { lemma_add_total(rows_view(t@), label@, 1); }
            add_row(&mut t, &label, 1);
        }
        i += 1;
    }
    assert(files@.subrange(0, i as int) =~= files@);
    sort_rows_exec(t)
}

proof fn lemma_category_total(fs: Seq<FileMetadata>)
    ensures
        rows_total(category_tally(fs)) == crate::scanner::analyzed_size(fs),
    decreases fs.len(),
{
    if fs.len() > 0 {
        lemma_category_total(fs.drop_last());
        let f = fs.last();
        if f.status == FileStatus::Analyzed {
            lemma_add_total(category_tally(fs.drop_last()), mime_category_spec(f.mime@), f.size_bytes as nat);
        }
    }
}

proof fn lemma_analyzed_prefix(fs: Seq<FileMetadata>, i: int)
    requires
        0 <= i <= fs.len(),
    ensures
        crate::scanner::analyzed_size(fs.subrange(0, i)) <= crate::scanner::analyzed_size(fs),
    decreases fs.len() - i,
{
    if i < fs.len() {
        lemma_analyzed_prefix(fs, i + 1);
        assert(fs.subrange(0, i + 1).drop_last() =~= fs.subrange(0, i));
    } else {
        assert(fs.subrange(0, i) =~= fs);
    }
}

/// The bytes of the analyzed files per MIME category, largest first. The
/// analyzed files' total size fits in 64 bits.
pub fn category_sizes(files: &Vec<FileMetadata>) -> (r: Vec<(String, u64)>)
    requires
        crate::scanner::analyzed_size(files@) <= u64::MAX,
    ensures
        rows_view(r@) == sort_rows(category_tally(files@)),
{
    let mut t: Vec<(String, u64)> = Vec::new();
    let mut i: usize = 0;
    while i < files.len()
        invariant
            i <= files@.len(),
            crate::scanner::analyzed_size(files@) <= u64::MAX,
            rows_view(t@) == category_tally(files@.subrange(0, i as int)),
        decreases files@.len() - i,
    {
        proof {
            assert(files@.subrange(0, i + 1).drop_last() =~= files@.subrange(0, i as int));
            assert(files@.subrange(0, i + 1).last() == files@[i as int]);
            lemma_category_total(files@.subrange(0, i as int));
            lemma_category_total(files@.subrange(0, i + 1));
            lemma_analyzed_prefix(files@, i + 1);
        }
        let f = &files[i];
        if f.status == FileStatus::Analyzed {
            let cat = mime_category(f.mime.as_str());
            let label = chars_of(cat.as_str());
            proof { lemma_add_total(rows_view(t@), label@, f.size_bytes as nat); }
            add_row(&mut t, &label, f.size_bytes);
        }
        i += 1;
    }
    assert(files@.subrange(0, i as int) =~= files@);
    sort_rows_exec(t)
}

/// The analyzed files with their sizes, largest first (ties in scan order).
pub fn largest_files(files: &Vec<FileMetadata>) -> (r: Vec<(String, u64)>)
    ensures
        rows_view(r@) == sort_rows(analyzed_rows(files@)),
{
    let mut t: Vec<(String, u64)> = Vec::new();
    let mut i: usize = 0;
    while i < files.len()
        invariant
            i <= files@.len(),
            rows_view(t@) == analyzed_rows(files@.subrange(0, i as int)),
        decreases files@.len() - i,
    {
        proof {
            assert(files@.subrange(0, i + 1).drop_last() =~= files@.subrange(0, i as int));
            assert(files@.subrange(0, i + 1).last() == files@[i as int]);
        }
        let f = &files[i];
        if f.status == FileStatus::Analyzed {
            let ghost before = rows_view(t@);
            t.push((f.path.clone(), f.size_bytes));
            assert(rows_view(t@) =~= before.push((f.path@, f.size_bytes as nat)));
        }
        i += 1;
    }
    assert(files@.subrange(0, i as int) =~= files@);
    sort_rows_exec(t)
}

// ---------------------------------------------------------------------------
// Duplicates
// ---------------------------------------------------------------------------

/// A group as the contracts see it: hash, size and files.
pub open spec fn group_view(g: DuplicateGroup) -> (Seq<char>, nat, Seq<Seq<char>>) {
    (g.hash@, g.size_bytes as nat, crate::text::strs(g.files@))
}

pub open spec fn groups_view(gs: Seq<DuplicateGroup>) -> Seq<(Seq<char>, nat, Seq<Seq<char>>)> {
    gs.map_values(|g: DuplicateGroup| group_view(g))
}

/// The index of the group of hash `h`, if any.
pub open spec fn group_index(gs: Seq<(Seq<char>, nat, Seq<Seq<char>>)>, h: Seq<char>) -> Option<int>
    decreases gs.len(),
{
    if gs.len() == 0 {
        None
    } else if gs.last().0 == h {
        Some(gs.len() - 1)
    } else {
        group_index(gs.drop_last(), h)
    }
}

/// All files grouped by hash, in order of first appearance; a group keeps the
/// size of its first file.
pub open spec fn hash_groups(entries: Seq<(Seq<char>, nat, Seq<char>)>) -> Seq<(Seq<char>, nat, Seq<Seq<char>>)>
    decreases entries.len(),
{
    if entries.len() == 0 {
        Seq::empty()
    } else {
        let gs = hash_groups(entries.drop_last());
        let (path, size, hash) = entries.last();
        match group_index(gs, hash) {
            Some(j) => gs.update(j, (gs[j].0, gs[j].1, gs[j].2.push(path))),
            None => gs.push((hash, size, seq![path])),
        }
    }
}

/// The groups with at least two files.
pub open spec fn shared(gs: Seq<(Seq<char>, nat, Seq<Seq<char>>)>) -> Seq<(Seq<char>, nat, Seq<Seq<char>>)>
    decreases gs.len(),
{
    if gs.len() == 0 {
        Seq::empty()
    } else if gs.last().2.len() >= 2 {
        shared(gs.drop_last()).push(gs.last())
    } else {
        shared(gs.drop_last())
    }
}

pub open spec fn entries_view(v: Seq<(String, u64, String)>) -> Seq<(Seq<char>, nat, Seq<char>)> {
    v.map_values(|e: (String, u64, String)| (e.0@, e.1 as nat, e.2@))
}

proof fn lemma_group_index(gs: Seq<(Seq<char>, nat, Seq<Seq<char>>)>, h: Seq<char>)
    ensures
        group_index(gs, h) matches Some(j) ==> 0 <= j < gs.len() && gs[j].0 == h,
    decreases gs.len(),
{
    if gs.len() > 0 {
        lemma_group_index(gs.drop_last(), h);
    }
}

fn find_group(gs: &Vec<DuplicateGroup>, h: &Vec<char>) -> (r: Option<usize>)
    ensures
        match r {
            Some(j) => group_index(groups_view(gs@), h@) == Some(j as int) && j < gs@.len(),
            None => group_index(groups_view(gs@), h@) is None,
        },
{
    let ghost gv = groups_view(gs@);
    let mut i: usize = gs.len();
    assert(gv.subrange(0, i as int) =~= gv);
    while i > 0
        invariant
            i <= gs@.len(),
            gv == groups_view(gs@),
            group_index(gv, h@) == group_index(gv.subrange(0, i as int), h@),
        decreases i,
    {
        assert(gv.subrange(0, i as int).drop_last() =~= gv.subrange(0, i - 1));
        assert(gv.subrange(0, i as int).last() == gv[i - 1]);
        let hc = chars_of(gs[i - 1].hash.as_str());
        if crate::text::seq_eq(&hc, h) {
            return Some(i - 1);
        }
        i -= 1;
    }
    None
}

/// Groups of files with identical content (same SHA-256): every hash shared by
/// at least two of the `(path, size, hash)` entries, in order of first
/// appearance, with its files in order and the size of its first file.
pub fn duplicate_groups(entries: &Vec<(String, u64, String)>) -> (r: Vec<DuplicateGroup>)
    ensures
        groups_view(r@) == shared(hash_groups(entries_view(entries@))),
{
    let ghost ev = entries_view(entries@);
    let mut gs: Vec<DuplicateGroup> = Vec::new();
    let mut i: usize = 0;
    while i < entries.len()
        invariant
            i <= entries@.len(),
            ev == entries_view(entries@),
            groups_view(gs@) == hash_groups(ev.subrange(0, i as int)),
        decreases entries@.len() - i,
    {
        proof {
            assert(ev.subrange(0, i + 1).drop_last() =~= ev.subrange(0, i as int));
            assert(ev.subrange(0, i + 1).last() == ev[i as int]);
        }
        let ghost gv = groups_view(gs@);
        let h = chars_of(entries[i].2.as_str());
        proof { lemma_group_index(gv, h@); }
        match find_group(&gs, &h) {
            Some(j) => {
                let mut g = gs.remove(j);
                let ghost f0 = crate::text::strs(g.files@);
                g.files.push(entries[i].0.clone());
                assert(crate::text::strs(g.files@) =~= f0.push(entries@[i as int].0@));
                gs.insert(j, g);
                assert(groups_view(gs@) =~= gv.update(j as int, (gv[j as int].0, gv[j as int].1, gv[j as int].2.push(entries@[i as int].0@))));
            },
            None => {
                let mut files: Vec<String> = Vec::new();
                files.push(entries[i].0.clone());
                assert(crate::text::strs(files@) =~= seq![entries@[i as int].0@]);
                gs.push(DuplicateGroup { hash: entries[i].2.clone(), size_bytes: entries[i].1, files });
                assert(groups_view(gs@) =~= gv.push((entries@[i as int].2@, entries@[i as int].1 as nat, seq![entries@[i as int].0@])));
            },
        }
        i += 1;
    }
    assert(ev.subrange(0, i as int) =~= ev);
    let ghost all = groups_view(gs@);
    let mut out: Vec<DuplicateGroup> = Vec::new();
    let mut rest = gs;
    let ghost mut n: int = 0;
    while rest.len() > 0
        invariant
            0 <= n <= all.len(),
            groups_view(rest@) == all.subrange(n, all.len() as int),
            groups_view(out@) == shared(all.subrange(0, n)),
        decreases rest@.len(),
    {
        let ghost r0 = rest@;
        proof {
            assert(groups_view(r0).len() == r0.len());
            assert(groups_view(r0)[0] == all[n]);
        }
        let g = rest.remove(0);
        proof {
            assert forall|k: int| 0 <= k < rest@.len() implies groups_view(rest@)[k] == all.subrange(n + 1, all.len() as int)[k] by {
                assert(rest@[k] == r0[k + 1]);
                assert(groups_view(r0)[k + 1] == all.subrange(n, all.len() as int)[k + 1]);
            }
            assert(groups_view(rest@) =~= all.subrange(n + 1, all.len() as int));
            assert(all.subrange(0, n + 1).drop_last() =~= all.subrange(0, n));
            assert(all.subrange(0, n + 1).last() == group_view(g));
        }
        if g.files.len() >= 2 {
            let ghost before = groups_view(out@);
            out.push(g);
            assert(groups_view(out@) =~= before.push(all[n]));
        }
        proof { n = n + 1; }
    }
    assert(all.subrange(0, n) =~= all);
    out
}

/// Every reported duplicate group has at least two files.
pub proof fn lemma_groups_are_shared(gs: Seq<(Seq<char>, nat, Seq<Seq<char>>)>, k: int)
    requires
        0 <= k < shared(gs).len(),
    ensures
        shared(gs)[k].2.len() >= 2,
    decreases gs.len(),
{
    if gs.len() > 0 && k < shared(gs.drop_last()).len() {
        lemma_groups_are_shared(gs.drop_last(), k);
    }
}

} // verus!
