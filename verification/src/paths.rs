//! Unix path structure over strings: components, final name, extension, join.
//!
//! A path is read as `std::path::Path` reads it on Unix: `/` separates
//! components, a leading `/` is the root, empty pieces and `.` pieces are not
//! components (a leading `.` of a relative path is the current directory),
//! and `..` is the parent directory.
use vstd::prelude::*;
use crate::text::{split_char, split_exec, slice_chars, chars_of, eq_lit, vviews, append};

verus! {

/// The pieces of `pieces` that are components: neither empty nor `.`.
pub open spec fn keep_segs(pieces: Seq<Seq<char>>) -> Seq<Seq<char>>
    decreases pieces.len(),
{
    if pieces.len() == 0 {
        Seq::empty()
    } else {
        let r = keep_segs(pieces.drop_last());
        let x = pieces.last();
        if x.len() == 0 || x == "."@ { r } else { r.push(x) }
    }
}

/// The non-root components of `p`, as strings (`..` included).
pub open spec fn segs(p: Seq<char>) -> Seq<Seq<char>> {
    keep_segs(split_char(p, '/'))
}

/// The components of `p` that are names (`std::path::Component::Normal`).
pub open spec fn keep_normals(ss: Seq<Seq<char>>) -> Seq<Seq<char>>
    decreases ss.len(),
{
    if ss.len() == 0 {
        Seq::empty()
    } else {
        let r = keep_normals(ss.drop_last());
        if ss.last() == ".."@ { r } else { r.push(ss.last()) }
    }
}

pub open spec fn normals(p: Seq<char>) -> Seq<Seq<char>> {
    keep_normals(segs(p))
}

/// `p` has a root.
pub open spec fn is_abs(p: Seq<char>) -> bool {
    p.len() > 0 && p[0] == '/'
}

/// `p` begins with the current-directory component.
pub open spec fn cur_dir(p: Seq<char>) -> bool {
    !is_abs(p) && split_char(p, '/')[0] == "."@
}

/// `Path::file_name`.
pub open spec fn file_name(p: Seq<char>) -> Option<Seq<char>> {
    let s = segs(p);
    if s.len() == 0 || s.last() == ".."@ {
        None
    } else {
        Some(s.last())
    }
}

/// `Path::file_name`, or the empty string when there is none.
pub open spec fn file_name_or_empty(p: Seq<char>) -> Seq<char> {
    match file_name(p) {
        Some(n) => n,
        None => Seq::empty(),
    }
}

/// Index of the last `.` of `s`, or `-1`.
pub open spec fn last_dot(s: Seq<char>) -> int
    decreases s.len(),
{
    if s.len() == 0 {
        -1
    } else if s.last() == '.' {
        s.len() - 1
    } else {
        last_dot(s.drop_last())
    }
}

/// The extension of a file name: what follows its last `.`, unless that `.`
/// is the first character or there is none.
pub open spec fn name_extension(name: Seq<char>) -> Option<Seq<char>> {
    let k = last_dot(name);
    if k <= 0 {
        None
    } else {
        Some(name.subrange(k + 1, name.len() as int))
    }
}

/// `Path::extension`.
pub open spec fn extension(p: Seq<char>) -> Option<Seq<char>> {
    match file_name(p) {
        Some(n) => name_extension(n),
        None => None,
    }
}

/// `Path::extension`, or the empty string when there is none.
pub open spec fn extension_or_empty(p: Seq<char>) -> Seq<char> {
    match extension(p) {
        Some(e) => e,
        None => Seq::empty(),
    }
}

/// `Path::join` followed by `to_string_lossy` (for UTF-8 strings).
pub open spec fn join_path(a: Seq<char>, b: Seq<char>) -> Seq<char> {
    if is_abs(b) {
        b
    } else if a.len() == 0 || a.last() == '/' {
        a + b
    } else {
        a + seq!['/'] + b
    }
}

/// The components of a path, as compared by `Path`'s `==`.
pub struct Comps {
    pub abs: bool,
    pub cur: bool,
    pub segs: Seq<Seq<char>>,
}

pub open spec fn comps(p: Seq<char>) -> Comps {
    Comps { abs: is_abs(p), cur: cur_dir(p), segs: segs(p) }
}

/// The components of `Path::parent`, when there is a parent.
pub open spec fn parent_comps(p: Seq<char>) -> Option<Comps> {
    let c = comps(p);
    if c.segs.len() > 0 {
        Some(Comps { segs: c.segs.drop_last(), ..c })
    } else if c.cur {
        Some(Comps { abs: false, cur: false, segs: Seq::empty() })
    } else {
        None
    }
}

/// `Path::starts_with`: `base`'s components are a prefix of `p`'s.
pub open spec fn comps_prefix(base: Seq<char>, p: Seq<char>) -> bool {
    let b = comps(base);
    let c = comps(p);
    b.abs == c.abs && b.cur == c.cur && b.segs.len() <= c.segs.len() && c.segs.subrange(
        0,
        b.segs.len() as int,
    ) == b.segs
}

// ---------------------------------------------------------------------------
// Exec
// ---------------------------------------------------------------------------

/// The non-root components of `p`.
pub fn segs_exec(p: &Vec<char>) -> (r: Vec<Vec<char>>)
    ensures
        vviews(r@) == segs(p@),
{
    let pieces = split_exec(p, '/');
    let mut out: Vec<Vec<char>> = Vec::new();
    let mut i: usize = 0;
    assert(vviews(out@) == Seq::<Seq<char>>::empty());
    while i < pieces.len()
        invariant
            i <= pieces.len(),
            vviews(pieces@) == split_char(p@, '/'),
            vviews(out@) == keep_segs(vviews(pieces@).subrange(0, i as int)),
        decreases pieces.len() - i,
    {
        assert(vviews(pieces@).subrange(0, i + 1).drop_last() == vviews(pieces@).subrange(0, i as int));
        assert(vviews(pieces@)[i as int] == pieces@[i as int]@);
        let x = &pieces[i];
        if x.len() != 0 && !eq_lit(x, ".") {
            let ghost before = vviews(out@);
            out.push(slice_chars(x, 0, x.len()));
            assert(x@.subrange(0, x@.len() as int) == x@);
            assert(vviews(out@) == before.push(x@));
        }
        i += 1;
    }
    assert(vviews(pieces@).subrange(0, pieces.len() as int) == vviews(pieces@));
    out
}

/// The name components of `p`.
pub fn normals_exec(p: &Vec<char>) -> (r: Vec<Vec<char>>)
    ensures
        vviews(r@) == normals(p@),
{
    let ss = segs_exec(p);
    let mut out: Vec<Vec<char>> = Vec::new();
    let mut i: usize = 0;
    assert(vviews(out@) == Seq::<Seq<char>>::empty());
    while i < ss.len()
        invariant
            i <= ss.len(),
            vviews(ss@) == segs(p@),
            vviews(out@) == keep_normals(vviews(ss@).subrange(0, i as int)),
        decreases ss.len() - i,
    {
        assert(vviews(ss@).subrange(0, i + 1).drop_last() == vviews(ss@).subrange(0, i as int));
        assert(vviews(ss@)[i as int] == ss@[i as int]@);
        let x = &ss[i];
        if !eq_lit(x, "..") {
            let ghost before = vviews(out@);
            out.push(slice_chars(x, 0, x.len()));
            assert(x@.subrange(0, x@.len() as int) == x@);
            assert(vviews(out@) == before.push(x@));
        }
        i += 1;
    }
    assert(vviews(ss@).subrange(0, ss.len() as int) == vviews(ss@));
    out
}

/// `Path::file_name`.
pub fn file_name_exec(p: &Vec<char>) -> (r: Option<Vec<char>>)
    ensures
        match r {
            Some(n) => file_name(p@) == Some(n@),
            None => file_name(p@) is None,
        },
{
    let ss = segs_exec(p);
    if ss.len() == 0 {
        return None;
    }
    let last = &ss[ss.len() - 1];
    assert(last@ == segs(p@).last());
    if eq_lit(last, "..") {
        None
    } else {
        Some(slice_chars(last, 0, last.len()))
    }
}

/// `Path::file_name`, or the empty string.
pub fn file_name_or_empty_exec(p: &Vec<char>) -> (r: Vec<char>)
    ensures
        r@ == file_name_or_empty(p@),
{
    match file_name_exec(p) {
        Some(n) => n,
        None => Vec::new(),
    }
}

proof fn lemma_last_dot(s: Seq<char>, k: int)
    requires
        -1 <= k < s.len(),
        k >= 0 ==> s[k] == '.',
        forall|j: int| k < j < s.len() ==> s[j] != '.',
    ensures
        last_dot(s) == k,
    decreases s.len(),
{
    if s.len() > 0 && k < s.len() - 1 {
        lemma_last_dot(s.drop_last(), k);
    }
}

/// The extension of a file name.
pub fn name_extension_exec(n: &Vec<char>) -> (r: Option<Vec<char>>)
    ensures
        match r {
            Some(e) => name_extension(n@) == Some(e@),
            None => name_extension(n@) is None,
        },
{
    let mut j: usize = n.len();
    while j > 0 && n[j - 1] != '.'
        invariant
            j <= n.len(),
            forall|m: int| j <= m < n.len() ==> n@[m] != '.',
        decreases j,
    {
        j -= 1;
    }
    proof {
        lemma_last_dot(n@, j - 1);
    }
    if j <= 1 {
        None
    } else {
        Some(slice_chars(n, j, n.len()))
    }
}

/// `Path::extension`, or the empty string.
pub fn extension_or_empty_exec(p: &Vec<char>) -> (r: Vec<char>)
    ensures
        r@ == extension_or_empty(p@),
{
    match file_name_exec(p) {
        Some(n) => match name_extension_exec(&n) {
            Some(e) => e,
            None => Vec::new(),
        },
        None => Vec::new(),
    }
}

/// `Path::new(a).join(b)` as a string.
pub fn join_path_exec(a: &Vec<char>, b: &Vec<char>) -> (r: Vec<char>)
    ensures
        r@ == join_path(a@, b@),
{
    if b.len() > 0 && b[0] == '/' {
        return slice_chars(b, 0, b.len());
    }
    let mut out = slice_chars(a, 0, a.len());
    assert(a@.subrange(0, a.len() as int) == a@);
    if a.len() > 0 && a[a.len() - 1] != '/' {
        out.push('/');
    }
    append(&mut out, b);
    out
}

/// `Path::new(a).join(b)` as a string, from strings.
pub fn join_path_str(a: &str, b: &str) -> (r: Vec<char>)
    ensures
        r@ == join_path(a@, b@),
{
    let ac = chars_of(a);
    let bc = chars_of(b);
    join_path_exec(&ac, &bc)
}

/// The components of `p` begin with the current directory.
pub fn cur_dir_exec(p: &Vec<char>) -> (r: bool)
    ensures
        r == cur_dir(p@),
{
    if p.len() > 0 && p[0] == '/' {
        return false;
    }
    let pieces = split_exec(p, '/');
    proof {
        lemma_split_nonempty(p@, '/');
    }
    assert(vviews(pieces@)[0] == pieces@[0]@);
    eq_lit(&pieces[0], ".")
}

pub proof fn lemma_split_nonempty(s: Seq<char>, c: char)
    ensures
        split_char(s, c).len() > 0,
    decreases s.len(),
{
}

/// Two sequences of components are equal.
pub fn vseq_eq(a: &Vec<Vec<char>>, b: &Vec<Vec<char>>) -> (r: bool)
    ensures
        r == (vviews(a@) == vviews(b@)),
{
    if a.len() != b.len() {
        return false;
    }
    let mut i: usize = 0;
    while i < a.len()
        invariant
            a.len() == b.len(),
            i <= a.len(),
            forall|j: int| 0 <= j < i ==> vviews(a@)[j] == vviews(b@)[j],
        decreases a.len() - i,
    {
        if !crate::text::seq_eq(&a[i], &b[i]) {
            assert(vviews(a@)[i as int] != vviews(b@)[i as int]);
            return false;
        }
        i += 1;
    }
    assert(vviews(a@) =~= vviews(b@));
    true
}

/// `Path::new(p).parent() == Some(Path::new(q))`.
pub fn parent_is(p: &Vec<char>, q: &Vec<char>) -> (r: bool)
    ensures
        r == (parent_comps(p@) == Some(comps(q@))),
{
    let ps = segs_exec(p);
    let qs = segs_exec(q);
    let pabs = p.len() > 0 && p[0] == '/';
    let qabs = q.len() > 0 && q[0] == '/';
    let pcur = cur_dir_exec(p);
    let qcur = cur_dir_exec(q);
    if ps.len() > 0 {
        let mut pre: Vec<Vec<char>> = Vec::new();
        let mut i: usize = 0;
        while i < ps.len() - 1
            invariant
                ps.len() > 0,
                i <= ps.len() - 1,
                vviews(pre@) == vviews(ps@).subrange(0, i as int),
            decreases ps.len() - 1 - i,
        {
            let ghost before = vviews(pre@);
            pre.push(slice_chars(&ps[i], 0, ps[i].len()));
            assert(ps@[i as int]@.subrange(0, ps@[i as int]@.len() as int) == ps@[i as int]@);
            assert(vviews(pre@) == before.push(vviews(ps@)[i as int]));
            assert(vviews(ps@).subrange(0, i + 1) == vviews(ps@).subrange(0, i as int).push(vviews(ps@)[i as int]));
            i += 1;
        }
        assert(vviews(ps@).drop_last() == vviews(ps@).subrange(0, ps.len() - 1));
        let same = vseq_eq(&pre, &qs);
        let r = pabs == qabs && pcur == qcur && same;
        proof {
            let pc = Comps { segs: comps(p@).segs.drop_last(), ..comps(p@) };
            assert(parent_comps(p@) == Some(pc));
            if r {
                assert(pc.segs == comps(q@).segs);
                assert(pc == comps(q@));
            }
        }
        r
    } else if pcur {
        let r = !qabs && !qcur && qs.len() == 0;
        proof {
            if r {
                assert(comps(q@).segs == Seq::<Seq<char>>::empty());
            }
        }
        r
    } else {
        false
    }
}

} // verus!
