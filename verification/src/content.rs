//! Content and context profiles: which files may be read, the keywords and
//! summary drawn from a text, a notebook's cells or a PDF's text, and the
//! categories suggested by a file's siblings. Reading files is the caller's.
use vstd::prelude::*;
use crate::metadata::{ContentProfile, ContextProfile};
use crate::paths::{extension, name_extension_exec, file_name_exec};
use crate::taxonomy::opt_str;
use crate::text::{append_lit, chars_of, contains, contains_lit, eq_lit, has_sub, join, lower_chars, lowercase,
    replace_char, replace_char_exec, seq_eq, slice_chars, starts, string_of, strs, trim, trim_exec};

verus! {

/// Paths whose content is never read: keys, secrets and private configuration.
pub open spec fn read_forbidden(path: Seq<char>) -> bool {
    let l = lowercase(path);
    has_sub(l, "/.ssh/"@) || has_sub(l, "/.gnupg/"@) || has_sub(l, "/.config/"@) || has_sub(l, "/brain.env"@)
        || has_sub(l, "/.env"@) || has_sub(l, ".key"@) || has_sub(l, ".pem"@)
}

/// Whether the content of `path` must never be read.
pub fn is_read_forbidden(path: &str) -> (b: bool)
    ensures
        b == read_forbidden(path@),
{
    let l = lower_chars(path);
    contains_lit(&l, "/.ssh/") || contains_lit(&l, "/.gnupg/") || contains_lit(&l, "/.config/")
        || contains_lit(&l, "/brain.env") || contains_lit(&l, "/.env") || contains_lit(&l, ".key")
        || contains_lit(&l, ".pem")
}

/// How a file's content is sampled.
#[derive(Debug, Clone, Copy, PartialEq, Eq, Structural)]
pub enum ContentKind {
    /// Plain text or TeX: the first 64 KiB are read.
    Text,
    /// A Jupyter notebook: its first ten cells are read.
    Notebook,
    /// A PDF: the text of its first three pages is read.
    Pdf,
}

/// The kind of sampling a path gets, by its lowercased extension; none for a
/// forbidden path or another extension.
pub open spec fn content_kind_spec(path: Seq<char>) -> Option<ContentKind> {
    if read_forbidden(path) {
        None
    } else {
        match extension(path) {
            Some(e) => {
                let l = lowercase(e);
                if l == "txt"@ || l == "md"@ || l == "tex"@ || l == "latex"@ {
                    Some(ContentKind::Text)
                } else if l == "ipynb"@ {
                    Some(ContentKind::Notebook)
                } else if l == "pdf"@ {
                    Some(ContentKind::Pdf)
                } else {
                    None
                }
            },
            None => None,
        }
    }
}

/// How the content of `path` is sampled, if at all.
pub fn content_kind(path: &str) -> (k: Option<ContentKind>)
    ensures
        k == content_kind_spec(path@),
{
    if is_read_forbidden(path) {
        return None;
    }
    let ext = match file_name_exec(&chars_of(path)) {
        Some(n) => name_extension_exec(&n),
        None => None,
    };
    match ext {
        Some(e) => {
            let l = lower_chars(string_of(&e).as_str());
            if eq_lit(&l, "txt") || eq_lit(&l, "md") || eq_lit(&l, "tex") || eq_lit(&l, "latex") {
                Some(ContentKind::Text)
            } else if eq_lit(&l, "ipynb") {
                Some(ContentKind::Notebook)
            } else if eq_lit(&l, "pdf") {
                Some(ContentKind::Pdf)
            } else {
                None
            }
        },
        None => None,
    }
}

/// The keywords looked for in documents.
pub open spec fn document_keywords() -> Seq<Seq<char>> {
    seq![
        "pix"@, "comprovante"@, "pagamento"@, "boleto"@, "contrato"@, "rg"@, "cpf"@, "extrato"@,
        "declaracao"@, "recibo"@, "certificado"@, "diploma"@,
    ]
}

/// The keywords looked for in plain text: the document keywords and the
/// project names.
pub open spec fn text_keywords() -> Seq<Seq<char>> {
    document_keywords() + seq!["kryonix"@, "ragos"@, "nixos"@, "nix"@]
}

/// The keywords looked for in notebook cells.
pub open spec fn notebook_keywords() -> Seq<Seq<char>> {
    seq!["import"@, "plt"@, "pandas"@, "numpy"@, "torch"@, "sklearn"@, "tensorflow"@, "model"@, "train"@, "dataset"@]
}

/// The keywords of `kws` that occur in `text`, in the order of `kws`.
pub open spec fn found_keywords(kws: Seq<Seq<char>>, text: Seq<char>) -> Seq<Seq<char>>
    decreases kws.len(),
{
    if kws.len() == 0 {
        Seq::empty()
    } else {
        let r = found_keywords(kws.drop_last(), text);
        if has_sub(text, kws.last()) { r.push(kws.last()) } else { r }
    }
}

/// The summary of a text: line breaks become spaces, the ends are trimmed,
/// and past 120 characters the text is cut and `...` added.
pub open spec fn summary_of(content: Seq<char>) -> Seq<char> {
    let c = trim(replace_char(content, '\n', ' '));
    if c.len() > 120 { c.take(120) + "..."@ } else { c }
}

fn found_keywords_exec(kws: &[&str], text: &Vec<char>) -> (r: Vec<String>)
    ensures
        strs(r@) == found_keywords(kws@.map_values(|k: &str| k@), text@),
{
    let ghost ks = kws@.map_values(|k: &str| k@);
    let mut out: Vec<String> = Vec::new();
    let mut i: usize = 0;
    while i < kws.len()
        invariant
            i <= kws@.len(),
            ks == kws@.map_values(|k: &str| k@),
            strs(out@) == found_keywords(ks.subrange(0, i as int), text@),
        decreases kws@.len() - i,
    {
        proof {
            assert(ks.subrange(0, i + 1).drop_last() =~= ks.subrange(0, i as int));
            assert(ks.subrange(0, i + 1).last() == kws@[i as int]@);
        }
        let k = chars_of(kws[i]);
        if contains(text, &k) {
            let ghost before = out@;
            out.push(string_of(&k));
            assert(strs(out@) =~= strs(before).push(k@));
        }
        i += 1;
    }
    assert(ks.subrange(0, i as int) =~= ks);
    out
}

fn summary_exec(content: &str) -> (r: String)
    ensures
        r@ == summary_of(content@),
{
    let c = trim_exec(&replace_char_exec(&chars_of(content), '\n', ' '));
    if c.len() > 120 {
        let mut t = slice_chars(&c, 0, 120);
        append_lit(&mut t, "...");
        assert(c@.subrange(0, 120) =~= c@.take(120));
        string_of(&t)
    } else {
        string_of(&c)
    }
}

/// The profile of a text document (a PDF's text when `pdf`): the keywords
/// found in its lowercased text, its summary, and its language label.
pub fn text_content_profile(content: &str, pdf: bool) -> (p: ContentProfile)
    ensures
        strs(p.keywords@) == found_keywords(if pdf { document_keywords() } else { text_keywords() }, lowercase(content@)),
        opt_str(p.summary) == Some(summary_of(content@)),
        opt_str(p.language) == Some(if pdf { "PDF Document"@ } else { "Text"@ }),
{
    let lower = lower_chars(content);
    let keywords = if pdf {
        let kws: [&str; 12] = [
            "pix", "comprovante", "pagamento", "boleto", "contrato", "rg", "cpf", "extrato", "declaracao", "recibo",
            "certificado", "diploma",
        ];
        proof { assert(kws@.map_values(|k: &str| k@) =~= document_keywords()); }
        found_keywords_exec(&kws, &lower)
    } else {
        let kws: [&str; 16] = [
            "pix", "comprovante", "pagamento", "boleto", "contrato", "rg", "cpf", "extrato", "declaracao", "recibo",
            "certificado", "diploma", "kryonix", "ragos", "nixos", "nix",
        ];
        proof { assert(kws@.map_values(|k: &str| k@) =~= text_keywords()); }
        found_keywords_exec(&kws, &lower)
    };
    ContentProfile {
        summary: Some(summary_exec(content)),
        keywords,
        language: Some(string_of(&chars_of(if pdf { "PDF Document" } else { "Text" }))),
    }
}

/// `Vec::dedup`: runs of equal consecutive items collapse to one.
pub open spec fn dedup(s: Seq<Seq<char>>) -> Seq<Seq<char>>
    decreases s.len(),
{
    if s.len() == 0 {
        Seq::empty()
    } else {
        let r = dedup(s.drop_last());
        if r.len() > 0 && r.last() == s.last() { r } else { r.push(s.last()) }
    }
}

/// `Vec::dedup` on strings.
pub fn dedup_strings(v: Vec<String>) -> (r: Vec<String>)
    ensures
        strs(r@) == dedup(strs(v@)),
{
    let ghost s = strs(v@);
    let mut out: Vec<String> = Vec::new();
    let mut last: Vec<char> = Vec::new();
    let mut i: usize = 0;
    while i < v.len()
        invariant
            i <= v@.len(),
            s == strs(v@),
            strs(out@) == dedup(s.subrange(0, i as int)),
            out@.len() > 0 ==> last@ == strs(out@).last(),
        decreases v@.len() - i,
    {
        proof {
            assert(s.subrange(0, i + 1).drop_last() =~= s.subrange(0, i as int));
            assert(s.subrange(0, i + 1).last() == v@[i as int]@);
        }
        let x = chars_of(v[i].as_str());
        if out.len() > 0 && seq_eq(&last, &x) {
        } else {
            let ghost before = out@;
            out.push(string_of(&x));
            assert(strs(out@) =~= strs(before).push(x@));
            last = x;
        }
        i += 1;
    }
    assert(s.subrange(0, i as int) =~= s);
    out
}

/// The keywords of a notebook: those of each cell in order, then deduplicated.
pub open spec fn notebook_keywords_of(cells: Seq<Seq<char>>) -> Seq<Seq<char>>
    decreases cells.len(),
{
    if cells.len() == 0 {
        Seq::empty()
    } else {
        notebook_keywords_of(cells.drop_last()) + found_keywords(notebook_keywords(), lowercase(cells.last()))
    }
}

/// The trimmed cells that begin with `#` (markdown headings), in order.
pub open spec fn heading_parts(cells: Seq<Seq<char>>) -> Seq<Seq<char>>
    decreases cells.len(),
{
    if cells.len() == 0 {
        Seq::empty()
    } else {
        let r = heading_parts(cells.drop_last());
        if starts(cells.last(), "#"@) { r.push(trim(cells.last())) } else { r }
    }
}

/// The profile of a notebook from the text of its first cells.
pub fn notebook_profile(cells: &Vec<String>) -> (p: ContentProfile)
    ensures
        strs(p.keywords@) == dedup(notebook_keywords_of(strs(cells@))),
        opt_str(p.summary) == Some(if heading_parts(strs(cells@)).len() > 0 {
            join(heading_parts(strs(cells@)), " | "@)
        } else {
            "Jupyter Notebook"@
        }),
        opt_str(p.language) == Some("Python/Jupyter"@),
{
    let ghost cs = strs(cells@);
    let kws: [&str; 10] = ["import", "plt", "pandas", "numpy", "torch", "sklearn", "tensorflow", "model", "train", "dataset"];
    proof { assert(kws@.map_values(|k: &str| k@) =~= notebook_keywords()); }
    let mut keywords: Vec<String> = Vec::new();
    let mut parts: Vec<String> = Vec::new();
    let mut i: usize = 0;
    while i < cells.len()
        invariant
            i <= cells@.len(),
            cs == strs(cells@),
            kws@.map_values(|k: &str| k@) == notebook_keywords(),
            strs(keywords@) == notebook_keywords_of(cs.subrange(0, i as int)),
            strs(parts@) == heading_parts(cs.subrange(0, i as int)),
        decreases cells@.len() - i,
    {
        proof {
            assert(cs.subrange(0, i + 1).drop_last() =~= cs.subrange(0, i as int));
            assert(cs.subrange(0, i + 1).last() == cells@[i as int]@);
        }
        let text = chars_of(cells[i].as_str());
        let lower = lower_chars(cells[i].as_str());
        let found = found_keywords_exec(&kws, &lower);
        let ghost k0 = strs(keywords@);
        let mut j: usize = 0;
        while j < found.len()
            invariant
                j <= found@.len(),
                strs(keywords@) == k0 + strs(found@).subrange(0, j as int),
            decreases found@.len() - j,
        {
            let ghost before = keywords@;
            keywords.push(string_of(&chars_of(found[j].as_str())));
            assert(strs(keywords@) =~= strs(before).push(found@[j as int]@));
            assert(strs(found@).subrange(0, j + 1) =~= strs(found@).subrange(0, j as int).push(found@[j as int]@));
            j += 1;
        }
        assert(strs(found@).subrange(0, j as int) =~= strs(found@));
        if crate::text::starts_lit(&text, "#") {
            let ghost before = parts@;
            let t = trim_exec(&text);
            parts.push(string_of(&t));
            assert(strs(parts@) =~= strs(before).push(t@));
        }
        i += 1;
    }
    assert(cs.subrange(0, i as int) =~= cs);
    let summary = if parts.len() > 0 {
        string_of(&crate::text::join_exec(&parts, " | "))
    } else {
        string_of(&chars_of("Jupyter Notebook"))
    };
    ContentProfile {
        summary: Some(summary),
        keywords: dedup_strings(keywords),
        language: Some(string_of(&chars_of("Python/Jupyter"))),
    }
}

/// The categories one sibling's name suggests.
pub open spec fn sibling_hints(name: Seq<char>) -> Seq<Seq<char>> {
    let l = lowercase(name);
    (if has_sub(l, "nix"@) || has_sub(l, "flake"@) { seq!["projetos.nixos"@] } else { Seq::empty() })
        + (if has_sub(l, "cargo"@) || has_sub(l, "rust"@) { seq!["estudos.rust"@] } else { Seq::empty() })
        + (if has_sub(l, "kryonix"@) { seq!["projetos.kryonix"@] } else { Seq::empty() })
}

/// The categories suggested by all siblings, in order, before deduplication.
pub open spec fn all_hints(names: Seq<Seq<char>>) -> Seq<Seq<char>>
    decreases names.len(),
{
    if names.len() == 0 {
        Seq::empty()
    } else {
        all_hints(names.drop_last()) + sibling_hints(names.last())
    }
}

/// The context profile of a file from whether an ancestor folder holds a
/// project marker and the names of its siblings.
pub fn context_profile(is_inside_codebase: bool, sibling_names: &Vec<String>) -> (c: ContextProfile)
    ensures
        c.is_inside_codebase == is_inside_codebase,
        strs(c.sibling_categories@) == dedup(all_hints(strs(sibling_names@))),
{
    let ghost ns = strs(sibling_names@);
    let mut cats: Vec<String> = Vec::new();
    let mut i: usize = 0;
    while i < sibling_names.len()
        invariant
            i <= sibling_names@.len(),
            ns == strs(sibling_names@),
            strs(cats@) == all_hints(ns.subrange(0, i as int)),
        decreases sibling_names@.len() - i,
    {
        proof {
            assert(ns.subrange(0, i + 1).drop_last() =~= ns.subrange(0, i as int));
            assert(ns.subrange(0, i + 1).last() == sibling_names@[i as int]@);
        }
        let l = lower_chars(sibling_names[i].as_str());
        let ghost before = strs(cats@);
        if contains_lit(&l, "nix") || contains_lit(&l, "flake") {
            cats.push(string_of(&chars_of("projetos.nixos")));
        }
        let ghost b1 = strs(cats@);
        if contains_lit(&l, "cargo") || contains_lit(&l, "rust") {
            cats.push(string_of(&chars_of("estudos.rust")));
        }
        let ghost b2 = strs(cats@);
        if contains_lit(&l, "kryonix") {
            cats.push(string_of(&chars_of("projetos.kryonix")));
        }
        proof {
            let h = sibling_hints(sibling_names@[i as int]@);
            assert(strs(cats@) =~= before + h);
        }
        i += 1;
    }
    assert(ns.subrange(0, i as int) =~= ns);
    ContextProfile { is_inside_codebase, sibling_categories: dedup_strings(cats) }
}

/// The sources of the given notebook cells, skipping cells that have none.
pub open spec fn cell_sources(cells: Seq<Option<Seq<char>>>) -> Seq<Seq<char>>
    decreases cells.len(),
{
    if cells.len() == 0 {
        Seq::empty()
    } else {
        let rest = cell_sources(cells.drop_last());
        match cells.last() {
            Some(s) => rest.push(s),
            None => rest,
        }
    }
}

/// The texts that a notebook's profile reads: the sources of its first ten
/// cells, in order.
pub fn first_cells(cells: &Vec<Option<String>>) -> (r: Vec<String>)
    ensures
        ({
            let cs = cells@.map_values(|c: Option<String>| opt_str(c));
            strs(r@) == cell_sources(if cs.len() < 10 { cs } else { cs.take(10) })
        }),
{
    let ghost cs = cells@.map_values(|c: Option<String>| opt_str(c));
    let n: usize = if cells.len() < 10 { cells.len() } else { 10 };
    let mut r: Vec<String> = Vec::new();
    let mut k: usize = 0;
    assert(cs.take(0) =~= Seq::<Option<Seq<char>>>::empty());
    while k < n
        invariant
            k <= n,
            n <= cells@.len(),
            n == if cells@.len() < 10 { cells@.len() } else { 10 },
            cs == cells@.map_values(|c: Option<String>| opt_str(c)),
            strs(r@) == cell_sources(cs.take(k as int)),
        decreases n - k,
    {
        let ghost before = strs(r@);
        assert(cs.take(k + 1).drop_last() =~= cs.take(k as int));
        assert(cs.take(k + 1).last() == opt_str(cells@[k as int]));
        match &cells[k] {
            Some(s) => {
                r.push(s.clone());
                assert(strs(r@) =~= before.push(s@));
            },
            None => {},
        }
        k += 1;
    }
    assert(cs.len() < 10 ==> cs.take(n as int) =~= cs);
    r
}

} // verus!
