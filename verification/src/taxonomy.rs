//! Declarative taxonomy: the TOML-subset parser for category rules and the
//! keyword scoring that picks a destination category for a file.
use vstd::prelude::*;
use crate::text::{
    append, append_lit, append_str, contains, hundredths_chars, join_exec, lower_chars, seq_eq,
    char_pos, chars_of, has_word, hundredths_str, join, lowercase, eq_lit, find_char, slice_chars, split_char, split_exec, starts,
    starts_lit, string_of, strs, trim, trim_char, trim_char_exec, trim_exec, vviews};

verus! {

/// One category rule of the taxonomy.
pub struct CategoryConfig {
    pub id: String,
    pub label: String,
    pub dir: String,
    pub keywords: Vec<String>,
    pub extensions: Option<Vec<String>>,
    pub risk: Option<String>,
}

/// A taxonomy profile: its name, the fallback directory and the category rules, in order.
pub struct TaxonomyConfig {
    pub profile: String,
    pub fallback_dir: String,
    pub categories: Vec<CategoryConfig>,
}

/// Mathematical model of a category rule.
pub struct CategorySpec {
    pub id: Seq<char>,
    pub label: Seq<char>,
    pub dir: Seq<char>,
    pub keywords: Seq<Seq<char>>,
    pub extensions: Option<Seq<Seq<char>>>,
    pub risk: Option<Seq<char>>,
}

/// Mathematical model of a taxonomy profile.
pub struct TaxonomySpec {
    pub profile: Seq<char>,
    pub fallback_dir: Seq<char>,
    pub categories: Seq<CategorySpec>,
}

pub open spec fn opt_strs(o: Option<Vec<String>>) -> Option<Seq<Seq<char>>> {
    match o {
        Some(v) => Some(strs(v@)),
        None => None,
    }
}

pub open spec fn opt_str(o: Option<String>) -> Option<Seq<char>> {
    match o {
        Some(v) => Some(v@),
        None => None,
    }
}

impl View for CategoryConfig {
    type V = CategorySpec;

    open spec fn view(&self) -> CategorySpec {
        CategorySpec {
            id: self.id@,
            label: self.label@,
            dir: self.dir@,
            keywords: strs(self.keywords@),
            extensions: opt_strs(self.extensions),
            risk: opt_str(self.risk),
        }
    }
}

pub open spec fn cats(v: Seq<CategoryConfig>) -> Seq<CategorySpec> {
    v.map_values(|c: CategoryConfig| c@)
}

impl View for TaxonomyConfig {
    type V = TaxonomySpec;

    open spec fn view(&self) -> TaxonomySpec {
        TaxonomySpec {
            profile: self.profile@,
            fallback_dir: self.fallback_dir@,
            categories: cats(self.categories@),
        }
    }
}

pub open spec fn opt_cat(o: Option<CategoryConfig>) -> Option<CategorySpec> {
    match o {
        Some(c) => Some(c@),
        None => None,
    }
}

// ---------------------------------------------------------------------------
// The parser, as a specification
// ---------------------------------------------------------------------------

/// State of the line-by-line parse: the profile read so far and the category being filled.
pub struct ParseState {
    pub cfg: TaxonomySpec,
    pub cur: Option<CategorySpec>,
}

pub open spec fn initial_state() -> ParseState {
    ParseState {
        cfg: TaxonomySpec {
            profile: "kryonix-home-taxonomy-v1"@,
            fallback_dir: "Documentos/00_Inbox/Revisar"@,
            categories: Seq::empty(),
        },
        cur: None,
    }
}

pub open spec fn empty_category() -> CategorySpec {
    CategorySpec {
        id: Seq::empty(),
        label: Seq::empty(),
        dir: Seq::empty(),
        keywords: Seq::empty(),
        extensions: None,
        risk: Some("low"@),
    }
}

/// The categories completed so far, with the one being filled appended.
pub open spec fn flushed(st: ParseState) -> Seq<CategorySpec> {
    match st.cur {
        Some(c) => st.cfg.categories.push(c),
        None => st.cfg.categories,
    }
}

/// An array literal: begins with `[` and ends with `]`.
pub open spec fn is_list(val: Seq<char>) -> bool {
    val.len() > 0 && val[0] == '[' && val.last() == ']'
}

/// One array item: trimmed, then stripped of double and single quotes.
pub open spec fn clean_item(p: Seq<char>) -> Seq<char> {
    trim_char(trim_char(trim(p), '"'), '\'')
}

/// `ss` without its empty items, order kept.
pub open spec fn keep_nonempty(ss: Seq<Seq<char>>) -> Seq<Seq<char>>
    decreases ss.len(),
{
    if ss.len() == 0 {
        Seq::empty()
    } else if ss.last().len() > 0 {
        keep_nonempty(ss.drop_last()).push(ss.last())
    } else {
        keep_nonempty(ss.drop_last())
    }
}

/// The items of an array literal `[a, "b", 'c']`.
pub open spec fn list_items(val: Seq<char>) -> Seq<Seq<char>> {
    keep_nonempty(split_char(val.subrange(1, val.len() - 1), ',').map_values(|p: Seq<char>| clean_item(p)))
}

/// A `key = value` line applied to the category being filled.
pub open spec fn set_field(cat: CategorySpec, key: Seq<char>, val: Seq<char>, unq: Seq<char>) -> CategorySpec {
    if key == "id"@ {
        CategorySpec { id: unq, ..cat }
    } else if key == "label"@ {
        CategorySpec { label: unq, ..cat }
    } else if key == "dir"@ {
        CategorySpec { dir: unq, ..cat }
    } else if key == "risk"@ {
        CategorySpec { risk: Some(unq), ..cat }
    } else if key == "keywords"@ && is_list(val) {
        CategorySpec { keywords: list_items(val), ..cat }
    } else if key == "extensions"@ && is_list(val) {
        CategorySpec { extensions: Some(list_items(val)), ..cat }
    } else {
        cat
    }
}

/// The value of a `key = value` line without its quotes.
pub open spec fn unquote(val: Seq<char>) -> Seq<char> {
    trim_char(trim_char(val, '"'), '\'')
}

/// A `key = value` line (with `=` at `i` of the trimmed line `t`).
pub open spec fn assign_line(st: ParseState, t: Seq<char>, i: int) -> ParseState {
    let key = trim(t.subrange(0, i));
    let val = trim(t.subrange(i + 1, t.len() as int));
    let unq = unquote(val);
    match st.cur {
        Some(cat) => ParseState { cur: Some(set_field(cat, key, val, unq)), ..st },
        None => if key == "name"@ {
            ParseState { cfg: TaxonomySpec { profile: unq, ..st.cfg }, ..st }
        } else if key == "fallback_dir"@ {
            ParseState { cfg: TaxonomySpec { fallback_dir: unq, ..st.cfg }, ..st }
        } else {
            st
        },
    }
}

/// One raw line of the file applied to the parse state.
pub open spec fn parse_line(st: ParseState, raw: Seq<char>) -> ParseState {
    let t = trim(raw);
    if t.len() == 0 || t[0] == '#' {
        st
    } else if t == "[[category]]"@ {
        ParseState {
            cfg: TaxonomySpec { categories: flushed(st), ..st.cfg },
            cur: Some(empty_category()),
        }
    } else if starts(t, "[profile]"@) {
        ParseState { cfg: TaxonomySpec { categories: flushed(st), ..st.cfg }, cur: None }
    } else if char_pos(t, '=') < t.len() {
        assign_line(st, t, char_pos(t, '=') as int)
    } else {
        st
    }
}

/// The parse state after the lines `ls`, in order.
pub open spec fn parse_lines(ls: Seq<Seq<char>>) -> ParseState
    decreases ls.len(),
{
    if ls.len() == 0 {
        initial_state()
    } else {
        parse_line(parse_lines(ls.drop_last()), ls.last())
    }
}

/// How many of the lines `ls` are, trimmed, a `[[category]]` header.
pub open spec fn category_headers(ls: Seq<Seq<char>>) -> nat
    decreases ls.len(),
{
    if ls.len() == 0 {
        0
    } else {
        category_headers(ls.drop_last()) + if trim(ls.last()) == "[[category]]"@ { 1nat } else { 0nat }
    }
}

proof fn lemma_headers_lines(ls: Seq<Seq<char>>)
    ensures
        flushed(parse_lines(ls)).len() == category_headers(ls),
    decreases ls.len(),
{
    if ls.len() > 0 {
        lemma_headers_lines(ls.drop_last());
        let st = parse_lines(ls.drop_last());
        let t = trim(ls.last());
        reveal_strlit("[[category]]");
        if t == "[[category]]"@ {
            assert(t.len() > 0 && t[0] != '#');
            assert(flushed(parse_line(st, ls.last())) == flushed(st).push(empty_category()));
        } else {
            assert(flushed(parse_line(st, ls.last())).len() == flushed(st).len());
        }
    }
}

/// The parse holds one category per `[[category]]` header line, and no
/// other: a file without such a line (the empty file among them) has no
/// categories.
pub proof fn lemma_one_category_per_header(content: Seq<char>)
    ensures
        parse_taxonomy(content).categories.len() == category_headers(split_char(content, '\n')),
{
    lemma_headers_lines(split_char(content, '\n'));
}

/// What `parse_taxonomy_toml` makes of `content`. Lines are the pieces between
/// `\n` characters; a trailing `\r` and a final empty piece are absorbed by the
/// trimming and the skipping of empty lines, as with `str::lines`.
pub open spec fn parse_taxonomy(content: Seq<char>) -> TaxonomySpec {
    let st = parse_lines(split_char(content, '\n'));
    TaxonomySpec { categories: flushed(st), ..st.cfg }
}

// ---------------------------------------------------------------------------
// The parser, executable
// ---------------------------------------------------------------------------

fn list_items_exec(val: &Vec<char>) -> (r: Vec<String>)
    requires
        is_list(val@),
    ensures
        strs(r@) == list_items(val@),
{
    let inner = slice_chars(val, 1, val.len() - 1);
    let pieces = split_exec(&inner, ',');
    let ghost cleaned = split_char(inner@, ',').map_values(|p: Seq<char>| clean_item(p));
    let mut out: Vec<String> = Vec::new();
    let mut i: usize = 0;
    while i < pieces.len()
        invariant
            i <= pieces.len(),
            vviews(pieces@) == split_char(inner@, ','),
            cleaned == split_char(inner@, ',').map_values(|p: Seq<char>| clean_item(p)),
            strs(out@) == keep_nonempty(cleaned.subrange(0, i as int)),
        decreases pieces.len() - i,
    {
        let t = trim_exec(&pieces[i]);
        let t2 = trim_char_exec(&t, '"');
        let t3 = trim_char_exec(&t2, '\'');
        proof {
            assert(pieces@[i as int]@ == vviews(pieces@)[i as int]);
            assert(t3@ == cleaned[i as int]);
            assert(cleaned.subrange(0, i + 1).drop_last() == cleaned.subrange(0, i as int));
        }
        if t3.len() > 0 {
            let ghost before = strs(out@);
            out.push(string_of(&t3));
            assert(strs(out@) == before.push(t3@));
        }
        i += 1;
    }
    assert(cleaned.subrange(0, pieces.len() as int) == cleaned);
    r_out(out)
}

#[inline(always)]
fn r_out(v: Vec<String>) -> (r: Vec<String>)
    ensures
        r == v,
{
    v
}

fn set_field_exec(cat: &mut CategoryConfig, key: &Vec<char>, val: &Vec<char>, unq: &Vec<char>)
    ensures
        final(cat)@ == set_field(old(cat)@, key@, val@, unq@),
{
    if eq_lit(key, "id") {
        cat.id = string_of(unq);
    } else if eq_lit(key, "label") {
        cat.label = string_of(unq);
    } else if eq_lit(key, "dir") {
        cat.dir = string_of(unq);
    } else if eq_lit(key, "risk") {
        cat.risk = Some(string_of(unq));
    } else if eq_lit(key, "keywords") && val.len() > 0 && val[0] == '[' && val[val.len() - 1] == ']' {
        cat.keywords = list_items_exec(val);
    } else if eq_lit(key, "extensions") && val.len() > 0 && val[0] == '[' && val[val.len() - 1] == ']' {
        cat.extensions = Some(list_items_exec(val));
    }
}

fn new_category() -> (c: CategoryConfig)
    ensures
        c@ == empty_category(),
{
    let c = CategoryConfig {
        id: String::new(),
        label: String::new(),
        dir: String::new(),
        keywords: Vec::new(),
        extensions: None,
        risk: Some(string_of(&chars_of("low"))),
    };
    assert(strs(c.keywords@) == Seq::<Seq<char>>::empty());
    c
}

fn flush_exec(cfg: &mut TaxonomyConfig, cur: &mut Option<CategoryConfig>)
    ensures
        final(cfg)@ == (TaxonomySpec {
            categories: flushed(ParseState { cfg: old(cfg)@, cur: opt_cat(*old(cur)) }),
            ..old(cfg)@
        }),
        *final(cur) == None::<CategoryConfig>,
{
    let taken = cur.take();
    match taken {
        Some(c) => {
            let ghost before = cats(cfg.categories@);
            cfg.categories.push(c);
            assert(cats(cfg.categories@) == before.push(c@));
        },
        None => {},
    }
}

fn parse_line_exec(cfg: &mut TaxonomyConfig, cur: &mut Option<CategoryConfig>, raw: &Vec<char>)
    ensures
        (ParseState { cfg: final(cfg)@, cur: opt_cat(*final(cur)) }) == parse_line(
            ParseState { cfg: old(cfg)@, cur: opt_cat(*old(cur)) },
            raw@,
        ),
{
    let t = trim_exec(raw);
    if t.len() == 0 || t[0] == '#' {
        return;
    }
    if eq_lit(&t, "[[category]]") {
        flush_exec(cfg, cur);
        *cur = Some(new_category());
        return;
    }
    if starts_lit(&t, "[profile]") {
        flush_exec(cfg, cur);
        return;
    }
    let i = find_char(&t, '=');
    if i < t.len() {
        let k0 = slice_chars(&t, 0, i);
        let key = trim_exec(&k0);
        let v0 = slice_chars(&t, i + 1, t.len());
        let val = trim_exec(&v0);
        let u1 = trim_char_exec(&val, '"');
        let unq = trim_char_exec(&u1, '\'');
        match cur {
            Some(cat) => {
                set_field_exec(cat, &key, &val, &unq);
            },
            None => {
                if eq_lit(&key, "name") {
                    cfg.profile = string_of(&unq);
                } else if eq_lit(&key, "fallback_dir") {
                    cfg.fallback_dir = string_of(&unq);
                }
            },
        }
    }
}

/// Parses the taxonomy TOML subset: a `[profile]` block with `name` and
/// `fallback_dir`, then `[[category]]` blocks with `id`, `label`, `dir`, `risk`
/// and the arrays `keywords` and `extensions`. Unknown keys, comments and
/// malformed lines are skipped; the profile defaults to the built-in names.
pub fn parse_taxonomy_toml(content: &str) -> (config: TaxonomyConfig)
    ensures
        config@ == parse_taxonomy(content@),
{
    let chars = chars_of(content);
    let lines = split_exec(&chars, '\n');
    let mut cfg = TaxonomyConfig {
        profile: string_of(&chars_of("kryonix-home-taxonomy-v1")),
        fallback_dir: string_of(&chars_of("Documentos/00_Inbox/Revisar")),
        categories: Vec::new(),
    };
    let mut cur: Option<CategoryConfig> = None;
    assert(cats(cfg.categories@) == Seq::<CategorySpec>::empty());
    let ghost ls = split_char(content@, '\n');
    assert(lines@.subrange(0, 0) =~= Seq::<Vec<char>>::empty());
    let mut i: usize = 0;
    while i < lines.len()
        invariant
            i <= lines.len(),
            vviews(lines@) == ls,
            ls == split_char(content@, '\n'),
            (ParseState { cfg: cfg@, cur: opt_cat(cur) }) == parse_lines(ls.subrange(0, i as int)),
        decreases lines.len() - i,
    {
        assert(ls.subrange(0, i + 1).drop_last() == ls.subrange(0, i as int));
        assert(ls.subrange(0, i + 1).last() == lines@[i as int]@);
        parse_line_exec(&mut cfg, &mut cur, &lines[i]);
        i += 1;
    }
    assert(ls.subrange(0, lines.len() as int) == ls);
    flush_exec(&mut cfg, &mut cur);
    cfg
}

/// The built-in taxonomy, used when no configuration file is found.
pub fn default_taxonomy_config() -> (config: TaxonomyConfig)
    ensures
        config@ == parse_taxonomy(DEFAULT_TAXONOMY_TOML@),
{
    parse_taxonomy_toml(DEFAULT_TAXONOMY_TOML)
}


// ---------------------------------------------------------------------------
// Keyword scoring, as a specification (scores are in hundredths)
// ---------------------------------------------------------------------------

/// The category suggested for a file.
#[derive(Debug)]
pub struct TaxonomyCategory {
    pub id: String,
    pub label: String,
    pub relative_dir: String,
    /// Confidence in basis points (0..=10000).
    pub confidence_bp: u32,
    pub risk: String,
    pub needs_review: bool,
    pub reason: String,
    pub rules_applied: Vec<String>,
    pub matched_keywords: Vec<String>,
    pub candidate_categories: Option<Vec<String>>,
    pub already_organized: bool,
}

/// Mathematical model of a suggested category.
pub struct SuggestionSpec {
    pub id: Seq<char>,
    pub label: Seq<char>,
    pub relative_dir: Seq<char>,
    pub confidence_bp: int,
    pub risk: Seq<char>,
    pub needs_review: bool,
    pub reason: Seq<char>,
    pub rules_applied: Seq<Seq<char>>,
    pub matched_keywords: Seq<Seq<char>>,
    pub candidate_categories: Option<Seq<Seq<char>>>,
    pub already_organized: bool,
}

impl View for TaxonomyCategory {
    type V = SuggestionSpec;

    open spec fn view(&self) -> SuggestionSpec {
        SuggestionSpec {
            id: self.id@,
            label: self.label@,
            relative_dir: self.relative_dir@,
            confidence_bp: self.confidence_bp as int,
            risk: self.risk@,
            needs_review: self.needs_review,
            reason: self.reason@,
            rules_applied: strs(self.rules_applied@),
            matched_keywords: strs(self.matched_keywords@),
            candidate_categories: opt_strs(self.candidate_categories),
            already_organized: self.already_organized,
        }
    }
}

/// What the scoring reads of a file: its lowercased name and extension, and its kind.
pub struct FileTraits {
    pub name: Seq<char>,
    pub ext: Seq<char>,
    pub image: bool,
    pub video: bool,
    pub audio: bool,
}

pub open spec fn is_image_kind(mime: Seq<char>, ext: Seq<char>) -> bool {
    starts(mime, "image/"@) || ext == "jpg"@ || ext == "jpeg"@ || ext == "png"@ || ext == "gif"@
        || ext == "webp"@
}

pub open spec fn is_video_kind(mime: Seq<char>, ext: Seq<char>) -> bool {
    starts(mime, "video/"@) || ext == "mp4"@ || ext == "mkv"@ || ext == "avi"@ || ext == "mov"@
        || ext == "webm"@
}

pub open spec fn is_audio_kind(mime: Seq<char>, ext: Seq<char>) -> bool {
    starts(mime, "audio/"@) || ext == "mp3"@ || ext == "flac"@ || ext == "ogg"@ || ext == "wav"@
}

/// The traits of a file with the given name, extension and MIME type.
pub open spec fn file_traits(filename: Seq<char>, extension: Seq<char>, mime: Seq<char>) -> FileTraits {
    let ext = lowercase(extension);
    FileTraits {
        name: lowercase(filename),
        ext: ext,
        image: is_image_kind(mime, ext),
        video: is_video_kind(mime, ext),
        audio: is_audio_kind(mime, ext),
    }
}

/// A category takes part in the scoring of the file.
pub open spec fn eligible(d: CategorySpec, f: FileTraits) -> bool {
    &&& !(starts(d.dir, "Imagens/"@) && !f.image)
    &&& !(starts(d.dir, "Vídeos/"@) && !f.video)
    &&& !(starts(d.dir, "Músicas/"@) && !f.audio)
    &&& match d.extensions {
        Some(exts) => exts.contains(f.ext),
        None => true,
    }
}

/// The keywords of `kws` whose lowercase occurs in `name` at the start of a
/// word, in order.
pub open spec fn matched_kws(kws: Seq<Seq<char>>, name: Seq<char>) -> Seq<Seq<char>>
    decreases kws.len(),
{
    if kws.len() == 0 {
        Seq::empty()
    } else if has_word(name, lowercase(kws.last())) {
        matched_kws(kws.drop_last(), name).push(kws.last())
    } else {
        matched_kws(kws.drop_last(), name)
    }
}

/// Score of a category for a file, in hundredths: 50 per matched keyword,
/// minus 15 for a document folder when the file is media, plus 60 for the
/// screenshot category on an image whose name begins with `screenshot`.
pub open spec fn category_score(d: CategorySpec, f: FileTraits) -> int {
    let base = 50 * matched_kws(d.keywords, f.name).len();
    let penalty = if starts(d.dir, "Documentos/"@) && (f.image || f.video || f.audio) { 15int } else { 0int };
    let boost = if d.id == "imagens.screenshots"@ && f.image && starts(f.name, "screenshot"@) { 60int } else { 0int };
    base - penalty + boost
}

/// The running best of the scoring: best score, the indices tied at it, and
/// the keywords matched by the first category that reached it.
pub struct Pick {
    pub best: int,
    pub cands: Seq<int>,
    pub matches: Seq<Seq<char>>,
}

/// The best pick among the first `n` categories.
pub open spec fn pick(ds: Seq<CategorySpec>, f: FileTraits, n: nat) -> Pick
    decreases n,
{
    if n == 0 {
        Pick { best: 0, cands: Seq::empty(), matches: Seq::empty() }
    } else {
        let p = pick(ds, f, (n - 1) as nat);
        let d = ds[n - 1];
        if !eligible(d, f) {
            p
        } else {
            let s = category_score(d, f);
            if s > 0 && s == p.best {
                Pick { cands: p.cands.push(n - 1), ..p }
            } else if s > 0 && s > p.best {
                Pick { best: s, cands: seq![n - 1], matches: matched_kws(d.keywords, f.name) }
            } else {
                p
            }
        }
    }
}

pub open spec fn clamp_pct(s: int) -> int {
    if s < 0 { 0 } else if s > 100 { 100 } else { s }
}

/// The ids of the categories at the given indices.
pub open spec fn ids_at(ds: Seq<CategorySpec>, idx: Seq<int>) -> Seq<Seq<char>> {
    idx.map_values(|i: int| ds[i].id)
}

/// A file extension whose classification always goes to human review.
pub open spec fn restricted_format(f: FileTraits) -> bool {
    f.ext == "pdf"@ || f.ext == "docx"@ || f.ext == "doc"@ || f.ext == "xlsx"@ || f.ext == "xls"@
        || f.image || f.video || f.audio || f.ext.len() == 0
}

/// The suggestion for a file with traits `f` under the rules `cfg`.
pub open spec fn suggest(f: FileTraits, cfg: TaxonomySpec) -> SuggestionSpec {
    let ds = cfg.categories;
    let p = pick(ds, f, ds.len());
    if p.cands.len() > 1 {
        SuggestionSpec {
            id: "inbox.conflicts"@,
            label: "Conflito de Categorias"@,
            relative_dir: "Documentos/00_Inbox/Conflitos"@,
            confidence_bp: clamp_pct(p.best) * 100,
            risk: "medium"@,
            needs_review: true,
            reason: "Empate de pontuação ("@ + hundredths_str(p.best as nat)
                + ") entre múltiplas categorias: "@ + join(ids_at(ds, p.cands), ", "@),
            rules_applied: seq!["taxonomy_tie_breaking"@],
            matched_keywords: p.matches,
            candidate_categories: Some(ids_at(ds, p.cands)),
            already_organized: false,
        }
    } else if p.cands.len() == 1 && p.best >= 45 {
        let d = ds[p.cands[0]];
        let needs_review = restricted_format(f) || p.best < 75;
        SuggestionSpec {
            id: d.id,
            label: d.label,
            relative_dir: d.dir,
            confidence_bp: clamp_pct(p.best) * 100,
            risk: if f.ext.len() == 0 { "high"@ } else if needs_review { "medium"@ } else { "low"@ },
            needs_review: needs_review,
            reason: "Classificado por palavras-chave: "@ + join(p.matches, ", "@),
            rules_applied: seq!["taxonomy_keyword_match"@],
            matched_keywords: p.matches,
            candidate_categories: None,
            already_organized: false,
        }
    } else if p.cands.len() == 1 {
        let d = ds[p.cands[0]];
        SuggestionSpec {
            id: "inbox.low_confidence"@,
            label: "Inbox / Baixa Confiança"@,
            relative_dir: "Documentos/00_Inbox/Baixa_Confianca"@,
            confidence_bp: clamp_pct(p.best) * 100,
            risk: "medium"@,
            needs_review: true,
            reason: "Match com score muito baixo ("@ + hundredths_str(p.best as nat)
                + ") para categoria '"@ + d.label + "'"@,
            rules_applied: seq!["taxonomy_low_confidence"@],
            matched_keywords: p.matches,
            candidate_categories: None,
            already_organized: false,
        }
    } else {
        SuggestionSpec {
            id: "fallback.revisar"@,
            label: if f.image { "Revisão de Imagens"@ } else if f.video { "Revisão de Vídeos"@ }
                else if f.audio { "Revisão de Músicas"@ } else { "Inbox / Revisão Geral"@ },
            relative_dir: if f.image { "Imagens/Revisar"@ } else if f.video { "Vídeos/Revisar"@ }
                else if f.audio { "Músicas/Revisar"@ } else { cfg.fallback_dir },
            confidence_bp: 2000,
            risk: if f.ext.len() == 0 { "high"@ } else { "medium"@ },
            needs_review: true,
            reason: "Nenhuma palavra-chave correspondente encontrada"@,
            rules_applied: seq!["taxonomy_fallback"@],
            matched_keywords: Seq::empty(),
            candidate_categories: None,
            already_organized: false,
        }
    }
}


/// A suggestion goes without human review only when exactly one category
/// matched, with a score of at least 0.75, and the file is light text (not a
/// PDF, office document, media or extensionless file); ties always go to the
/// conflicts folder.
pub proof fn lemma_review_bands(f: FileTraits, cfg: TaxonomySpec)
    ensures
        !suggest(f, cfg).needs_review ==> {
            let p = pick(cfg.categories, f, cfg.categories.len());
            p.cands.len() == 1 && p.best >= 75 && !restricted_format(f)
        },
        pick(cfg.categories, f, cfg.categories.len()).cands.len() > 1 ==> suggest(f, cfg).relative_dir
            == "Documentos/00_Inbox/Conflitos"@,
{
}

/// Category `i` takes part in the scoring and scores above zero.
pub open spec fn scores(ds: Seq<CategorySpec>, f: FileTraits, i: int) -> bool {
    eligible(ds[i], f) && category_score(ds[i], f) > 0
}

/// Category `i` scores above zero and no category among the first `n` scores more.
pub open spec fn top_among(ds: Seq<CategorySpec>, f: FileTraits, n: int, i: int) -> bool {
    &&& 0 <= i < n
    &&& scores(ds, f, i)
    &&& forall|k: int| 0 <= k < n && scores(ds, f, k) ==> category_score(ds[k], f) <= category_score(ds[i], f)
}

/// The pick over the first `n` categories holds, in increasing order, exactly
/// the categories of top score, and its best score is theirs (zero when no
/// category scores).
#[verifier::rlimit(30)]
pub proof fn lemma_pick_tops(ds: Seq<CategorySpec>, f: FileTraits, n: nat)
    requires
        n <= ds.len(),
    ensures
        ({
            let p = pick(ds, f, n);
            &&& p.best >= 0
            &&& (p.cands.len() == 0 ==> p.best == 0)
            &&& (p.cands.len() > 0 ==> p.best > 0)
            &&& (p.cands.len() == 0 <==> forall|k: int| 0 <= k < n ==> !scores(ds, f, k))
            &&& forall|k: int| 0 <= k < p.cands.len() ==> #[trigger] top_among(ds, f, n as int, p.cands[k])
                && category_score(ds[p.cands[k]], f) == p.best
            &&& forall|i: int| #[trigger] top_among(ds, f, n as int, i) ==> p.cands.contains(i)
            &&& forall|a: int, b: int| 0 <= a < b < p.cands.len() ==> p.cands[a] < p.cands[b]
            &&& forall|k: int| 0 <= k < n && scores(ds, f, k) ==> category_score(ds[k], f) <= p.best
        }),
    decreases n,
{
    if n > 0 {
        let m = n - 1;
        lemma_pick_tops(ds, f, m as nat);
        assert((m as nat) as int == m);
        let p0 = pick(ds, f, m as nat);
        let p = pick(ds, f, n);
        let sm = category_score(ds[m], f);
        let sc = scores(ds, f, m);
        assert forall|k: int| 0 <= k < p0.cands.len() implies #[trigger] top_among(ds, f, m, p0.cands[k])
            && category_score(ds[p0.cands[k]], f) == p0.best by {}
        if sc && sm == p0.best {
            assert(p.cands == p0.cands.push(m));
            assert(p0.cands.len() > 0);
            assert forall|k: int| 0 <= k < p.cands.len() implies #[trigger] top_among(ds, f, n as int, p.cands[k])
                && category_score(ds[p.cands[k]], f) == p.best by {
                if k < p0.cands.len() {
                    assert(p.cands[k] == p0.cands[k]);
                    assert(top_among(ds, f, m, p0.cands[k]));
                } else {
                    assert(p.cands[k] == m);
                }
            }
            assert forall|i: int| #[trigger] top_among(ds, f, n as int, i) implies p.cands.contains(i) by {
                if i < m {
                    assert(top_among(ds, f, m, i));
                    let k = choose|k: int| 0 <= k < p0.cands.len() && p0.cands[k] == i;
                    assert(p.cands[k] == i);
                } else {
                    assert(p.cands[p0.cands.len() as int] == i);
                }
            }
            assert forall|a: int, b: int| 0 <= a < b < p.cands.len() implies p.cands[a] < p.cands[b] by {
                assert(p.cands[a] == p0.cands[a]);
                assert(top_among(ds, f, m, p0.cands[a]));
                if b < p0.cands.len() {
                    assert(p.cands[b] == p0.cands[b]);
                }
            }
        } else if sc && sm > p0.best {
            assert(p.cands == seq![m]);
            assert(top_among(ds, f, n as int, m));
            assert forall|i: int| #[trigger] top_among(ds, f, n as int, i) implies p.cands.contains(i) by {
                if i < m {
                    assert(category_score(ds[m], f) <= category_score(ds[i], f));
                    assert(category_score(ds[i], f) <= p0.best);
                    assert(false);
                }
                assert(p.cands[0] == i);
            }
        } else {
            assert(p == p0);
            if sc {
                assert(sm < p0.best);
                assert(p0.cands.len() > 0);
                assert(top_among(ds, f, m, p0.cands[0]));
            }
            assert forall|k: int| 0 <= k < p.cands.len() implies #[trigger] top_among(ds, f, n as int, p.cands[k])
                && category_score(ds[p.cands[k]], f) == p.best by {
                assert(top_among(ds, f, m, p0.cands[k]));
            }
            assert forall|i: int| #[trigger] top_among(ds, f, n as int, i) implies p.cands.contains(i) by {
                if i < m {
                    assert(top_among(ds, f, m, i));
                } else {
                    assert(sc);
                    assert(top_among(ds, f, m, p0.cands[0]));
                    assert(category_score(ds[p0.cands[0]], f) <= category_score(ds[m], f));
                    assert(false);
                }
            }
        }
    }
}

/// Ties: the suggestion is the conflicts inbox exactly when two or more
/// categories share the top score; it then lists them all, in configuration
/// order, needs review and carries the top score as its confidence.
pub proof fn lemma_tie_law(f: FileTraits, cfg: TaxonomySpec)
    requires
        forall|k: int| 0 <= k < cfg.categories.len() ==> #[trigger] cfg.categories[k].id != "inbox.conflicts"@,
    ensures
        ({
            let ds = cfg.categories;
            let n = ds.len() as int;
            let p = pick(ds, f, ds.len());
            let r = suggest(f, cfg);
            &&& (r.id == "inbox.conflicts"@ <==> exists|a: int, b: int| a < b && #[trigger] top_among(ds, f, n, a)
                && #[trigger] top_among(ds, f, n, b))
            &&& (r.id == "inbox.conflicts"@ ==> {
                &&& r.candidate_categories == Some(ids_at(ds, p.cands))
                &&& r.relative_dir == "Documentos/00_Inbox/Conflitos"@
                &&& r.needs_review
                &&& r.confidence_bp == clamp_pct(p.best) * 100
                &&& forall|k: int| 0 <= k < p.cands.len() ==> #[trigger] top_among(ds, f, n, p.cands[k])
                &&& forall|i: int| #[trigger] top_among(ds, f, n, i) ==> p.cands.contains(i)
                &&& forall|a: int, b: int| 0 <= a < b < p.cands.len() ==> p.cands[a] < p.cands[b]
            })
        }),
{
    let ds = cfg.categories;
    let n = ds.len() as int;
    let p = pick(ds, f, ds.len());
    lemma_pick_tops(ds, f, ds.len());
    reveal_strlit("inbox.conflicts");
    reveal_strlit("inbox.low_confidence");
    reveal_strlit("fallback.revisar");
    assert("inbox.conflicts"@.len() == 15 && "inbox.low_confidence"@.len() == 20 && "fallback.revisar"@.len() == 16);
    if p.cands.len() > 1 {
        assert(top_among(ds, f, n, p.cands[0]) && top_among(ds, f, n, p.cands[1]));
        assert(p.cands[0] < p.cands[1]);
    } else {
        if exists|a: int, b: int| a < b && #[trigger] top_among(ds, f, n, a) && #[trigger] top_among(ds, f, n, b) {
            let (a, b) = choose|a: int, b: int| a < b && #[trigger] top_among(ds, f, n, a) && #[trigger] top_among(ds, f, n, b);
            assert(p.cands.contains(a) && p.cands.contains(b));
            let ka = choose|k: int| 0 <= k < p.cands.len() && p.cands[k] == a;
            let kb = choose|k: int| 0 <= k < p.cands.len() && p.cands[k] == b;
            assert(ka == 0 && kb == 0);
            assert(false);
        }
        if p.cands.len() == 1 {
            assert(top_among(ds, f, n, p.cands[0]));
            assert(ds[p.cands[0]].id != "inbox.conflicts"@);
        }
    }
}

/// A single top category: from a score of 0.45 it is the suggestion, under
/// review for heavy or media formats or a score under 0.75, with the risk that
/// follows; under 0.45 the suggestion is the low-confidence inbox. With no
/// category scoring, the suggestion is the fallback at 0.20, under review.
pub proof fn lemma_single_winner_bands(f: FileTraits, cfg: TaxonomySpec)
    ensures
        ({
            let ds = cfg.categories;
            let n = ds.len() as int;
            let p = pick(ds, f, ds.len());
            let r = suggest(f, cfg);
            &&& forall|w: int| #[trigger] top_among(ds, f, n, w) && (forall|i: int| #[trigger] top_among(ds, f, n, i) ==> i == w) ==> {
                let s = category_score(ds[w], f);
                &&& (s >= 45 ==> {
                    &&& r.id == ds[w].id
                    &&& r.relative_dir == ds[w].dir
                    &&& r.needs_review == (restricted_format(f) || s < 75)
                    &&& r.risk == (if f.ext.len() == 0 { "high"@ } else if r.needs_review { "medium"@ } else { "low"@ })
                    &&& r.confidence_bp == clamp_pct(s) * 100
                })
                &&& (s < 45 ==> r.id == "inbox.low_confidence"@ && r.needs_review)
            }
            &&& (forall|k: int| 0 <= k < n ==> !scores(ds, f, k)) ==> {
                &&& r.id == "fallback.revisar"@
                &&& r.confidence_bp == 2000
                &&& r.needs_review
                &&& r.relative_dir == (if f.image { "Imagens/Revisar"@ } else if f.video { "Vídeos/Revisar"@ }
                    else if f.audio { "Músicas/Revisar"@ } else { cfg.fallback_dir })
            }
        }),
{
    let ds = cfg.categories;
    let n = ds.len() as int;
    let p = pick(ds, f, ds.len());
    lemma_pick_tops(ds, f, ds.len());
    assert forall|w: int| #[trigger] top_among(ds, f, n, w) && (forall|i: int| #[trigger] top_among(ds, f, n, i) ==> i == w) implies {
        let s = category_score(ds[w], f);
        let r = suggest(f, cfg);
        &&& (s >= 45 ==> {
            &&& r.id == ds[w].id
            &&& r.relative_dir == ds[w].dir
            &&& r.needs_review == (restricted_format(f) || s < 75)
            &&& r.risk == (if f.ext.len() == 0 { "high"@ } else if r.needs_review { "medium"@ } else { "low"@ })
            &&& r.confidence_bp == clamp_pct(s) * 100
        })
        &&& (s < 45 ==> r.id == "inbox.low_confidence"@ && r.needs_review)
    } by {
        assert(p.cands.contains(w));
        let k = choose|k: int| 0 <= k < p.cands.len() && p.cands[k] == w;
        if p.cands.len() > 1 {
            let k2 = if k == 0 { 1int } else { 0int };
            assert(top_among(ds, f, n, p.cands[k2]));
            assert(p.cands[k2] != w);
        }
        assert(p.cands.len() == 1);
        assert(p.cands[0] == w);
    }
}

// ---------------------------------------------------------------------------
// Keyword scoring, executable
// ---------------------------------------------------------------------------

/// `v` holds an item equal to `x`.
pub fn strs_contains(v: &Vec<String>, x: &Vec<char>) -> (r: bool)
    ensures
        r == strs(v@).contains(x@),
{
    let mut i: usize = 0;
    while i < v.len()
        invariant
            i <= v.len(),
            forall|j: int| 0 <= j < i ==> strs(v@)[j] != x@,
        decreases v.len() - i,
    {
        let c = chars_of(v[i].as_str());
        if seq_eq(&c, x) {
            assert(strs(v@)[i as int] == x@);
            return true;
        }
        i += 1;
    }
    false
}

/// Copy of a vector of strings.
pub fn copy_strings(v: &Vec<String>) -> (r: Vec<String>)
    ensures
        r@ == v@,
{
    let mut out: Vec<String> = Vec::new();
    let mut i: usize = 0;
    while i < v.len()
        invariant
            i <= v.len(),
            out@ == v@.subrange(0, i as int),
        decreases v.len() - i,
    {
        out.push(v[i].clone());
        i += 1;
    }
    assert(v@.subrange(0, v.len() as int) == v@);
    out
}

/// The keywords of `kws` whose lowercase occurs in `name` at the start of a word.
fn match_keywords(kws: &Vec<String>, name: &Vec<char>) -> (r: Vec<String>)
    ensures
        strs(r@) == matched_kws(strs(kws@), name@),
        r@.len() <= kws@.len(),
{
    let mut out: Vec<String> = Vec::new();
    let mut i: usize = 0;
    while i < kws.len()
        invariant
            i <= kws.len(),
            strs(out@) == matched_kws(strs(kws@).subrange(0, i as int), name@),
            out@.len() <= i,
        decreases kws.len() - i,
    {
        let ghost pre = strs(kws@).subrange(0, i as int);
        let ghost nxt = strs(kws@).subrange(0, i + 1);
        assert(nxt.drop_last() == pre);
        assert(nxt.last() == kws@[i as int]@);
        let kl = lower_chars(kws[i].as_str());
        if crate::text::contains_word(name, &kl) {
            let ghost before = strs(out@);
            out.push(kws[i].clone());
            assert(strs(out@) == before.push(kws@[i as int]@));
        }
        i += 1;
    }
    assert(strs(kws@).subrange(0, kws.len() as int) == strs(kws@));
    out
}

fn is_eligible(d: &CategoryConfig, img: bool, vid: bool, aud: bool, el: &Vec<char>) -> (r: bool)
    ensures
        r == eligible(d@, FileTraits { name: Seq::empty(), ext: el@, image: img, video: vid, audio: aud }),
{
    let dir = chars_of(d.dir.as_str());
    if starts_lit(&dir, "Imagens/") && !img {
        return false;
    }
    if starts_lit(&dir, "Vídeos/") && !vid {
        return false;
    }
    if starts_lit(&dir, "Músicas/") && !aud {
        return false;
    }
    match &d.extensions {
        Some(exts) => strs_contains(exts, el),
        None => true,
    }
}

proof fn lemma_eligible_name(d: CategorySpec, f: FileTraits)
    ensures
        eligible(d, f) == eligible(d, FileTraits { name: Seq::empty(), ..f }),
{
}

pub open spec fn idx_view(v: Seq<usize>) -> Seq<int> {
    v.map_values(|x: usize| x as int)
}

/// Suggests a destination category for `file` under the rules of `config`:
/// the eligible category with the highest keyword score wins; a tie at the
/// best score goes to the conflicts inbox, a best score under 0.45 to the
/// low-confidence inbox, and no positive score to the fallback for the file's kind.
pub fn suggest_category_config(file: &crate::metadata::FileMetadata, config: &TaxonomyConfig) -> (cat: TaxonomyCategory)
    ensures
        cat@ == suggest(file_traits(file.filename@, file.extension@, file.mime@), config@),
{
    let bl = lower_chars(file.filename.as_str());
    let el = lower_chars(file.extension.as_str());
    let mime = chars_of(file.mime.as_str());
    let img = starts_lit(&mime, "image/") || eq_lit(&el, "jpg") || eq_lit(&el, "jpeg") || eq_lit(&el, "png")
        || eq_lit(&el, "gif") || eq_lit(&el, "webp");
    let vid = starts_lit(&mime, "video/") || eq_lit(&el, "mp4") || eq_lit(&el, "mkv") || eq_lit(&el, "avi")
        || eq_lit(&el, "mov") || eq_lit(&el, "webm");
    let aud = starts_lit(&mime, "audio/") || eq_lit(&el, "mp3") || eq_lit(&el, "flac") || eq_lit(&el, "ogg")
        || eq_lit(&el, "wav");
    let ghost f = file_traits(file.filename@, file.extension@, file.mime@);
    assert(f.name == bl@ && f.ext == el@ && f.image == img && f.video == vid && f.audio == aud);
    let ghost ds = config@.categories;

    let mut best: i128 = 0;
    let mut cands: Vec<usize> = Vec::new();
    let mut matches: Vec<String> = Vec::new();
    let mut i: usize = 0;
    assert(idx_view(cands@) == Seq::<int>::empty());
    assert(strs(matches@) == Seq::<Seq<char>>::empty());
    while i < config.categories.len()
        invariant
            i <= config.categories.len(),
            ds == config@.categories,
            ds.len() == config.categories@.len(),
            f == file_traits(file.filename@, file.extension@, file.mime@),
            f.name == bl@ && f.ext == el@ && f.image == img && f.video == vid && f.audio == aud,
            pick(ds, f, i as nat) == (Pick { best: best as int, cands: idx_view(cands@), matches: strs(matches@) }),
            0 <= best <= 50 * (usize::MAX as int) + 60,
            forall|j: int| 0 <= j < cands@.len() ==> cands@[j] < i,
        decreases config.categories.len() - i,
    {
        let d = &config.categories[i];
        assert(ds[i as int] == d@);
        proof {
            lemma_eligible_name(d@, f);
        }
        if is_eligible(d, img, vid, aud, &el) {
            let dir = chars_of(d.dir.as_str());
            let matched = match_keywords(&d.keywords, &bl);
            let n = matched.len() as i128;
            let mut score: i128 = 50 * n;
            if starts_lit(&dir, "Documentos/") && (img || vid || aud) {
                score = score - 15;
            }
            let idc = chars_of(d.id.as_str());
            if eq_lit(&idc, "imagens.screenshots") && img && starts_lit(&bl, "screenshot") {
                score = score + 60;
            }
            assert(score == category_score(d@, f));
            if score > 0 && score == best {
                let ghost before = idx_view(cands@);
                cands.push(i);
                assert(idx_view(cands@) == before.push(i as int));
            } else if score > 0 && score > best {
                best = score;
                cands = Vec::new();
                cands.push(i);
                assert(idx_view(cands@) == seq![i as int]);
                matches = matched;
            }
        }
        i += 1;
    }
    assert(pick(ds, f, ds.len()) == (Pick { best: best as int, cands: idx_view(cands@), matches: strs(matches@) }));

    if cands.len() > 1 {
        let mut ids: Vec<String> = Vec::new();
        let mut k: usize = 0;
        while k < cands.len()
            invariant
                k <= cands.len(),
                ds == config@.categories,
                ds.len() == config.categories@.len(),
                forall|j: int| 0 <= j < cands@.len() ==> cands@[j] < config.categories@.len(),
                strs(ids@) == ids_at(ds, idx_view(cands@)).subrange(0, k as int),
            decreases cands.len() - k,
        {
            let ghost before = strs(ids@);
            ids.push(config.categories[cands[k]].id.clone());
            assert(strs(ids@) == before.push(ds[cands@[k as int] as int].id));
            assert(ids_at(ds, idx_view(cands@)).subrange(0, k + 1) == ids_at(ds, idx_view(cands@)).subrange(0, k as int).push(ds[cands@[k as int] as int].id));
            k += 1;
        }
        assert(ids_at(ds, idx_view(cands@)).subrange(0, cands.len() as int) == ids_at(ds, idx_view(cands@)));
        let mut reason: Vec<char> = chars_of("Empate de pontuação (");
        let hs = hundredths_chars(best as u128);
        append(&mut reason, &hs);
        append_lit(&mut reason, ") entre múltiplas categorias: ");
        let joined = join_exec(&ids, ", ");
        append(&mut reason, &joined);
        let mut rules: Vec<String> = Vec::new();
        rules.push(string_of(&chars_of("taxonomy_tie_breaking")));
        let conf: u32 = if best > 100 { 10000 } else { (best as u32) * 100 };
        let ids2 = copy_strings(&ids);
        let cat = TaxonomyCategory {
            id: string_of(&chars_of("inbox.conflicts")),
            label: string_of(&chars_of("Conflito de Categorias")),
            relative_dir: string_of(&chars_of("Documentos/00_Inbox/Conflitos")),
            confidence_bp: conf,
            risk: string_of(&chars_of("medium")),
            needs_review: true,
            reason: string_of(&reason),
            rules_applied: rules,
            matched_keywords: matches,
            candidate_categories: Some(ids2),
            already_organized: false,
        };
        assert(strs(cat.rules_applied@) == seq!["taxonomy_tie_breaking"@]);
        return cat;
    }
    if cands.len() == 1 {
        let d = &config.categories[cands[0]];
        assert(d@ == ds[idx_view(cands@)[0]]);
        let conf: u32 = if best > 100 { 10000 } else { (best as u32) * 100 };
        if best >= 45 {
            let restricted = eq_lit(&el, "pdf") || eq_lit(&el, "docx") || eq_lit(&el, "doc") || eq_lit(&el, "xlsx")
                || eq_lit(&el, "xls") || img || vid || aud || el.len() == 0;
            let needs_review = if restricted { true } else { best < 75 };
            let risk = if el.len() == 0 { chars_of("high") } else if needs_review { chars_of("medium") } else { chars_of("low") };
            let mut reason: Vec<char> = chars_of("Classificado por palavras-chave: ");
            let joined = join_exec(&matches, ", ");
            append(&mut reason, &joined);
            let mut rules: Vec<String> = Vec::new();
            rules.push(string_of(&chars_of("taxonomy_keyword_match")));
            let cat = TaxonomyCategory {
                id: d.id.clone(),
                label: d.label.clone(),
                relative_dir: d.dir.clone(),
                confidence_bp: conf,
                risk: string_of(&risk),
                needs_review,
                reason: string_of(&reason),
                rules_applied: rules,
                matched_keywords: matches,
                candidate_categories: None,
                already_organized: false,
            };
            assert(strs(cat.rules_applied@) == seq!["taxonomy_keyword_match"@]);
            return cat;
        }
        let mut reason: Vec<char> = chars_of("Match com score muito baixo (");
        let hs = hundredths_chars(best as u128);
        append(&mut reason, &hs);
        append_lit(&mut reason, ") para categoria '");
        append_str(&mut reason, &d.label);
        append_lit(&mut reason, "'");
        let mut rules: Vec<String> = Vec::new();
        rules.push(string_of(&chars_of("taxonomy_low_confidence")));
        let cat = TaxonomyCategory {
            id: string_of(&chars_of("inbox.low_confidence")),
            label: string_of(&chars_of("Inbox / Baixa Confiança")),
            relative_dir: string_of(&chars_of("Documentos/00_Inbox/Baixa_Confianca")),
            confidence_bp: conf,
            risk: string_of(&chars_of("medium")),
            needs_review: true,
            reason: string_of(&reason),
            rules_applied: rules,
            matched_keywords: matches,
            candidate_categories: None,
            already_organized: false,
        };
        assert(strs(cat.rules_applied@) == seq!["taxonomy_low_confidence"@]);
        return cat;
    }
    let (dir, label) = if img {
        (string_of(&chars_of("Imagens/Revisar")), "Revisão de Imagens")
    } else if vid {
        (string_of(&chars_of("Vídeos/Revisar")), "Revisão de Vídeos")
    } else if aud {
        (string_of(&chars_of("Músicas/Revisar")), "Revisão de Músicas")
    } else {
        (config.fallback_dir.clone(), "Inbox / Revisão Geral")
    };
    let risk = if el.len() == 0 { "high" } else { "medium" };
    let mut rules: Vec<String> = Vec::new();
    rules.push(string_of(&chars_of("taxonomy_fallback")));
    let cat = TaxonomyCategory {
        id: string_of(&chars_of("fallback.revisar")),
        label: string_of(&chars_of(label)),
        relative_dir: dir,
        confidence_bp: 2000,
        risk: string_of(&chars_of(risk)),
        needs_review: true,
        reason: string_of(&chars_of("Nenhuma palavra-chave correspondente encontrada")),
        rules_applied: rules,
        matched_keywords: Vec::new(),
        candidate_categories: None,
        already_organized: false,
    };
    assert(strs(cat.rules_applied@) == seq!["taxonomy_fallback"@]);
    assert(strs(cat.matched_keywords@) == Seq::<Seq<char>>::empty());
    cat
}

pub const DEFAULT_TAXONOMY_TOML: &'static str = r#"
[profile]
name = "kryonix-home-taxonomy-v1"
fallback_dir = "Documentos/00_Inbox/Revisar"

# Administrativo
[[category]]
id = "admin.identificacao"
label = "Identificação"
dir = "Documentos/Administrativo/Identificacao"
keywords = ["rg", "cpf", "cnh", "identidade", "titulo eleitor", "certidao", "nascimento", "casamento"]
extensions = ["pdf", "jpg", "png"]
risk = "medium"

[[category]]
id = "admin.contratos"
label = "Contratos"
dir = "Documentos/Administrativo/Contratos"
keywords = ["contrato", "termo", "acordo", "locacao", "aluguel", "assinatura"]
extensions = ["pdf", "docx", "odt"]
risk = "medium"

[[category]]
id = "admin.comprovantes"
label = "Comprovantes"
dir = "Documentos/Administrativo/Comprovantes"
keywords = ["comprovante", "protocolo", "declaracao", "recibo"]
extensions = ["pdf", "jpg", "png"]
risk = "low"

[[category]]
id = "admin.certificados"
label = "Certificados"
dir = "Documentos/Administrativo/Certificados"
keywords = ["certificado", "certificado digital", "curso", "conclusao", "conclusão", "diploma"]
extensions = ["pdf", "jpg", "png"]
risk = "low"

[[category]]
id = "admin.garantias"
label = "Garantias"
dir = "Documentos/Administrativo/Garantias"
keywords = ["garantia", "garantia estendida", "comprovante garantia", "rma", "serial", "nota garantia"]
extensions = ["pdf", "jpg", "png"]
risk = "low"

# Financeiro
[[category]]
id = "financeiro.bancos"
label = "Bancos"
dir = "Documentos/Financeiro/Bancos"
keywords = ["banco", "pix", "extrato", "conta", "agencia", "transferencia"]
extensions = ["pdf", "csv", "xlsx", "txt"]
risk = "medium"

[[category]]
id = "financeiro.boletos"
label = "Boletos"
dir = "Documentos/Financeiro/Boletos"
keywords = ["boleto", "pagamento", "vencimento"]
extensions = ["pdf"]
risk = "medium"

[[category]]
id = "financeiro.faturas"
label = "Faturas"
dir = "Documentos/Financeiro/Faturas"
keywords = ["fatura", "cartao", "cartão", "nubank", "inter", "mercado pago", "energia", "agua", "água", "internet"]
extensions = ["pdf"]
risk = "medium"

[[category]]
id = "financeiro.notas_fiscais"
label = "Notas Fiscais"
dir = "Documentos/Financeiro/Notas_Fiscais"
keywords = ["nota fiscal", "nf", "nfe", "danfe", "cupom fiscal"]
extensions = ["pdf", "xml"]
risk = "low"

[[category]]
id = "financeiro.impostos"
label = "Impostos"
dir = "Documentos/Financeiro/Impostos"
keywords = ["irpf", "imposto", "receita federal", "darf", "inss"]
extensions = ["pdf", "xml", "txt"]
risk = "medium"

# Trabalho
[[category]]
id = "trabalho.supersoft"
label = "Supersoft"
dir = "Documentos/Trabalho/Supersoft"
keywords = ["supersoft"]
extensions = ["pdf", "docx", "xlsx", "txt"]
risk = "medium"

[[category]]
id = "trabalho.clientes"
label = "Clientes"
dir = "Documentos/Trabalho/Clientes"
keywords = ["cliente", "proposta", "orcamento", "orçamento", "atendimento", "ordem de serviço", "ordem servico"]
extensions = ["pdf", "docx"]
risk = "medium"

[[category]]
id = "trabalho.infraestrutura"
label = "Infraestrutura"
dir = "Documentos/Trabalho/Infraestrutura"
keywords = ["servidor", "backup", "mikrotik", "switch", "roteador", "datacenter"]
extensions = ["pdf", "txt", "conf"]
risk = "medium"

# Estudos
[[category]]
id = "estudos.nixos"
label = "NixOS"
dir = "Documentos/Estudos/NixOS"
keywords = ["nixos", "nix", "flake", "home-manager"]
extensions = ["md", "nix", "txt"]
risk = "low"

[[category]]
id = "estudos.linux"
label = "Linux"
dir = "Documentos/Estudos/Linux"
keywords = ["linux", "kernel", "systemd", "shell", "bash"]
extensions = ["md", "sh", "txt"]
risk = "low"

[[category]]
id = "estudos.redes"
label = "Redes"
dir = "Documentos/Estudos/Redes"
keywords = ["rede", "tcp", "ip", "dns", "dhcp", "vlan", "vpn"]
extensions = ["md", "pdf", "txt"]
risk = "low"

[[category]]
id = "estudos.proxmox"
label = "Proxmox"
dir = "Documentos/Estudos/Proxmox"
keywords = ["proxmox", "pve", "vm", "lxc", "cluster"]
extensions = ["md", "txt"]
risk = "low"

[[category]]
id = "estudos.opnsense"
label = "OPNsense"
dir = "Documentos/Estudos/OPNsense"
keywords = ["opnsense", "wireguard", "pfsense"]
extensions = ["md", "txt"]
risk = "low"

[[category]]
id = "estudos.ia_llm_rag"
label = "IA, LLM e RAG"
dir = "Documentos/Estudos/IA_LLM_RAG"
keywords = ["ia", "llm", "rag", "cag", "graphrag", "ollama", "neo4j", "embedding"]
extensions = ["md", "pdf", "py", "ipynb"]
risk = "low"

[[category]]
id = "estudos.rust"
label = "Rust"
dir = "Documentos/Estudos/Rust"
keywords = ["rust", "cargo", "crate"]
extensions = ["md", "rs", "toml"]
risk = "low"

[[category]]
id = "estudos.python"
label = "Python"
dir = "Documentos/Estudos/Python"
keywords = ["python", "pip", "uv", "venv"]
extensions = ["md", "py", "ipynb"]
risk = "low"

# Projetos
[[category]]
id = "projetos.kryonix"
label = "Kryonix"
dir = "Documentos/Projetos/Kryonix"
keywords = ["kryonix", "brain", "lightrag", "graphrag", "vault"]
extensions = ["md", "nix", "json"]
risk = "low"

# Academico
[[category]]
id = "academico.trabalhos"
label = "Trabalhos"
dir = "Documentos/Academico/Trabalhos"
keywords = ["trabalho", "atividade", "avaliacao", "prova", "exercicio"]
extensions = ["pdf", "docx", "md"]
risk = "low"

[[category]]
id = "academico.artigos"
label = "Artigos"
dir = "Documentos/Academico/Artigos"
keywords = ["artigo", "paper", "pesquisa", "tcc"]
extensions = ["pdf", "md"]
risk = "low"

# Mídia
[[category]]
id = "imagens.screenshots"
label = "Screenshots"
dir = "Imagens/Screenshots"
keywords = ["screenshot", "captura", "print", "screen"]
extensions = ["png", "jpg"]
risk = "low"

[[category]]
id = "imagens.wallpapers"
label = "Wallpapers"
dir = "Imagens/Wallpapers"
keywords = ["wallpaper", "background", "fundo"]
extensions = ["jpg", "jpeg", "png"]
risk = "low"

[[category]]
id = "imagens.digitalizados"
label = "Documentos Digitalizados"
dir = "Imagens/Documentos_Digitalizados"
keywords = ["scan", "scanned", "digitalizado", "documento"]
extensions = ["jpg", "jpeg", "png", "pdf"]
risk = "low"

[[category]]
id = "videos.capturas"
label = "Capturas de Tela (Vídeo)"
dir = "Vídeos/Capturas"
keywords = ["screencast", "gravação", "gravacao", "captura"]
extensions = ["mp4", "webm", "mkv"]
risk = "low"

[[category]]
id = "videos.aulas"
label = "Aulas"
dir = "Vídeos/Aulas"
keywords = ["aula", "curso", "treinamento"]
extensions = ["mp4", "mkv", "avi"]
risk = "low"
# Projetos
[[category]]
id = "projetos.kryonix"
label = "Kryonix Ecosystem"
dir = "Documentos/Projetos/Kryonix"
keywords = ["kryonix", "home-brain", "caelestia"]

[[category]]
id = "projetos.ragos"
label = "RAGOS Framework"
dir = "Documentos/Projetos/RAGOS"
keywords = ["ragos", "rag", "rag-os"]

[[category]]
id = "projetos.nixos"
label = "NixOS & Flakes"
dir = "Documentos/Projetos/NixOS"
keywords = ["nixos", "flake", "home-manager"]

[[category]]
id = "projetos.ia"
label = "IA & Machine Learning"
dir = "Documentos/Projetos/IA"
keywords = ["ia", "ai", "llm", "training", "datasets"]

[[category]]
id = "projetos.infra"
label = "Infraestrutura & Lab"
dir = "Documentos/Projetos/Infra"
keywords = ["proxmox", "server", "network", "opnsense"]

[[category]]
id = "projetos.windows"
label = "Windows & Legacy"
dir = "Documentos/Projetos/Windows"
keywords = ["windows", "ativador", "office"]

[[category]]
id = "projetos.sandbox"
label = "Projetos Sandbox"
dir = "Documentos/Projetos/Sandbox"
keywords = []
"#;

/// Media folders take only their media: a category whose folder is under
/// `Imagens/` is never eligible for a file that is not an image, one under
/// `Vídeos/` for a non-video, one under `Músicas/` for a non-audio file.
pub proof fn lemma_media_folders_need_media(d: CategorySpec, f: FileTraits)
    ensures
        starts(d.dir, "Imagens/"@) && !f.image ==> !eligible(d, f),
        starts(d.dir, "Vídeos/"@) && !f.video ==> !eligible(d, f),
        starts(d.dir, "Músicas/"@) && !f.audio ==> !eligible(d, f),
{
}

/// For a file that is not an image, no category under `Imagens/` scores or is
/// a candidate, and the suggestion never sends it under `Imagens/` unless the
/// configured fallback folder is there.
pub proof fn lemma_no_image_folder_for_non_images(f: FileTraits, cfg: TaxonomySpec)
    requires
        !f.image,
    ensures
        forall|k: int| 0 <= k < cfg.categories.len() && starts(cfg.categories[k].dir, "Imagens/"@)
            ==> !#[trigger] scores(cfg.categories, f, k),
        forall|k: int| 0 <= k < pick(cfg.categories, f, cfg.categories.len()).cands.len()
            ==> !starts(cfg.categories[#[trigger] pick(cfg.categories, f, cfg.categories.len()).cands[k]].dir, "Imagens/"@),
        !starts(cfg.fallback_dir, "Imagens/"@) ==> !starts(suggest(f, cfg).relative_dir, "Imagens/"@),
{
    let ds = cfg.categories;
    let p = pick(ds, f, ds.len());
    lemma_pick_tops(ds, f, ds.len());
    assert forall|k: int| 0 <= k < p.cands.len() implies !starts(ds[#[trigger] p.cands[k]].dir, "Imagens/"@) by {
        assert(top_among(ds, f, ds.len() as int, p.cands[k]));
    }
    reveal_strlit("Imagens/");
    reveal_strlit("Documentos/00_Inbox/Conflitos");
    reveal_strlit("Documentos/00_Inbox/Baixa_Confianca");
    reveal_strlit("Vídeos/Revisar");
    reveal_strlit("Músicas/Revisar");
    let r = suggest(f, cfg);
    if starts(r.relative_dir, "Imagens/"@) {
        assert(r.relative_dir[0] == r.relative_dir.subrange(0, 8)[0]);
        if p.cands.len() == 1 && p.best >= 45 {
            assert(top_among(ds, f, ds.len() as int, p.cands[0]));
            assert(r.relative_dir == ds[p.cands[0]].dir);
        }
    }
}

/// A category that lists extensions is eligible only for a file whose
/// (lowercased) extension is listed; an extensionless file never is.
pub proof fn lemma_extension_filter(d: CategorySpec, f: FileTraits)
    ensures
        (d.extensions matches Some(x) && !x.contains(f.ext)) ==> !eligible(d, f),
        (d.extensions is Some && f.ext.len() == 0 && !d.extensions->0.contains(Seq::<char>::empty()))
            ==> !eligible(d, f),
{
    if f.ext.len() == 0 {
        assert(f.ext =~= Seq::<char>::empty());
    }
}

} // verus!
