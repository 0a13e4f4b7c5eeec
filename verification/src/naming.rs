//! ABNT-like file naming: `YYYY-MM-DD_Title_vN.ext`.
use vstd::prelude::*;
use crate::metadata::FileMetadata;
use crate::text::{
    append, append_lit, char_to_upper, char_uppercase, chars_of, contains_lit, ends,
    eq_lit, has_sub, join, join_chars, lower_chars, lowercase, remove_all, remove_all_exec,
    replace_char, replace_char_exec, seq_eq, slice_chars, split_char, split_exec, starts,
    starts_with, string_of, strs, trim_char, trim_char_exec, vviews};

verus! {

/// Name of the naming profile.
pub const PROFILE_NAME: &'static str = "kryonix-abnt-like-v1";

/// A proposed new name for a file.
#[derive(Debug)]
pub struct RenameSuggestion {
    pub old_path: String,
    pub suggested_filename: String,
    /// Confidence in hundredths.
    pub confidence_pct: u32,
    pub risk: String,
    pub reason: String,
    pub rules_applied: Vec<String>,
    pub naming_profile: String,
    pub needs_review: bool,
}

/// Mathematical model of a rename suggestion.
pub struct RenameSpec {
    pub old_path: Seq<char>,
    pub suggested_filename: Seq<char>,
    pub confidence_pct: int,
    pub risk: Seq<char>,
    pub reason: Seq<char>,
    pub rules_applied: Seq<Seq<char>>,
    pub naming_profile: Seq<char>,
    pub needs_review: bool,
}

impl View for RenameSuggestion {
    type V = RenameSpec;

    open spec fn view(&self) -> RenameSpec {
        RenameSpec {
            old_path: self.old_path@,
            suggested_filename: self.suggested_filename@,
            confidence_pct: self.confidence_pct as int,
            risk: self.risk@,
            reason: self.reason@,
            rules_applied: strs(self.rules_applied@),
            naming_profile: self.naming_profile@,
            needs_review: self.needs_review,
        }
    }
}

// ---------------------------------------------------------------------------
// Specifications
// ---------------------------------------------------------------------------

/// Extensions eligible for automatic renaming.
pub open spec fn supported_ext(e: Seq<char>) -> bool {
    let x = lowercase(e);
    x == "pdf"@ || x == "txt"@ || x == "md"@ || x == "doc"@ || x == "docx"@ || x == "odt"@
        || x == "xls"@ || x == "xlsx"@ || x == "csv"@ || x == "ppt"@ || x == "pptx"@ || x
        == "jpg"@ || x == "jpeg"@ || x == "png"@
}

/// One noise term removed from the name, remembering whether anything was removed.
pub open spec fn noise_step(st: (Seq<char>, bool), t: Seq<char>) -> (Seq<char>, bool) {
    if has_sub(st.0, t) {
        (remove_all(st.0, t), true)
    } else {
        st
    }
}

/// The noise terms, in the order they are removed.
pub open spec fn noise_terms() -> Seq<Seq<char>> {
    seq![
        "final_final"@, "versao boa"@, "versão boa"@, "copia"@, "cópia"@, "copy"@, "download"@,
        "novo"@, "sem titulo"@, "sem título"@, "arquivo"@, "documento"@, "(1)"@, "(2)"@, "(3)"@,
        "()"@,
    ]
}

/// The first `n` noise terms applied to `s`.
pub open spec fn strip_noise(s: Seq<char>, n: nat) -> (Seq<char>, bool)
    decreases n,
{
    if n == 0 {
        (s, false)
    } else {
        noise_step(strip_noise(s, (n - 1) as nat), noise_terms()[n - 1])
    }
}

/// What one character becomes when sanitizing.
pub open spec fn sanitize_char(c: char) -> Seq<char> {
    if c == '/' || c == '\\' || c == ':' || c == '*' || c == '?' || c == '"' || c == '<' || c == '>'
        || c == '|' {
        Seq::empty()
    } else if c == ' ' || c == '-' || c == '(' || c == ')' || c == '[' || c == ']' {
        seq!['_']
    } else {
        seq![c]
    }
}

/// Dangerous characters dropped, separators turned into `_`.
pub open spec fn sanitize(s: Seq<char>) -> Seq<char>
    decreases s.len(),
{
    if s.len() == 0 {
        Seq::empty()
    } else {
        sanitize(s.drop_last()) + sanitize_char(s.last())
    }
}

/// Runs of `_` collapsed into one.
pub open spec fn collapse(s: Seq<char>) -> Seq<char>
    decreases s.len(),
{
    if s.len() == 0 {
        Seq::empty()
    } else {
        let r = collapse(s.drop_last());
        if s.last() == '_' && r.len() > 0 && r.last() == '_' {
            r
        } else {
            r.push(s.last())
        }
    }
}

/// A word with its first character uppercased.
pub open spec fn title_word(w: Seq<char>) -> Seq<char> {
    if w.len() == 0 {
        Seq::empty()
    } else {
        char_uppercase(w[0]) + w.drop_first()
    }
}

/// Every `_`-separated word title-cased.
pub open spec fn title_case(s: Seq<char>) -> Seq<char> {
    join(split_char(s, '_').map_values(|w: Seq<char>| title_word(w)), "_"@)
}

/// The normalized title and the rules applied, for the name `name`.
pub open spec fn normalize(name: Seq<char>) -> (Seq<char>, Seq<Seq<char>>) {
    let (cleaned, noisy) = strip_noise(lowercase(name), 16);
    let result = trim_char(collapse(sanitize(cleaned)), '_');
    let r1: Seq<Seq<char>> = if noisy { seq!["removed_noise_terms"@] } else { Seq::empty() };
    let r2 = if result != name { r1.push("normalized_separators"@) } else { r1 };
    let titled = title_case(result);
    if titled.len() == 0 {
        ("Documento_Revisar"@, r2.push("fallback_generic_name"@))
    } else {
        (titled, r2)
    }
}

/// The version tag of a name.
pub open spec fn version_of(name: Seq<char>) -> Seq<char> {
    let l = lowercase(name);
    if has_sub(l, "v2"@) || has_sub(l, "versao 2"@) || has_sub(l, "versão 2"@) {
        "v2"@
    } else if has_sub(l, "v3"@) || has_sub(l, "versao 3"@) || has_sub(l, "versão 3"@) {
        "v3"@
    } else if has_sub(l, "v4"@) || has_sub(l, "versao 4"@) || has_sub(l, "versão 4"@) {
        "v4"@
    } else {
        "v1"@
    }
}

/// The name without its extension suffix (`.` followed by the extension as written).
pub open spec fn base_name(filename: Seq<char>, extension: Seq<char>) -> Seq<char> {
    let suffix = seq!['.'] + extension;
    if lowercase(extension).len() > 0 && ends(filename, suffix) {
        filename.subrange(0, filename.len() - suffix.len())
    } else {
        filename
    }
}

/// The title without a trailing `_<version>` and without a leading date.
pub open spec fn final_title(title: Seq<char>, version: Seq<char>, date: Seq<char>) -> Seq<char> {
    let t1 = if ends(lowercase(title), seq!['_'] + lowercase(version)) && title.len() > version.len() {
        title.subrange(0, title.len() - version.len() - 1)
    } else {
        title
    };
    let dn = replace_char(date, '-', '_');
    if starts(t1, dn) {
        trim_char(t1.subrange(dn.len() as int, t1.len() as int), '_')
    } else {
        t1
    }
}

pub open spec fn is_media_ext(e: Seq<char>) -> bool {
    e == "jpg"@ || e == "jpeg"@ || e == "png"@
}

pub open spec fn is_office_ext(e: Seq<char>) -> bool {
    e == "pdf"@ || e == "doc"@ || e == "docx"@ || e == "odt"@ || e == "xls"@ || e == "xlsx"@
        || e == "ppt"@ || e == "pptx"@
}

/// The rename suggested for a file dated `date` (`YYYY-MM-DD`, obtained by `date_rule`).
pub open spec fn rename_spec(
    path: Seq<char>,
    filename: Seq<char>,
    extension: Seq<char>,
    date: Seq<char>,
    date_rule: Seq<char>,
) -> Option<RenameSpec> {
    let ext = lowercase(extension);
    if !supported_ext(ext) && ext.len() > 0 {
        None
    } else {
        let base = base_name(filename, extension);
        let version = version_of(base);
        let (title0, trules) = normalize(base);
        let title = final_title(title0, version, date);
        let ext_suffix = if ext.len() == 0 { Seq::empty() } else { seq!['.'] + ext };
        let suggested = date + "_"@ + title + "_"@ + version + ext_suffix;
        if suggested == filename {
            None
        } else {
            let rules0 = seq![date_rule] + trules;
            let rules = if ext.len() > 0 { rules0.push("preserved_extension"@) } else { rules0 };
            let generic = title == "Documento_Revisar"@;
            Some(RenameSpec {
                old_path: path,
                suggested_filename: suggested,
                confidence_pct: 80 - (if generic { 30int } else { 0int }) - (if ext.len() == 0 { 20int } else { 0int }),
                risk: if ext.len() == 0 || is_media_ext(ext) { "high"@ } else { "medium"@ },
                reason: "Nome normalizado pelo perfil "@ + PROFILE_NAME@,
                rules_applied: rules,
                naming_profile: PROFILE_NAME@,
                needs_review: ext.len() == 0 || is_media_ext(ext) || is_office_ext(ext) || generic,
            })
        }
    }
}

/// Every suggested name has the form `YYYY-MM-DD_Title_vN.ext`: it begins
/// with the date and an underscore, and keeps the extension, lowercased.
pub proof fn lemma_rename_shape(path: Seq<char>, filename: Seq<char>, extension: Seq<char>, date: Seq<char>, date_rule: Seq<char>)
    ensures
        rename_spec(path, filename, extension, date, date_rule) matches Some(s) ==> {
            &&& starts(s.suggested_filename, date + "_"@)
            &&& (lowercase(extension).len() > 0 ==> ends(s.suggested_filename, seq!['.'] + lowercase(extension)))
        },
{
    if let Some(s) = rename_spec(path, filename, extension, date, date_rule) {
        let ext = lowercase(extension);
        let base = base_name(filename, extension);
        let version = version_of(base);
        let title = final_title(normalize(base).0, version, date);
        let ext_suffix = if ext.len() == 0 { Seq::<char>::empty() } else { seq!['.'] + ext };
        let head = date + "_"@;
        let body = title + "_"@ + version;
        assert(s.suggested_filename == head + body + ext_suffix);
        assert((head + body + ext_suffix).subrange(0, head.len() as int) =~= head);
        if ext.len() > 0 {
            let t = head + body + ext_suffix;
            assert(t.subrange(t.len() - ext_suffix.len(), t.len() as int) =~= ext_suffix);
        }
    }
}

/// What chrono's RFC 3339 parser followed by `%Y-%m-%d` formatting in UTC yields.
pub uninterp spec fn rfc3339_format(s: Seq<char>, fmt: Seq<char>) -> Option<Seq<char>>;

/// The calendar date (`%Y-%m-%d`, UTC) of an RFC 3339 timestamp.
pub open spec fn rfc3339_utc_date(s: Seq<char>) -> Option<Seq<char>> {
    rfc3339_format(s, "%Y-%m-%d"@)
}

/// The strftime patterns this crate formats timestamps with.
pub open spec fn known_format(fmt: Seq<char>) -> bool {
    fmt == "%Y-%m-%d"@ || fmt == "%Y-%m-%d %H:%M:%S"@ || fmt == "%Y%m%d-%H%M%S"@
}

// ---------------------------------------------------------------------------
// Trusted calls into chrono
// ---------------------------------------------------------------------------

/// `chrono::DateTime::parse_from_rfc3339`, converted to UTC and formatted with
/// the strftime pattern `fmt`; `None` when `s` is not RFC 3339. The contract
/// names the result (`rfc3339_format`) and states nothing of the calendar
/// arithmetic. `fmt` is one of the crate's fixed patterns, on which chrono's
/// formatting cannot fail.
#[verifier::external_body]
pub(crate) fn rfc3339_formatted(s: &str, fmt: &str) -> (r: Option<String>)
    requires
        known_format(fmt@),
    ensures
        r matches Some(d) ==> rfc3339_format(s@, fmt@) == Some(d@),
        r is None ==> rfc3339_format(s@, fmt@) is None,
{
    chrono::DateTime::parse_from_rfc3339(s).ok().map(
        |dt| dt.with_timezone(&chrono::Utc).format(fmt).to_string(),
    )
}

/// A date written `%Y-%m-%d`: a year of at least four characters, then a
/// dash, two month digits, a dash and two day digits.
pub open spec fn date_shaped(d: Seq<char>) -> bool {
    &&& d.len() >= 10
    &&& d[d.len() - 6] == '-'
    &&& d[d.len() - 3] == '-'
    &&& forall|k: int| d.len() - 5 <= k < d.len() && k != d.len() - 3 ==> '0' <= #[trigger] d[k] <= '9'
}

/// `chrono::Utc::now()` formatted as `%Y-%m-%d`. Which date depends on the
/// clock and is not stated; its shape is: chrono writes the year with at
/// least four digits (after 1970, the only times `now` returns), a sign first
/// from year 10000 on, then two-digit month and day.
#[verifier::external_body]
fn today_utc_date() -> (r: String)
    ensures
        date_shaped(r@),
{
    chrono::Utc::now().format("%Y-%m-%d").to_string()
}

// ---------------------------------------------------------------------------
// Exec
// ---------------------------------------------------------------------------

/// Whether an extension is eligible for automatic renaming.
pub fn is_supported_extension(ext: &str) -> (b: bool)
    ensures
        b == supported_ext(ext@),
{
    let x = lower_chars(ext);
    eq_lit(&x, "pdf") || eq_lit(&x, "txt") || eq_lit(&x, "md") || eq_lit(&x, "doc") || eq_lit(&x, "docx")
        || eq_lit(&x, "odt") || eq_lit(&x, "xls") || eq_lit(&x, "xlsx") || eq_lit(&x, "csv")
        || eq_lit(&x, "ppt") || eq_lit(&x, "pptx") || eq_lit(&x, "jpg") || eq_lit(&x, "jpeg")
        || eq_lit(&x, "png")
}

fn noise_step_exec(cleaned: &mut Vec<char>, stripped: &mut bool, term: &str)
    ensures
        (final(cleaned)@, *final(stripped)) == noise_step((old(cleaned)@, *old(stripped)), term@),
{
    if contains_lit(cleaned, term) {
        let t = chars_of(term);
        if t.len() == 0 {
            assert(remove_all(old(cleaned)@, t@) == old(cleaned)@);
        } else {
            *cleaned = remove_all_exec(cleaned, &t);
        }
        *stripped = true;
    }
}

fn sanitize_exec(s: &Vec<char>) -> (r: Vec<char>)
    ensures
        r@ == sanitize(s@),
{
    let mut out: Vec<char> = Vec::new();
    let mut i: usize = 0;
    while i < s.len()
        invariant
            i <= s.len(),
            out@ == sanitize(s@.subrange(0, i as int)),
        decreases s.len() - i,
    {
        let c = s[i];
        let ghost pre = s@.subrange(0, i as int);
        assert(s@.subrange(0, i + 1).drop_last() == pre);
        let ghost before = out@;
        if c == '/' || c == '\\' || c == ':' || c == '*' || c == '?' || c == '"' || c == '<' || c == '>'
            || c == '|' {
            assert(before + sanitize_char(c) == before);
        } else if c == ' ' || c == '-' || c == '(' || c == ')' || c == '[' || c == ']' {
            out.push('_');
            assert(out@ == before + sanitize_char(c));
        } else {
            out.push(c);
            assert(out@ == before + sanitize_char(c));
        }
        i += 1;
    }
    assert(s@.subrange(0, s.len() as int) == s@);
    out
}

fn collapse_exec(s: &Vec<char>) -> (r: Vec<char>)
    ensures
        r@ == collapse(s@),
{
    let mut out: Vec<char> = Vec::new();
    let mut last_was_underscore = false;
    let mut i: usize = 0;
    while i < s.len()
        invariant
            i <= s.len(),
            out@ == collapse(s@.subrange(0, i as int)),
            last_was_underscore == (out@.len() > 0 && out@.last() == '_'),
        decreases s.len() - i,
    {
        let c = s[i];
        assert(s@.subrange(0, i + 1).drop_last() == s@.subrange(0, i as int));
        if c == '_' {
            if !last_was_underscore {
                out.push(c);
                last_was_underscore = true;
            }
        } else {
            out.push(c);
            last_was_underscore = false;
        }
        i += 1;
    }
    assert(s@.subrange(0, s.len() as int) == s@);
    out
}

fn title_case_exec(s: &Vec<char>) -> (r: Vec<char>)
    ensures
        r@ == title_case(s@),
{
    let words = split_exec(s, '_');
    let ghost mapped = split_char(s@, '_').map_values(|w: Seq<char>| title_word(w));
    let mut out: Vec<Vec<char>> = Vec::new();
    let mut i: usize = 0;
    while i < words.len()
        invariant
            i <= words.len(),
            vviews(words@) == split_char(s@, '_'),
            mapped == split_char(s@, '_').map_values(|w: Seq<char>| title_word(w)),
            vviews(out@) == mapped.subrange(0, i as int),
        decreases words.len() - i,
    {
        let w = &words[i];
        assert(w@ == vviews(words@)[i as int]);
        let mut t: Vec<char> = Vec::new();
        if w.len() > 0 {
            let up = char_to_upper(w[0]);
            t = chars_of(up.as_str());
            let rest = slice_chars(w, 1, w.len());
            append(&mut t, &rest);
            assert(rest@ == w@.drop_first());
        }
        assert(t@ == mapped[i as int]);
        let ghost before = vviews(out@);
        out.push(t);
        assert(vviews(out@) == before.push(mapped[i as int]));
        assert(mapped.subrange(0, i + 1) == mapped.subrange(0, i as int).push(mapped[i as int]));
        i += 1;
    }
    assert(mapped.subrange(0, words.len() as int) == mapped);
    join_chars(&out, "_")
}

/// Normalizes a name: noise terms removed, dangerous characters dropped,
/// separators unified into single `_`, words title-cased; an empty result
/// becomes `Documento_Revisar`. Also returns the rules that were applied.
pub fn normalize_filename(name: &str) -> (res: (String, Vec<String>))
    ensures
        res.0@ == normalize(name@).0,
        strs(res.1@) == normalize(name@).1,
{
    let mut cleaned = lower_chars(name);
    let mut stripped = false;
    noise_step_exec(&mut cleaned, &mut stripped, "final_final");
    noise_step_exec(&mut cleaned, &mut stripped, "versao boa");
    noise_step_exec(&mut cleaned, &mut stripped, "versão boa");
    noise_step_exec(&mut cleaned, &mut stripped, "copia");
    noise_step_exec(&mut cleaned, &mut stripped, "cópia");
    noise_step_exec(&mut cleaned, &mut stripped, "copy");
    noise_step_exec(&mut cleaned, &mut stripped, "download");
    noise_step_exec(&mut cleaned, &mut stripped, "novo");
    noise_step_exec(&mut cleaned, &mut stripped, "sem titulo");
    noise_step_exec(&mut cleaned, &mut stripped, "sem título");
    noise_step_exec(&mut cleaned, &mut stripped, "arquivo");
    noise_step_exec(&mut cleaned, &mut stripped, "documento");
    noise_step_exec(&mut cleaned, &mut stripped, "(1)");
    noise_step_exec(&mut cleaned, &mut stripped, "(2)");
    noise_step_exec(&mut cleaned, &mut stripped, "(3)");
    noise_step_exec(&mut cleaned, &mut stripped, "()");
    assert((cleaned@, stripped) == strip_noise(lowercase(name@), 16)) by {
        reveal_with_fuel(strip_noise, 17);
    }
    let mut rules: Vec<String> = Vec::new();
    if stripped {
        rules.push(string_of(&chars_of("removed_noise_terms")));
    }
    let sanitized = sanitize_exec(&cleaned);
    let collapsed = collapse_exec(&sanitized);
    let result = trim_char_exec(&collapsed, '_');
    let original = chars_of(name);
    if !seq_eq(&result, &original) {
        rules.push(string_of(&chars_of("normalized_separators")));
    }
    let titled = title_case_exec(&result);
    if titled.len() == 0 {
        rules.push(string_of(&chars_of("fallback_generic_name")));
        (string_of(&chars_of("Documento_Revisar")), rules)
    } else {
        (string_of(&titled), rules)
    }
}

/// The version tag (`v1`..`v4`) written in a name.
pub fn detect_version(name: &str) -> (v: String)
    ensures
        v@ == version_of(name@),
{
    let l = lower_chars(name);
    if contains_lit(&l, "v2") || contains_lit(&l, "versao 2") || contains_lit(&l, "versão 2") {
        string_of(&chars_of("v2"))
    } else if contains_lit(&l, "v3") || contains_lit(&l, "versao 3") || contains_lit(&l, "versão 3") {
        string_of(&chars_of("v3"))
    } else if contains_lit(&l, "v4") || contains_lit(&l, "versao 4") || contains_lit(&l, "versão 4") {
        string_of(&chars_of("v4"))
    } else {
        string_of(&chars_of("v1"))
    }
}

/// The date prefix and the rule naming its source, from a modification time
/// (RFC 3339); `None` when the caller must use the current date.
pub fn date_from_modified(modified_at: &Option<String>) -> (r: Option<(String, String)>)
    ensures
        match r {
            Some((d, rule)) => modified_at matches Some(m) && rfc3339_utc_date(m@) == Some(d@)
                && rule@ == "date_from_modified_time"@,
            None => modified_at is None || rfc3339_utc_date(modified_at->0@) is None,
        },
{
    match modified_at {
        Some(m) => match rfc3339_formatted(m.as_str(), "%Y-%m-%d") {
            Some(d) => Some((d, string_of(&chars_of("date_from_modified_time")))),
            None => None,
        },
        None => None,
    }
}

/// Suggests an ABNT-like name for `file` given its date prefix (`YYYY-MM-DD`)
/// and the rule that produced it; `None` when the extension is unsupported or
/// the name already has the suggested form.
#[verifier::spinoff_prover]
#[verifier::rlimit(40)]
pub fn suggest_rename_dated(file: &FileMetadata, date: &str, date_rule: &str) -> (r: Option<RenameSuggestion>)
    ensures
        match r {
            Some(s) => rename_spec(file.path@, file.filename@, file.extension@, date@, date_rule@) == Some(s@),
            None => rename_spec(file.path@, file.filename@, file.extension@, date@, date_rule@) is None,
        },
{
    let ext = lower_chars(file.extension.as_str());
    let ext_s = string_of(&ext);
    if !is_supported_extension(ext_s.as_str()) && ext.len() > 0 {
        return None;
    }
    let fname = chars_of(file.filename.as_str());
    let mut suffix: Vec<char> = Vec::new();
    suffix.push('.');
    let extc = chars_of(file.extension.as_str());
    append(&mut suffix, &extc);
    let base: Vec<char> = if ext.len() > 0 && crate::text::ends_with(&fname, &suffix) {
        slice_chars(&fname, 0, fname.len() - suffix.len())
    } else {
        slice_chars(&fname, 0, fname.len())
    };
    assert(fname@.subrange(0, fname.len() as int) == fname@);
    assert(base@ == base_name(file.filename@, file.extension@));
    let base_s = string_of(&base);
    let version_s = detect_version(base_s.as_str());
    let version = chars_of(version_s.as_str());
    let (title0_s, trules) = normalize_filename(base_s.as_str());
    let title0 = chars_of(title0_s.as_str());
    // drop a trailing `_<version>`
    let tl = lower_chars(title0_s.as_str());
    let vl = lower_chars(version_s.as_str());
    let mut usv: Vec<char> = Vec::new();
    usv.push('_');
    append(&mut usv, &vl);
    let t1: Vec<char> = if crate::text::ends_with(&tl, &usv) && title0.len() > version.len() {
        slice_chars(&title0, 0, title0.len() - version.len() - 1)
    } else {
        slice_chars(&title0, 0, title0.len())
    };
    assert(title0@.subrange(0, title0.len() as int) == title0@);
    let datec = chars_of(date);
    let dn = replace_char_exec(&datec, '-', '_');
    let title: Vec<char> = if starts_with(&t1, &dn) {
        let rest = slice_chars(&t1, dn.len(), t1.len());
        trim_char_exec(&rest, '_')
    } else {
        t1
    };
    assert(title@ == final_title(title0@, version@, date@));
    let mut suggested: Vec<char> = chars_of(date);
    append_lit(&mut suggested, "_");
    append(&mut suggested, &title);
    append_lit(&mut suggested, "_");
    append(&mut suggested, &version);
    if ext.len() > 0 {
        suggested.push('.');
        append(&mut suggested, &ext);
    }
    proof {
        let ext_suffix = if ext@.len() == 0 { Seq::<char>::empty() } else { seq!['.'] + ext@ };
        assert(suggested@ == date@ + "_"@ + title@ + "_"@ + version@ + ext_suffix);
    }
    if seq_eq(&suggested, &fname) {
        return None;
    }
    let mut rules: Vec<String> = Vec::new();
    rules.push(string_of(&chars_of(date_rule)));
    let mut k: usize = 0;
    while k < trules.len()
        invariant
            k <= trules.len(),
            strs(rules@) == seq![date_rule@] + strs(trules@).subrange(0, k as int),
        decreases trules.len() - k,
    {
        let ghost before = strs(rules@);
        rules.push(trules[k].clone());
        assert(strs(rules@) == before.push(trules@[k as int]@));
        assert(strs(trules@).subrange(0, k + 1) == strs(trules@).subrange(0, k as int).push(trules@[k as int]@));
        k += 1;
    }
    assert(strs(trules@).subrange(0, trules.len() as int) == strs(trules@));
    if ext.len() > 0 {
        rules.push(string_of(&chars_of("preserved_extension")));
    }
    let is_media = eq_lit(&ext, "jpg") || eq_lit(&ext, "jpeg") || eq_lit(&ext, "png");
    let is_office = eq_lit(&ext, "pdf") || eq_lit(&ext, "doc") || eq_lit(&ext, "docx") || eq_lit(&ext, "odt")
        || eq_lit(&ext, "xls") || eq_lit(&ext, "xlsx") || eq_lit(&ext, "ppt") || eq_lit(&ext, "pptx");
    let generic = eq_lit(&title, "Documento_Revisar");
    let risk = if ext.len() == 0 || is_media { "high" } else { "medium" };
    let needs_review = ext.len() == 0 || is_media || is_office || generic;
    let mut confidence: u32 = 80;
    if generic {
        confidence = confidence - 30;
    }
    if ext.len() == 0 {
        confidence = confidence - 20;
    }
    let mut reason: Vec<char> = chars_of("Nome normalizado pelo perfil ");
    append_lit(&mut reason, PROFILE_NAME);
    let res = RenameSuggestion {
        old_path: file.path.clone(),
        suggested_filename: string_of(&suggested),
        confidence_pct: confidence,
        risk: string_of(&chars_of(risk)),
        reason: string_of(&reason),
        rules_applied: rules,
        naming_profile: string_of(&chars_of(PROFILE_NAME)),
        needs_review,
    };
    proof {
        let sp = rename_spec(file.path@, file.filename@, file.extension@, date@, date_rule@);
        assert(sp is Some);
        let v = sp->0;
        assert(v.old_path == res@.old_path);
        assert(v.suggested_filename == res@.suggested_filename);
        assert(v.confidence_pct == res@.confidence_pct);
        assert(v.risk == res@.risk);
        assert(v.reason == res@.reason);
        assert(v.rules_applied == res@.rules_applied);
        assert(v.naming_profile == res@.naming_profile);
        assert(v.needs_review == res@.needs_review);
        assert(v == res@);
    }
    Some(res)
}

/// The suggestions `suggest_rename` may give for `f`: the one for its
/// modification date when that parses, else the one for some current date.
pub open spec fn rename_possible(f: FileMetadata, r: Option<RenameSpec>) -> bool {
    match date_from_modified_spec(f.modified_at) {
        Some(d) => r == rename_spec(f.path@, f.filename@, f.extension@, d, "date_from_modified_time"@),
        None => exists|today: Seq<char>| date_shaped(today) && r == #[trigger] rename_spec(
            f.path@,
            f.filename@,
            f.extension@,
            today,
            "date_from_current_time"@,
        ),
    }
}

/// Suggests an ABNT-like name for `file`. The date prefix is the file's
/// modification date when it parses as RFC 3339, else today's date (UTC).
pub fn suggest_rename(file: &FileMetadata) -> (r: Option<RenameSuggestion>)
    ensures
        rename_possible(*file, match r {
            Some(s) => Some(s@),
            None => None,
        }),
        match date_from_modified_spec(file.modified_at) {
            Some(d) => match r {
                Some(s) => rename_spec(file.path@, file.filename@, file.extension@, d, "date_from_modified_time"@) == Some(s@),
                None => rename_spec(file.path@, file.filename@, file.extension@, d, "date_from_modified_time"@) is None,
            },
            None => exists|today: Seq<char>| match r {
                Some(s) => rename_spec(file.path@, file.filename@, file.extension@, today, "date_from_current_time"@) == Some(s@),
                None => rename_spec(file.path@, file.filename@, file.extension@, today, "date_from_current_time"@) is None,
            },
        },
{
    match date_from_modified(&file.modified_at) {
        Some((d, rule)) => suggest_rename_dated(file, d.as_str(), rule.as_str()),
        None => {
            let today = today_utc_date();
            let rule = string_of(&chars_of("date_from_current_time"));
            let r = suggest_rename_dated(file, today.as_str(), rule.as_str());
            assert(match r {
                Some(s) => rename_spec(file.path@, file.filename@, file.extension@, today@, "date_from_current_time"@) == Some(s@),
                None => rename_spec(file.path@, file.filename@, file.extension@, today@, "date_from_current_time"@) is None,
            });
            r
        },
    }
}

/// The date a modification time gives, when it parses.
pub open spec fn date_from_modified_spec(m: Option<String>) -> Option<Seq<char>> {
    match m {
        Some(s) => rfc3339_utc_date(s@),
        None => None,
    }
}

/// The version tag is the one the name writes (in any case): `v2`, `v3` or
/// `v4` (also as `versão N` / `versao N`), the lowest one when several occur,
/// and `v1` exactly when none occurs.
pub proof fn lemma_version_is_written(name: Seq<char>)
    ensures
        ({
            let l = lowercase(name);
            let w2 = has_sub(l, "v2"@) || has_sub(l, "versao 2"@) || has_sub(l, "versão 2"@);
            let w3 = has_sub(l, "v3"@) || has_sub(l, "versao 3"@) || has_sub(l, "versão 3"@);
            let w4 = has_sub(l, "v4"@) || has_sub(l, "versao 4"@) || has_sub(l, "versão 4"@);
            &&& (w2 ==> version_of(name) == "v2"@)
            &&& (!w2 && w3 ==> version_of(name) == "v3"@)
            &&& (!w2 && !w3 && w4 ==> version_of(name) == "v4"@)
            &&& (version_of(name) == "v1"@ <==> !w2 && !w3 && !w4)
        }),
{
    reveal_strlit("v1");
    reveal_strlit("v2");
    reveal_strlit("v3");
    reveal_strlit("v4");
    assert("v1"@ != "v2"@ && "v1"@ != "v3"@ && "v1"@ != "v4"@) by {
        assert("v1"@[1] != "v2"@[1] && "v1"@[1] != "v3"@[1] && "v1"@[1] != "v4"@[1]);
    }
}

/// A suggested name ends with `_`, the version tag of the name and the
/// lowercased extension: the version written in the name is the one kept.
pub proof fn lemma_rename_keeps_version(path: Seq<char>, filename: Seq<char>, extension: Seq<char>, date: Seq<char>, date_rule: Seq<char>)
    ensures
        rename_spec(path, filename, extension, date, date_rule) matches Some(s) ==> ends(
            s.suggested_filename,
            "_"@ + version_of(base_name(filename, extension)) + (if lowercase(extension).len() == 0 {
                Seq::<char>::empty()
            } else {
                seq!['.'] + lowercase(extension)
            }),
        ),
{
    if let Some(s) = rename_spec(path, filename, extension, date, date_rule) {
        let ext = lowercase(extension);
        let base = base_name(filename, extension);
        let version = version_of(base);
        let title = final_title(normalize(base).0, version, date);
        let ext_suffix = if ext.len() == 0 { Seq::<char>::empty() } else { seq!['.'] + ext };
        let tail = "_"@ + version + ext_suffix;
        let t = date + "_"@ + title + tail;
        assert(s.suggested_filename =~= t);
        assert(t.subrange(t.len() - tail.len(), t.len() as int) =~= tail);
    }
}

} // verus!
