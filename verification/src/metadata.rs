//! File metadata records and the path rules that classify them: hidden paths,
//! the zone of the home a path belongs to and the protected (sensitive) paths.
use vstd::prelude::*;
use crate::paths::{comps_prefix, file_name_or_empty, file_name_or_empty_exec, normals, normals_exec, segs, segs_exec, cur_dir_exec};
use crate::taxonomy::keep_nonempty;
use crate::text::{
    chars_of, contains_lit, ends_lit, eq_lit, ends, has_sub, join, join_chars, lower_chars, lowercase,
    split_char, split_exec, starts, starts_with, string_of, strs, to_lower, vviews};

verus! {

/// Content profile of a sampled file.
#[derive(Debug)]
pub struct ContentProfile {
    pub summary: Option<String>,
    pub keywords: Vec<String>,
    pub language: Option<String>,
}

/// Context profile of a file: whether it sits inside a codebase and the
/// categories suggested by its siblings.
#[derive(Debug)]
pub struct ContextProfile {
    pub is_inside_codebase: bool,
    pub sibling_categories: Vec<String>,
}

/// Outcome of the scan for one entry.
#[derive(Debug, Clone, Copy, PartialEq, Eq, Structural)]
pub enum FileStatus {
    Analyzed,
    Ignored,
    Error,
}

/// Metadata collected about one file during a scan.
#[derive(Debug)]
pub struct FileMetadata {
    pub path: String,
    pub filename: String,
    pub extension: String,
    pub mime: String,
    pub size_bytes: u64,
    pub modified_at: Option<String>,
    pub is_dir: bool,
    pub is_file: bool,
    pub is_symlink: bool,
    pub is_hidden: bool,
    pub is_project_member: bool,
    pub project_root: Option<String>,
    pub source_zone: Option<String>,
    pub readable: bool,
    pub content_sampled: bool,
    pub metadata_only: bool,
    pub protected_reason: Option<String>,
    pub warnings: Vec<String>,
    pub content: Option<ContentProfile>,
    pub context: Option<ContextProfile>,
    pub status: FileStatus,
}


// ---------------------------------------------------------------------------
// Hidden paths
// ---------------------------------------------------------------------------

/// Some name component of `p` begins with `.`.
pub open spec fn hidden(p: Seq<char>) -> bool {
    exists|i: int| 0 <= i < normals(p).len() && #[trigger] normals(p)[i].len() > 0 && normals(p)[i][0] == '.'
}

/// Whether the path or one of its ancestors is hidden (its name begins with `.`).
pub fn is_hidden_path(path: &str) -> (b: bool)
    ensures
        b == hidden(path@),
{
    let p = chars_of(path);
    let ns = normals_exec(&p);
    let mut i: usize = 0;
    while i < ns.len()
        invariant
            i <= ns.len(),
            vviews(ns@) == normals(path@),
            forall|j: int| 0 <= j < i ==> !(#[trigger] normals(path@)[j].len() > 0 && normals(path@)[j][0] == '.'),
        decreases ns.len() - i,
    {
        assert(ns@[i as int]@ == normals(path@)[i as int]);
        if ns[i].len() > 0 && ns[i][0] == '.' {
            return true;
        }
        i += 1;
    }
    false
}

// ---------------------------------------------------------------------------
// Source zones
// ---------------------------------------------------------------------------

/// The lowercased components of `path` below `home`.
pub open spec fn relative_parts(path: Seq<char>, home: Seq<char>) -> Seq<Seq<char>> {
    let rest = segs(path).subrange(segs(home).len() as int, segs(path).len() as int);
    keep_nonempty(split_char(lowercase(join(rest, "/"@)), '/'))
}

/// The zone named by the first component below the home.
pub open spec fn zone_of_parts(parts: Seq<Seq<char>>) -> Seq<char> {
    if parts.len() == 0 {
        "home_root"@
    } else {
        let p0 = parts[0];
        if p0 == "downloads"@ {
            "downloads"@
        } else if p0 == "desktop"@ || p0 == "área de trabalho"@ {
            "desktop"@
        } else if p0 == "documentos"@ || p0 == "documents"@ {
            if parts.contains(".obsidian"@) || parts.contains("obsidian"@) {
                "vault"@
            } else if parts.contains("notebooks"@) {
                "notebooks"@
            } else {
                "documents"@
            }
        } else if p0 == "imagens"@ || p0 == "pictures"@ {
            "pictures"@
        } else if p0 == "vídeos"@ || p0 == "videos"@ {
            "videos"@
        } else if p0 == "músicas"@ || p0 == "music"@ {
            "music"@
        } else if p0 == "projetos"@ || p0 == "projects"@ {
            "projects"@
        } else if p0.len() > 0 && p0[0] == '.' {
            "hidden_config"@
        } else {
            "unknown"@
        }
    }
}

/// The zone of the home that `path` lies in.
pub open spec fn source_zone(path: Seq<char>, home: Seq<char>) -> Seq<char> {
    if !starts(lowercase(path), lowercase(home)) || !comps_prefix(home, path) {
        "unknown"@
    } else {
        zone_of_parts(relative_parts(path, home))
    }
}

fn parts_contain(parts: &Vec<Vec<char>>, lit: &str) -> (r: bool)
    ensures
        r == vviews(parts@).contains(lit@),
{
    let mut i: usize = 0;
    while i < parts.len()
        invariant
            i <= parts.len(),
            forall|j: int| 0 <= j < i ==> vviews(parts@)[j] != lit@,
        decreases parts.len() - i,
    {
        if eq_lit(&parts[i], lit) {
            assert(vviews(parts@)[i as int] == lit@);
            return true;
        }
        i += 1;
    }
    false
}

fn keep_nonempty_exec(ps: &Vec<Vec<char>>) -> (r: Vec<Vec<char>>)
    ensures
        vviews(r@) == keep_nonempty(vviews(ps@)),
{
    let mut out: Vec<Vec<char>> = Vec::new();
    let mut i: usize = 0;
    assert(vviews(out@) == Seq::<Seq<char>>::empty());
    while i < ps.len()
        invariant
            i <= ps.len(),
            vviews(out@) == keep_nonempty(vviews(ps@).subrange(0, i as int)),
        decreases ps.len() - i,
    {
        assert(vviews(ps@).subrange(0, i + 1).drop_last() == vviews(ps@).subrange(0, i as int));
        assert(vviews(ps@)[i as int] == ps@[i as int]@);
        if ps[i].len() > 0 {
            let ghost before = vviews(out@);
            out.push(crate::text::slice_chars(&ps[i], 0, ps[i].len()));
            assert(ps@[i as int]@.subrange(0, ps@[i as int]@.len() as int) == ps@[i as int]@);
            assert(vviews(out@) == before.push(ps@[i as int]@));
        }
        i += 1;
    }
    assert(vviews(ps@).subrange(0, ps.len() as int) == vviews(ps@));
    out
}

/// Whether `path`'s components begin with those of `base` (`Path::starts_with`).
pub fn comps_prefix_exec(base: &Vec<char>, p: &Vec<char>) -> (r: bool)
    ensures
        r == comps_prefix(base@, p@),
{
    let bs = segs_exec(base);
    let ps = segs_exec(p);
    let babs = base.len() > 0 && base[0] == '/';
    let pabs = p.len() > 0 && p[0] == '/';
    if babs != pabs || cur_dir_exec(base) != cur_dir_exec(p) || bs.len() > ps.len() {
        return false;
    }
    let mut i: usize = 0;
    while i < bs.len()
        invariant
            bs.len() <= ps.len(),
            i <= bs.len(),
            vviews(bs@) == segs(base@),
            vviews(ps@) == segs(p@),
            forall|j: int| 0 <= j < i ==> vviews(ps@)[j] == vviews(bs@)[j],
        decreases bs.len() - i,
    {
        if !crate::text::seq_eq(&bs[i], &ps[i]) {
            assert(vviews(ps@).subrange(0, bs.len() as int)[i as int] != vviews(bs@)[i as int]);
            return false;
        }
        i += 1;
    }
    assert(vviews(ps@).subrange(0, bs.len() as int) =~= vviews(bs@));
    true
}

/// The zone of the home a path belongs to: `downloads`, `desktop`, `documents`,
/// `vault`, `notebooks`, `pictures`, `videos`, `music`, `projects`,
/// `hidden_config`, `home_root` or `unknown`.
pub fn detect_source_zone(path: &str, home: &str) -> (zone: String)
    ensures
        zone@ == source_zone(path@, home@),
{
    let pl = lower_chars(path);
    let hl = lower_chars(home);
    let pc = chars_of(path);
    let hc = chars_of(home);
    if !starts_with(&pl, &hl) || !comps_prefix_exec(&hc, &pc) {
        return string_of(&chars_of("unknown"));
    }
    let ps = segs_exec(&pc);
    let hs = segs_exec(&hc);
    let mut rest: Vec<Vec<char>> = Vec::new();
    let mut i: usize = hs.len();
    assert(vviews(rest@) == Seq::<Seq<char>>::empty());
    while i < ps.len()
        invariant
            hs.len() <= i <= ps.len(),
            vviews(ps@) == segs(path@),
            vviews(hs@) == segs(home@),
            vviews(rest@) == vviews(ps@).subrange(hs.len() as int, i as int),
        decreases ps.len() - i,
    {
        let ghost before = vviews(rest@);
        rest.push(crate::text::slice_chars(&ps[i], 0, ps[i].len()));
        assert(ps@[i as int]@.subrange(0, ps@[i as int]@.len() as int) == ps@[i as int]@);
        assert(vviews(rest@) == before.push(vviews(ps@)[i as int]));
        assert(vviews(ps@).subrange(hs.len() as int, i + 1) == vviews(ps@).subrange(hs.len() as int, i as int).push(vviews(ps@)[i as int]));
        i += 1;
    }
    let joined = join_chars(&rest, "/");
    let rel = lower_chars(string_of(&joined).as_str());
    let pieces = split_exec(&rel, '/');
    let parts = keep_nonempty_exec(&pieces);
    assert(vviews(parts@) == relative_parts(path@, home@));
    let z = if parts.len() == 0 {
        "home_root"
    } else {
        let p0 = &parts[0];
        assert(p0@ == vviews(parts@)[0]);
        if eq_lit(p0, "downloads") {
            "downloads"
        } else if eq_lit(p0, "desktop") || eq_lit(p0, "área de trabalho") {
            "desktop"
        } else if eq_lit(p0, "documentos") || eq_lit(p0, "documents") {
            if parts_contain(&parts, ".obsidian") || parts_contain(&parts, "obsidian") {
                "vault"
            } else if parts_contain(&parts, "notebooks") {
                "notebooks"
            } else {
                "documents"
            }
        } else if eq_lit(p0, "imagens") || eq_lit(p0, "pictures") {
            "pictures"
        } else if eq_lit(p0, "vídeos") || eq_lit(p0, "videos") {
            "videos"
        } else if eq_lit(p0, "músicas") || eq_lit(p0, "music") {
            "music"
        } else if eq_lit(p0, "projetos") || eq_lit(p0, "projects") {
            "projects"
        } else if p0.len() > 0 && p0[0] == '.' {
            "hidden_config"
        } else {
            "unknown"
        }
    };
    string_of(&chars_of(z))
}

// ---------------------------------------------------------------------------
// Protected paths
// ---------------------------------------------------------------------------

/// Why a directory component (lowercased) makes a path protected.
pub open spec fn component_reason(l: Seq<char>) -> Option<Seq<char>> {
    if l == ".ssh"@ {
        Some("sensitive .ssh directory"@)
    } else if l == ".gnupg"@ {
        Some("sensitive .gnupg directory"@)
    } else if l == ".config"@ {
        Some("system/app config directory"@)
    } else if l == ".local"@ {
        Some("local application state directory"@)
    } else if l == ".cache"@ {
        Some("cached files"@)
    } else if l == ".mozilla"@ || l == ".thunderbird"@ {
        Some("browser profile files"@)
    } else if l == ".var"@ {
        Some("flatpak and runtime state"@)
    } else if l == ".npm"@ || l == ".cargo"@ || l == ".rustup"@ || l == ".node-gyp"@ || l == ".electron"@ {
        Some("toolchain/package manager files"@)
    } else if l == ".gnome"@ || l == ".kde"@ || l == ".dbus"@ || l == ".pki"@ || l == ".password-store"@ {
        Some("desktop/security secrets"@)
    } else {
        None
    }
}

/// The reason given by the first protected name component of `ns`.
pub open spec fn first_component_reason(ns: Seq<Seq<char>>) -> Option<Seq<char>>
    decreases ns.len(),
{
    if ns.len() == 0 {
        None
    } else {
        match component_reason(lowercase(ns[0])) {
            Some(r) => Some(r),
            None => first_component_reason(ns.drop_first()),
        }
    }
}

/// Why a (lowercased) file name makes a path protected.
pub open spec fn filename_reason(f: Seq<char>) -> Option<Seq<char>> {
    if f == ".env"@ || ends(f, ".env"@) || f == "brain.env"@ || f == "neo4j.env"@ {
        Some("environment variable secrets file"@)
    } else if has_sub(f, "private_key"@) || has_sub(f, "id_rsa"@) || has_sub(f, "id_ed25519"@)
        || has_sub(f, "id_ecdsa"@) || ends(f, ".pem"@) || ends(f, ".key"@) || ends(f, ".secret"@)
        || ends(f, ".token"@) {
        Some("cryptographic private key or secret token"@)
    } else {
        None
    }
}

/// Why a path is protected, if it is.
pub open spec fn protected_reason(p: Seq<char>) -> Option<Seq<char>> {
    match first_component_reason(normals(p)) {
        Some(r) => Some(r),
        None => match filename_reason(lowercase(file_name_or_empty(p))) {
            Some(r) => Some(r),
            None => {
                let l = lowercase(p);
                if has_sub(l, "/.ssh"@) || has_sub(l, "/.gnupg"@) || has_sub(l, "/.config"@)
                    || has_sub(l, "/.local/share/kryonix"@) || has_sub(l, "/.local/state/kryonix"@) {
                    Some("protected system or hidden path"@)
                } else {
                    None
                }
            },
        },
    }
}

fn component_reason_exec(l: &Vec<char>) -> (r: Option<&'static str>)
    ensures
        match r {
            Some(s) => component_reason(l@) == Some(s@),
            None => component_reason(l@) is None,
        },
{
    if eq_lit(l, ".ssh") {
        Some("sensitive .ssh directory")
    } else if eq_lit(l, ".gnupg") {
        Some("sensitive .gnupg directory")
    } else if eq_lit(l, ".config") {
        Some("system/app config directory")
    } else if eq_lit(l, ".local") {
        Some("local application state directory")
    } else if eq_lit(l, ".cache") {
        Some("cached files")
    } else if eq_lit(l, ".mozilla") || eq_lit(l, ".thunderbird") {
        Some("browser profile files")
    } else if eq_lit(l, ".var") {
        Some("flatpak and runtime state")
    } else if eq_lit(l, ".npm") || eq_lit(l, ".cargo") || eq_lit(l, ".rustup") || eq_lit(l, ".node-gyp")
        || eq_lit(l, ".electron") {
        Some("toolchain/package manager files")
    } else if eq_lit(l, ".gnome") || eq_lit(l, ".kde") || eq_lit(l, ".dbus") || eq_lit(l, ".pki")
        || eq_lit(l, ".password-store") {
        Some("desktop/security secrets")
    } else {
        None
    }
}

proof fn lemma_first_reason_skip(ns: Seq<Seq<char>>, i: int)
    requires
        0 <= i <= ns.len(),
        forall|j: int| 0 <= j < i ==> component_reason(lowercase(#[trigger] ns[j])) is None,
    ensures
        first_component_reason(ns) == first_component_reason(ns.subrange(i, ns.len() as int)),
    decreases i,
{
    if i > 0 {
        assert(ns.drop_first() == ns.subrange(1, ns.len() as int));
        assert(component_reason(lowercase(ns[0])) is None);
        lemma_first_reason_skip(ns.drop_first(), i - 1);
        assert(ns.drop_first().subrange(i - 1, ns.drop_first().len() as int) == ns.subrange(i, ns.len() as int));
    } else {
        assert(ns.subrange(0, ns.len() as int) == ns);
    }
}

/// Whether a path is protected (sensitive directories, secret files, key
/// material, the tool's own state), and why.
pub fn is_protected_path(path: &str) -> (r: Option<String>)
    ensures
        match r {
            Some(s) => protected_reason(path@) == Some(s@),
            None => protected_reason(path@) is None,
        },
{
    let p = chars_of(path);
    let ns = normals_exec(&p);
    let mut i: usize = 0;
    while i < ns.len()
        invariant
            i <= ns.len(),
            vviews(ns@) == normals(path@),
            forall|j: int| 0 <= j < i ==> component_reason(lowercase(#[trigger] normals(path@)[j])) is None,
        decreases ns.len() - i,
    {
        let l = lower_chars(string_of(&ns[i]).as_str());
        assert(ns@[i as int]@ == normals(path@)[i as int]);
        match component_reason_exec(&l) {
            Some(reason) => {
                proof {
                    lemma_first_reason_skip(normals(path@), i as int);
                    let t = normals(path@).subrange(i as int, normals(path@).len() as int);
                    assert(t[0] == normals(path@)[i as int]);
                }
                return Some(string_of(&chars_of(reason)));
            },
            None => {},
        }
        i += 1;
    }
    proof {
        lemma_first_reason_skip(normals(path@), ns.len() as int);
    }
    let fname = file_name_or_empty_exec(&p);
    let f = lower_chars(string_of(&fname).as_str());
    if eq_lit(&f, ".env") || ends_lit(&f, ".env") || eq_lit(&f, "brain.env") || eq_lit(&f, "neo4j.env") {
        return Some(string_of(&chars_of("environment variable secrets file")));
    }
    if contains_lit(&f, "private_key") || contains_lit(&f, "id_rsa") || contains_lit(&f, "id_ed25519")
        || contains_lit(&f, "id_ecdsa") || ends_lit(&f, ".pem") || ends_lit(&f, ".key") || ends_lit(&f, ".secret")
        || ends_lit(&f, ".token") {
        return Some(string_of(&chars_of("cryptographic private key or secret token")));
    }
    let l = lower_chars(path);
    if contains_lit(&l, "/.ssh") || contains_lit(&l, "/.gnupg") || contains_lit(&l, "/.config")
        || contains_lit(&l, "/.local/share/kryonix") || contains_lit(&l, "/.local/state/kryonix") {
        return Some(string_of(&chars_of("protected system or hidden path")));
    }
    None
}


/// What `mime_guess` guesses for a path (the first guess, or
/// `application/octet-stream`).
pub uninterp spec fn guessed_mime(path: Seq<char>) -> Seq<char>;

/// `mime_guess::from_path(path).first_or_octet_stream()`, as text. The
/// contract names the guess (`guessed_mime`); the extension table is not restated.
#[verifier::external_body]
pub(crate) fn guess_mime(path: &str) -> (r: String)
    ensures
        r@ == guessed_mime(path@),
{
    mime_guess::from_path(path).first_or_octet_stream().to_string()
}

/// What the file system reports of a path: its size, modification time (RFC
/// 3339), kind, and whether it could be opened for reading.
#[derive(Debug)]
pub struct FsFacts {
    pub size_bytes: u64,
    pub modified_at: Option<String>,
    pub is_dir: bool,
    pub is_file: bool,
    pub is_symlink: bool,
    pub can_open: bool,
}

/// Content is sampled only when asked for, from a readable, non-empty,
/// unprotected regular file.
pub open spec fn samples_content(content_aware: bool, metadata_only: bool, readable: bool, is_file: bool, size: u64) -> bool {
    content_aware && !metadata_only && readable && is_file && size > 0
}

/// The context is profiled only when asked for, for an unprotected non-directory.
pub open spec fn profiles_context(content_aware: bool, metadata_only: bool, is_dir: bool) -> bool {
    content_aware && !is_dir && !metadata_only
}

/// Whether the scan reads a sample of the file's content.
pub fn should_sample_content(content_aware: bool, metadata_only: bool, readable: bool, is_file: bool, size: u64) -> (b: bool)
    ensures
        b == samples_content(content_aware, metadata_only, readable, is_file, size),
{
    content_aware && !metadata_only && readable && is_file && size > 0
}

/// Whether the scan profiles the file's context.
pub fn should_profile_context(content_aware: bool, metadata_only: bool, is_dir: bool) -> (b: bool)
    ensures
        b == profiles_context(content_aware, metadata_only, is_dir),
{
    content_aware && !is_dir && !metadata_only
}

/// The metadata of a scanned path, from what the file system reported, the
/// project root found above it (if any), and the content and context
/// profiles (kept only where the scan samples them).
pub fn collect_metadata(
    path: &str,
    home: &str,
    facts: FsFacts,
    content_aware: bool,
    project_root: Option<String>,
    content: Option<ContentProfile>,
    context: Option<ContextProfile>,
) -> (m: FileMetadata)
    ensures
        m.path@ == path@,
        m.filename@ == file_name_or_empty(path@),
        m.extension@ == lowercase(crate::paths::extension_or_empty(path@)),
        m.mime@ == guessed_mime(path@),
        m.size_bytes == facts.size_bytes,
        m.modified_at == facts.modified_at,
        m.is_dir == facts.is_dir && m.is_file == facts.is_file && m.is_symlink == facts.is_symlink,
        m.is_hidden == hidden(path@),
        m.is_project_member == project_root is Some,
        m.project_root == project_root,
        crate::taxonomy::opt_str(m.source_zone) == Some(source_zone(path@, home@)),
        crate::taxonomy::opt_str(m.protected_reason) == protected_reason(path@),
        m.metadata_only == protected_reason(path@) is Some,
        m.readable == (facts.is_file && !m.metadata_only && facts.can_open),
        m.content_sampled == samples_content(content_aware, m.metadata_only, m.readable, facts.is_file, facts.size_bytes),
        m.content == (if m.content_sampled { content } else { None }),
        m.context == (if profiles_context(content_aware, m.metadata_only, facts.is_dir) { context } else { None }),
        strs(m.warnings@) == (if m.metadata_only { seq!["Protected path - metadata only scan"@] } else { Seq::empty() }),
        m.status == (if facts.is_symlink { FileStatus::Ignored } else { FileStatus::Analyzed }),
{
    let pc = chars_of(path);
    let filename = string_of(&file_name_or_empty_exec(&pc));
    let extension = to_lower(string_of(&crate::paths::extension_or_empty_exec(&pc)).as_str());
    let mime = guess_mime(path);
    let zone = detect_source_zone(path, home);
    let is_hidden = is_hidden_path(path);
    let protected = is_protected_path(path);
    let metadata_only = protected.is_some();
    let readable = facts.is_file && !metadata_only && facts.can_open;
    let mut warnings: Vec<String> = Vec::new();
    if metadata_only {
        warnings.push(string_of(&chars_of("Protected path - metadata only scan")));
    }
    assert(strs(warnings@) =~= (if metadata_only { seq!["Protected path - metadata only scan"@] } else { Seq::<Seq<char>>::empty() }));
    let sampled = should_sample_content(content_aware, metadata_only, readable, facts.is_file, facts.size_bytes);
    let with_context = should_profile_context(content_aware, metadata_only, facts.is_dir);
    let is_member = project_root.is_some();
    FileMetadata {
        path: string_of(&pc),
        filename,
        extension,
        mime,
        size_bytes: facts.size_bytes,
        modified_at: facts.modified_at,
        is_dir: facts.is_dir,
        is_file: facts.is_file,
        is_symlink: facts.is_symlink,
        is_hidden,
        is_project_member: is_member,
        project_root,
        source_zone: Some(zone),
        readable,
        content_sampled: sampled,
        metadata_only,
        protected_reason: protected,
        warnings,
        content: if sampled { content } else { None },
        context: if with_context { context } else { None },
        status: if facts.is_symlink { FileStatus::Ignored } else { FileStatus::Analyzed },
    }
}

/// Anything under an `.ssh`, `.gnupg` or `.config` folder (in any case) is
/// protected, whatever else the path holds.
pub proof fn lemma_secret_folders_protected(p: Seq<char>)
    ensures
        has_sub(lowercase(p), "/.ssh"@) || has_sub(lowercase(p), "/.gnupg"@) || has_sub(lowercase(p), "/.config"@)
            ==> protected_reason(p) is Some,
{
}

} // verus!
