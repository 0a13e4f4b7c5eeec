//! Scan results and the bookkeeping of a scan: counts, totals, project
//! candidates and the records of skipped files.
use vstd::prelude::*;
use crate::metadata::{FileMetadata, FileStatus};
use crate::project::{calculate_project_risk, classify_project, ProjectCandidate};
use crate::ignore::{ignore_file, is_secret_file, secret_file, should_ignore_file_options};
use crate::metadata::{hidden, is_hidden_path, protected_reason, source_zone};
use crate::paths::{file_name, file_name_exec, normals, normals_exec};
use crate::taxonomy::opt_str;
use crate::text::{append, append_lit, chars_of, contains, contains_lit, eq_lit, has_sub, ends, lower_chars, lowercase, string_of, strs, vviews};

verus! {

/// The result of one scan of the home.
#[derive(Debug)]
pub struct ScanResult {
    pub run_id: String,
    /// RFC 3339 timestamp of the scan.
    pub timestamp: String,
    pub home_dir: String,
    pub dirs_scanned: Vec<String>,
    pub files: Vec<FileMetadata>,
    pub projects: Vec<ProjectCandidate>,
    pub files_analyzed: usize,
    pub files_ignored: usize,
    pub files_error: usize,
    pub total_size_bytes: u64,
    pub warnings: Vec<String>,
    pub full_home: bool,
    pub schema_version: String,
    pub denied_count: usize,
    pub skipped_count: usize,
    pub protected_count: usize,
    pub inbox_count: usize,
    pub project_count: usize,
}

/// The folders of the home scanned in the standard mode (only the inbox
/// folders with `inbox_only`).
pub open spec fn scan_targets_spec(inbox_only: bool) -> Seq<Seq<char>> {
    if inbox_only {
        seq!["Downloads"@, "Desktop"@, "Área de Trabalho"@]
    } else {
        seq![
            "Downloads"@, "Documentos"@, "Imagens"@, "Vídeos"@, "Músicas"@, "Área de Trabalho"@, "Desktop"@,
            "Pictures"@, "Videos"@, "Music"@, "Documents"@, "Projects"@, "Projetos"@,
        ]
    }
}

fn strings_of(items: &[&str]) -> (r: Vec<String>)
    ensures
        strs(r@) == items@.map_values(|k: &str| k@),
{
    let mut out: Vec<String> = Vec::new();
    let mut i: usize = 0;
    while i < items.len()
        invariant
            i <= items@.len(),
            strs(out@) == items@.subrange(0, i as int).map_values(|k: &str| k@),
        decreases items@.len() - i,
    {
        let ghost before = out@;
        out.push(string_of(&chars_of(items[i])));
        assert(strs(out@) =~= strs(before).push(items@[i as int]@));
        assert(items@.subrange(0, i + 1).map_values(|k: &str| k@) =~= items@.subrange(0, i as int).map_values(|k: &str| k@).push(items@[i as int]@));
        i += 1;
    }
    assert(items@.subrange(0, i as int) =~= items@);
    out
}

/// The folders of the home to scan.
pub fn scan_targets(inbox_only: bool) -> (r: Vec<String>)
    ensures
        strs(r@) == scan_targets_spec(inbox_only),
{
    if inbox_only {
        let items: [&str; 3] = ["Downloads", "Desktop", "Área de Trabalho"];
        let r = strings_of(&items);
        assert(strs(r@) =~= scan_targets_spec(inbox_only));
        r
    } else {
        let items: [&str; 13] = [
            "Downloads", "Documentos", "Imagens", "Vídeos", "Músicas", "Área de Trabalho", "Desktop", "Pictures", "Videos",
            "Music", "Documents", "Projects", "Projetos",
        ];
        let r = strings_of(&items);
        assert(strs(r@) =~= scan_targets_spec(inbox_only));
        r
    }
}

/// The identifier of a run: its time stamp and the host's name.
pub fn generate_run_id(stamp: &str, host: &str) -> (r: String)
    ensures
        r@ == stamp@ + "-"@ + host@,
{
    let mut v = chars_of(stamp);
    append_lit(&mut v, "-");
    append(&mut v, &chars_of(host));
    string_of(&v)
}

/// The scanner records a file without reading it: ignored files in any mode,
/// and secret files in the standard mode.
pub open spec fn file_skipped(path: Seq<char>, full_home: bool) -> bool {
    ignore_file(path, full_home) || (!full_home && secret_file(path))
}

/// Whether the scanner records `path` without reading it.
pub fn is_file_skipped(path: &str, full_home: bool) -> (b: bool)
    ensures
        b == file_skipped(path@, full_home),
{
    should_ignore_file_options(path, full_home) || (!full_home && is_secret_file(path))
}

/// The record of a file the scanner did not read.
pub fn ignored_file_record(path: &str, is_symlink: bool) -> (m: FileMetadata)
    ensures
        m.path@ == path@,
        m.filename@ == (match file_name(path@) { Some(n) => n, None => Seq::empty() }),
        m.extension@ == Seq::<char>::empty(),
        m.mime@ == Seq::<char>::empty(),
        m.size_bytes == 0,
        m.modified_at is None,
        !m.is_dir && m.is_file && m.is_symlink == is_symlink,
        m.is_hidden == hidden(path@),
        !m.is_project_member && m.project_root is None,
        opt_str(m.source_zone) == Some("unknown"@),
        !m.readable && !m.content_sampled && m.metadata_only,
        opt_str(m.protected_reason) == Some("Ignored or secret file"@),
        strs(m.warnings@) == seq!["Ignored or secret file"@],
        m.content is None && m.context is None,
        m.status == FileStatus::Ignored,
{
    let filename = match file_name_exec(&chars_of(path)) {
        Some(n) => string_of(&n),
        None => string_of(&Vec::new()),
    };
    let mut warnings: Vec<String> = Vec::new();
    warnings.push(string_of(&chars_of("Ignored or secret file")));
    assert(strs(warnings@) =~= seq!["Ignored or secret file"@]);
    FileMetadata {
        path: string_of(&chars_of(path)),
        filename,
        extension: string_of(&Vec::new()),
        mime: string_of(&Vec::new()),
        size_bytes: 0,
        modified_at: None,
        is_dir: false,
        is_file: true,
        is_symlink,
        is_hidden: is_hidden_path(path),
        is_project_member: false,
        project_root: None,
        source_zone: Some(string_of(&chars_of("unknown"))),
        readable: false,
        content_sampled: false,
        metadata_only: true,
        protected_reason: Some(string_of(&chars_of("Ignored or secret file"))),
        warnings,
        content: None,
        context: None,
        status: FileStatus::Ignored,
    }
}

/// A metadata-only scan: nothing of the file's content is kept.
pub fn force_metadata_only(m: &mut FileMetadata)
    ensures
        final(m).metadata_only,
        !final(m).content_sampled,
        opt_str(final(m).protected_reason) == Some("Forced metadata-only scan"@),
        *final(m) == (FileMetadata {
            metadata_only: final(m).metadata_only,
            content_sampled: final(m).content_sampled,
            protected_reason: final(m).protected_reason,
            ..*old(m)
        }),
{
    m.metadata_only = true;
    m.content_sampled = false;
    m.protected_reason = Some(string_of(&chars_of("Forced metadata-only scan")));
}

/// A project found outside the folders where projects belong.
pub open spec fn non_ideal_place(path: Seq<char>) -> bool {
    let l = lowercase(path);
    has_sub(l, "/downloads/"@) || has_sub(l, "/music/"@) || has_sub(l, "/músicas/"@) || has_sub(l, "/pictures/"@)
        || has_sub(l, "/imagens/"@) || has_sub(l, "/videos/"@) || has_sub(l, "/vídeos/"@)
        || has_sub(l, "/área de trabalho/"@) || has_sub(l, "/desktop/"@)
}

/// The risk and review flag of a project at `path`: those of its markers,
/// raised for a project out of place (medium at least, high with Git).
pub open spec fn placed_risk(path: Seq<char>, markers: Seq<Seq<char>>) -> (Seq<char>, bool) {
    let base = if markers.contains(".obsidian"@) || markers.contains(".git"@) { ("high"@, true) } else { ("medium"@, false) };
    if non_ideal_place(path) {
        let r1 = if base.0 == "low"@ { "medium"@ } else { base.0 };
        (if markers.contains(".git"@) { "high"@ } else { r1 }, true)
    } else {
        base
    }
}

/// The candidate for a project rooted at `path` with these markers, of the
/// given total size and file count.
pub fn project_candidate(path: &str, markers: Vec<String>, size: u64, count: usize) -> (p: ProjectCandidate)
    requires
        file_name(path@) is Some,
    ensures
        p.root_path@ == path@,
        p.name@ == file_name(path@)->0,
        strs(p.markers@) == strs(markers@),
        (p.category_id@, p.reason@) == crate::project::project_class(file_name(path@)->0, strs(markers@)),
        (p.risk@, p.needs_review) == placed_risk(path@, strs(markers@)),
        p.total_size_bytes == size,
        p.file_count == count,
        strs(p.warnings@) == (if non_ideal_place(path@) { seq!["Projeto detectado em diretório não ideal"@] } else { Seq::empty() }),
{
    let name_v = match file_name_exec(&chars_of(path)) {
        Some(n) => n,
        None => Vec::new(),
    };
    let name = string_of(&name_v);
    let (category_id, reason) = classify_project(name.as_str(), &markers);
    let (mut risk, mut needs_review) = calculate_project_risk(&markers);
    let mut warnings: Vec<String> = Vec::new();
    let l = lower_chars(path);
    let non_ideal = contains_lit(&l, "/downloads/") || contains_lit(&l, "/music/") || contains_lit(&l, "/músicas/")
        || contains_lit(&l, "/pictures/") || contains_lit(&l, "/imagens/") || contains_lit(&l, "/videos/")
        || contains_lit(&l, "/vídeos/") || contains_lit(&l, "/área de trabalho/") || contains_lit(&l, "/desktop/");
    if non_ideal {
        warnings.push(string_of(&chars_of("Projeto detectado em diretório não ideal")));
        needs_review = true;
        let rc = chars_of(risk.as_str());
        if eq_lit(&rc, "low") {
            risk = string_of(&chars_of("medium"));
        }
        let git = chars_of(".git");
        if crate::taxonomy::strs_contains(&markers, &git) {
            risk = string_of(&chars_of("high"));
        }
    }
    assert(strs(warnings@) =~= (if non_ideal_place(path@) { seq!["Projeto detectado em diretório não ideal"@] } else { Seq::<Seq<char>>::empty() }));
    ProjectCandidate {
        root_path: string_of(&chars_of(path)),
        name,
        markers,
        category_id,
        total_size_bytes: size,
        file_count: count,
        risk,
        needs_review,
        reason,
        warnings,
    }
}

/// A file of a project that the project's size statistics leave out: it lies
/// in (or is) a dependency, build or metadata folder.
pub open spec fn skipped_in_stats(path: Seq<char>) -> bool {
    exists|k: int| 0 <= k < crate::project::ignored_dirs().len() && {
        let d = #[trigger] crate::project::ignored_dirs()[k];
        has_sub(path, "/"@ + d + "/"@) || ends(path, "/"@ + d)
    }
}

/// Whether the project statistics leave `path` out.
pub fn skip_in_project_stats(path: &str) -> (b: bool)
    ensures
        b == skipped_in_stats(path@),
{
    let p = chars_of(path);
    let dirs: [&str; 11] = ["build", "dist", "target", "node_modules", ".venv", "__pycache__", "localpycs", ".git", "vendor", "result", ".obsidian"];
    let ghost ds = crate::project::ignored_dirs();
    assert(dirs@.map_values(|k: &str| k@) =~= ds);
    let mut i: usize = 0;
    while i < 11
        invariant
            i <= 11,
            ds == crate::project::ignored_dirs(),
            dirs@.map_values(|k: &str| k@) == ds,
            forall|k: int| 0 <= k < i ==> !{
                let d = #[trigger] ds[k];
                has_sub(p@, "/"@ + d + "/"@) || ends(p@, "/"@ + d)
            },
            p@ == path@,
        decreases 11 - i,
    {
        let d = chars_of(dirs[i]);
        assert(d@ == ds[i as int]);
        let mut mid = chars_of("/");
        append(&mut mid, &d);
        let mut end = mid.clone();
        append_lit(&mut mid, "/");
        proof { reveal_strlit("/"); }
        assert(mid@ == "/"@ + ds[i as int] + "/"@);
        assert(end@ == "/"@ + ds[i as int]);
        if contains(&p, &mid) || crate::text::ends_with(&p, &end) {
            return true;
        }
        i += 1;
    }
    false
}

/// How many records have the status `st`.
pub open spec fn count_status(fs: Seq<FileMetadata>, st: FileStatus) -> nat
    decreases fs.len(),
{
    if fs.len() == 0 {
        0
    } else {
        count_status(fs.drop_last(), st) + if fs.last().status == st { 1nat } else { 0nat }
    }
}

/// The total size of the analyzed files.
pub open spec fn analyzed_size(fs: Seq<FileMetadata>) -> nat
    decreases fs.len(),
{
    if fs.len() == 0 {
        0
    } else {
        analyzed_size(fs.drop_last()) + if fs.last().status == FileStatus::Analyzed { fs.last().size_bytes as nat } else { 0nat }
    }
}

/// The total size of the projects.
pub open spec fn projects_size(ps: Seq<ProjectCandidate>) -> nat
    decreases ps.len(),
{
    if ps.len() == 0 {
        0
    } else {
        projects_size(ps.drop_last()) + ps.last().total_size_bytes as nat
    }
}

/// A path in one of the inbox folders.
pub open spec fn in_inbox(path: Seq<char>) -> bool {
    exists|i: int| 0 <= i < normals(path).len() && {
        let n = #[trigger] normals(path)[i];
        n == "Downloads"@ || n == "Desktop"@ || n == "Área de Trabalho"@
    }
}

/// How many records satisfy the path predicate: inbox paths (`kind` 0) or secret files (otherwise).
pub open spec fn count_paths(fs: Seq<FileMetadata>, kind: int) -> nat
    decreases fs.len(),
{
    if fs.len() == 0 {
        0
    } else {
        let p = fs.last().path@;
        count_paths(fs.drop_last(), kind) + if (if kind == 0 { in_inbox(p) } else { secret_file(p) }) { 1nat } else { 0nat }
    }
}

proof fn lemma_counts_bounded(fs: Seq<FileMetadata>)
    ensures
        count_status(fs, FileStatus::Analyzed) <= fs.len(),
        count_status(fs, FileStatus::Ignored) <= fs.len(),
        count_status(fs, FileStatus::Error) <= fs.len(),
        count_paths(fs, 0) <= fs.len(),
        count_paths(fs, 1) <= fs.len(),
    decreases fs.len(),
{
    if fs.len() > 0 {
        lemma_counts_bounded(fs.drop_last());
    }
}

proof fn lemma_analyzed_size_mono(fs: Seq<FileMetadata>, i: int)
    requires
        0 <= i <= fs.len(),
    ensures
        analyzed_size(fs.subrange(0, i)) <= analyzed_size(fs),
    decreases fs.len() - i,
{
    if i < fs.len() {
        lemma_analyzed_size_mono(fs, i + 1);
        assert(fs.subrange(0, i + 1).drop_last() =~= fs.subrange(0, i));
    } else {
        assert(fs.subrange(0, i) =~= fs);
    }
}

proof fn lemma_projects_size_mono(ps: Seq<ProjectCandidate>, i: int)
    requires
        0 <= i <= ps.len(),
    ensures
        projects_size(ps.subrange(0, i)) <= projects_size(ps),
    decreases ps.len() - i,
{
    if i < ps.len() {
        lemma_projects_size_mono(ps, i + 1);
        assert(ps.subrange(0, i + 1).drop_last() =~= ps.subrange(0, i));
    } else {
        assert(ps.subrange(0, i) =~= ps);
    }
}

fn in_inbox_exec(path: &String) -> (b: bool)
    ensures
        b == in_inbox(path@),
{
    let ns = normals_exec(&chars_of(path.as_str()));
    let mut i: usize = 0;
    while i < ns.len()
        invariant
            i <= ns@.len(),
            vviews(ns@) == normals(path@),
            forall|k: int| 0 <= k < i ==> !{
                let n = #[trigger] normals(path@)[k];
                n == "Downloads"@ || n == "Desktop"@ || n == "Área de Trabalho"@
            },
        decreases ns@.len() - i,
    {
        let n = &ns[i];
        assert(n@ == normals(path@)[i as int]);
        if eq_lit(n, "Downloads") || eq_lit(n, "Desktop") || eq_lit(n, "Área de Trabalho") {
            return true;
        }
        i += 1;
    }
    false
}

/// The result of a scan from what the walk collected: the counts by status,
/// the total size of the analyzed files and of the projects, the files in the
/// inbox folders and the secret files. The total must fit in 64 bits.
pub fn finish_scan(
    run_id: String,
    timestamp: String,
    home_dir: String,
    dirs_scanned: Vec<String>,
    files: Vec<FileMetadata>,
    projects: Vec<ProjectCandidate>,
    warnings: Vec<String>,
    full_home: bool,
) -> (s: ScanResult)
    requires
        analyzed_size(files@) + projects_size(projects@) <= u64::MAX,
    ensures
        s.run_id == run_id,
        s.timestamp == timestamp,
        s.home_dir == home_dir,
        s.dirs_scanned == dirs_scanned,
        s.files == files,
        s.projects == projects,
        s.warnings == warnings,
        s.full_home == full_home,
        s.schema_version@ == "1.0"@,
        s.files_analyzed == count_status(files@, FileStatus::Analyzed),
        s.files_ignored == count_status(files@, FileStatus::Ignored),
        s.files_error == count_status(files@, FileStatus::Error),
        s.total_size_bytes == analyzed_size(files@) + projects_size(projects@),
        s.project_count == projects@.len(),
        s.inbox_count == count_paths(files@, 0),
        s.protected_count == count_paths(files@, 1),
        s.denied_count == s.files_error,
        s.skipped_count == s.files_ignored,
{
    let mut analyzed: usize = 0;
    let mut ignored: usize = 0;
    let mut errors: usize = 0;
    let mut inbox: usize = 0;
    let mut secret: usize = 0;
    let mut total: u64 = 0;
    let mut i: usize = 0;
    while i < files.len()
        invariant
            i <= files@.len(),
            analyzed_size(files@) + projects_size(projects@) <= u64::MAX,
            analyzed == count_status(files@.subrange(0, i as int), FileStatus::Analyzed),
            ignored == count_status(files@.subrange(0, i as int), FileStatus::Ignored),
            errors == count_status(files@.subrange(0, i as int), FileStatus::Error),
            inbox == count_paths(files@.subrange(0, i as int), 0),
            secret == count_paths(files@.subrange(0, i as int), 1),
            total == analyzed_size(files@.subrange(0, i as int)),
        decreases files@.len() - i,
    {
        proof {
            assert(files@.subrange(0, i + 1).drop_last() =~= files@.subrange(0, i as int));
            lemma_counts_bounded(files@.subrange(0, i as int));
            lemma_analyzed_size_mono(files@, i + 1);
        }
        let f = &files[i];
        match f.status {
            FileStatus::Analyzed => {
                analyzed += 1;
                total = total + f.size_bytes;
            },
            FileStatus::Ignored => {
                ignored += 1;
            },
            FileStatus::Error => {
                errors += 1;
            },
        }
        if in_inbox_exec(&f.path) {
            inbox += 1;
        }
        if is_secret_file(f.path.as_str()) {
            secret += 1;
        }
        i += 1;
    }
    assert(files@.subrange(0, i as int) =~= files@);
    let mut j: usize = 0;
    while j < projects.len()
        invariant
            j <= projects@.len(),
            analyzed_size(files@) + projects_size(projects@) <= u64::MAX,
            total == analyzed_size(files@) + projects_size(projects@.subrange(0, j as int)),
        decreases projects@.len() - j,
    {
        proof {
            assert(projects@.subrange(0, j + 1).drop_last() =~= projects@.subrange(0, j as int));
            lemma_projects_size_mono(projects@, j + 1);
        }
        total = total + projects[j].total_size_bytes;
        j += 1;
    }
    assert(projects@.subrange(0, j as int) =~= projects@);
    let project_count = projects.len();
    ScanResult {
        run_id,
        timestamp,
        home_dir,
        dirs_scanned,
        files,
        projects,
        files_analyzed: analyzed,
        files_ignored: ignored,
        files_error: errors,
        total_size_bytes: total,
        warnings,
        full_home,
        schema_version: string_of(&chars_of("1.0")),
        denied_count: errors,
        skipped_count: ignored,
        protected_count: secret,
        inbox_count: inbox,
        project_count,
    }
}

/// The standard scan covers the inbox folders and, each named exactly, the
/// home's document, media and project folders in both languages; the inbox
/// scan covers only the downloads and desktop folders.
pub proof fn lemma_scan_targets()
    ensures
        ({
            let t = scan_targets_spec(false);
            &&& t.len() == 13
            &&& t.contains("Downloads"@) && t.contains("Desktop"@) && t.contains("Área de Trabalho"@)
            &&& t.contains("Documentos"@) && t.contains("Documents"@)
            &&& t.contains("Imagens"@) && t.contains("Pictures"@)
            &&& t.contains("Vídeos"@) && t.contains("Videos"@)
            &&& t.contains("Músicas"@) && t.contains("Music"@)
            &&& t.contains("Projetos"@) && t.contains("Projects"@)
        }),
        scan_targets_spec(true).len() == 3,
        forall|k: int| 0 <= k < scan_targets_spec(true).len() ==> scan_targets_spec(false).contains(
            #[trigger] scan_targets_spec(true)[k],
        ),
{
    let t = scan_targets_spec(false);
    assert(t[0] == "Downloads"@ && t[1] == "Documentos"@ && t[2] == "Imagens"@ && t[3] == "Vídeos"@);
    assert(t[4] == "Músicas"@ && t[5] == "Área de Trabalho"@ && t[6] == "Desktop"@ && t[7] == "Pictures"@);
    assert(t[8] == "Videos"@ && t[9] == "Music"@ && t[10] == "Documents"@ && t[11] == "Projects"@);
    assert(t[12] == "Projetos"@);
    let i = scan_targets_spec(true);
    assert(i[0] == t[0] && i[1] == t[6] && i[2] == t[5]);
}

} // verus!
