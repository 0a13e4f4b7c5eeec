//! What the scanner skips: pruned directories, hidden files and secret files.
use vstd::prelude::*;
use crate::paths::{file_name, file_name_exec};
use crate::text::{chars_of, ends, ends_lit, eq_lit, starts, starts_lit};

verus! {

/// Directories pruned in every mode (caches, configuration, dependencies, build output).
pub open spec fn always_pruned(n: Seq<char>) -> bool {
    n == ".cache"@ || n == ".config"@ || n == ".local"@ || n == ".mozilla"@ || n == ".var"@
        || n == ".cargo"@ || n == ".rustup"@ || n == ".ssh"@ || n == ".gnupg"@ || n
        == "node_modules"@ || n == "target"@ || n == ".git"@ || n == ".venv"@ || n
        == "__pycache__"@ || n == "result"@ || starts(n, "result-"@) || n == ".direnv"@ || n
        == "nix"@
}

/// The list of ignored directory names.
pub open spec fn listed_dir(n: Seq<char>) -> bool {
    n == ".config"@ || n == ".local"@ || n == ".cache"@ || n == ".ssh"@ || n == ".gnupg"@ || n
        == ".mozilla"@ || n == ".thunderbird"@ || n == ".var"@ || n == ".nix-profile"@ || n
        == ".nix-defexpr"@ || n == "node_modules"@ || n == "__pycache__"@ || n == ".venv"@ || n
        == "target"@ || n == "result"@ || n == ".direnv"@
}

pub open spec fn dot_name(n: Seq<char>) -> bool {
    n.len() > 0 && n[0] == '.'
}

/// The scanner does not descend into the directory `p`.
pub open spec fn ignore_dir(p: Seq<char>, full_home: bool) -> bool {
    match file_name(p) {
        None => true,
        Some(n) => always_pruned(n) || (!full_home && (dot_name(n) || listed_dir(n))),
    }
}

/// The scanner does not inventory the file `p`.
pub open spec fn ignore_file(p: Seq<char>, full_home: bool) -> bool {
    match file_name(p) {
        None => true,
        Some(n) => !full_home && dot_name(n),
    }
}

/// Names of secret files.
pub open spec fn secret_name(n: Seq<char>) -> bool {
    n == ".env"@ || n == "brain.env"@ || n == "neo4j.env"@ || n == "id_ed25519"@ || n == "id_rsa"@
        || n == "id_ecdsa"@ || ends(n, ".key"@) || ends(n, ".pem"@) || ends(n, ".secret"@) || ends(
        n,
        ".token"@,
    )
}

/// `p` is a secret and is never read.
pub open spec fn secret_file(p: Seq<char>) -> bool {
    match file_name(p) {
        None => true,
        Some(n) => secret_name(n),
    }
}

/// Whether the scanner skips the directory `path` (standard mode).
pub fn should_ignore_dir(path: &str) -> (b: bool)
    ensures
        b == ignore_dir(path@, false),
{
    should_ignore_dir_options(path, false)
}

/// Whether the scanner skips the directory `path`. Caches, configuration,
/// keys, dependency and build directories are pruned in every mode; in the
/// standard mode every hidden directory is pruned too.
pub fn should_ignore_dir_options(path: &str, full_home: bool) -> (b: bool)
    ensures
        b == ignore_dir(path@, full_home),
{
    let p = chars_of(path);
    let n = match file_name_exec(&p) {
        Some(n) => n,
        None => return true,
    };
    if eq_lit(&n, ".cache") || eq_lit(&n, ".config") || eq_lit(&n, ".local") || eq_lit(&n, ".mozilla")
        || eq_lit(&n, ".var") || eq_lit(&n, ".cargo") || eq_lit(&n, ".rustup") || eq_lit(&n, ".ssh")
        || eq_lit(&n, ".gnupg") || eq_lit(&n, "node_modules") || eq_lit(&n, "target") || eq_lit(&n, ".git")
        || eq_lit(&n, ".venv") || eq_lit(&n, "__pycache__") || eq_lit(&n, "result") || starts_lit(&n, "result-")
        || eq_lit(&n, ".direnv") || eq_lit(&n, "nix") {
        return true;
    }
    if full_home {
        return false;
    }
    if n.len() > 0 && n[0] == '.' {
        return true;
    }
    eq_lit(&n, ".config") || eq_lit(&n, ".local") || eq_lit(&n, ".cache") || eq_lit(&n, ".ssh")
        || eq_lit(&n, ".gnupg") || eq_lit(&n, ".mozilla") || eq_lit(&n, ".thunderbird") || eq_lit(&n, ".var")
        || eq_lit(&n, ".nix-profile") || eq_lit(&n, ".nix-defexpr") || eq_lit(&n, "node_modules")
        || eq_lit(&n, "__pycache__") || eq_lit(&n, ".venv") || eq_lit(&n, "target") || eq_lit(&n, "result")
        || eq_lit(&n, ".direnv")
}

/// Whether the scanner skips the file `path` (standard mode).
pub fn should_ignore_file(path: &str) -> (b: bool)
    ensures
        b == ignore_file(path@, false),
{
    should_ignore_file_options(path, false)
}

/// Whether the scanner skips the file `path`: hidden files in the standard
/// mode; nothing with a name in the full-home mode.
pub fn should_ignore_file_options(path: &str, full_home: bool) -> (b: bool)
    ensures
        b == ignore_file(path@, full_home),
{
    let p = chars_of(path);
    let n = match file_name_exec(&p) {
        Some(n) => n,
        None => return true,
    };
    if full_home {
        return false;
    }
    n.len() > 0 && n[0] == '.'
}

/// Whether `path` is a secret file (environment files, private keys, tokens).
pub fn is_secret_file(path: &str) -> (b: bool)
    ensures
        b == secret_file(path@),
{
    let p = chars_of(path);
    let n = match file_name_exec(&p) {
        Some(n) => n,
        None => return true,
    };
    eq_lit(&n, ".env") || eq_lit(&n, "brain.env") || eq_lit(&n, "neo4j.env") || eq_lit(&n, "id_ed25519")
        || eq_lit(&n, "id_rsa") || eq_lit(&n, "id_ecdsa") || ends_lit(&n, ".key") || ends_lit(&n, ".pem")
        || ends_lit(&n, ".secret") || ends_lit(&n, ".token")
}

/// The standard mode prunes every directory the full-home mode prunes, and
/// skips every file the full-home mode skips.
pub proof fn lemma_standard_mode_is_stricter(p: Seq<char>)
    ensures
        ignore_dir(p, true) ==> ignore_dir(p, false),
        ignore_file(p, true) ==> ignore_file(p, false),
{
}

/// In the standard mode no hidden directory or hidden file is scanned.
pub proof fn lemma_hidden_never_scanned(p: Seq<char>)
    requires
        file_name(p) matches Some(n) && dot_name(n),
    ensures
        ignore_dir(p, false),
        ignore_file(p, false),
{
}

} // verus!
