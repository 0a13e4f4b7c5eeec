use kryonix_home::ignore::{is_secret_file, should_ignore_dir, should_ignore_dir_options, should_ignore_file, should_ignore_file_options};

#[test]
fn test_early_pruning_directories() {
    for mode in &[false, true] {
        assert!(should_ignore_dir_options("/home/user/.cache", *mode));
        assert!(should_ignore_dir_options("/home/user/.config", *mode));
        assert!(should_ignore_dir_options("/home/user/.local", *mode));
        assert!(should_ignore_dir_options("/home/user/.ssh", *mode));
        assert!(should_ignore_dir_options("/home/user/.gnupg", *mode));
        assert!(should_ignore_dir_options("/home/user/.git", *mode));
        assert!(should_ignore_dir_options("/home/user/node_modules", *mode));
        assert!(should_ignore_dir_options("/home/user/target", *mode));
        assert!(should_ignore_dir_options("/home/user/__pycache__", *mode));
    }
}

#[test]
fn test_hidden_directories_modes() {
    assert!(should_ignore_dir_options("/home/user/.custom_hidden", false));
    assert!(!should_ignore_dir_options("/home/user/.custom_hidden", true));
}

#[test]
fn test_is_secret_file() {
    assert!(is_secret_file("/home/user/.env"));
    assert!(is_secret_file("/home/user/id_rsa"));
    assert!(is_secret_file("/home/user/id_ed25519"));
    assert!(is_secret_file("/home/user/key.pem"));
    assert!(is_secret_file("/home/user/token.secret"));
    assert!(!is_secret_file("/home/user/notes.txt"));
    assert!(!is_secret_file("/home/user/invoice.pdf"));
}

#[test]
fn standard_mode_skips_what_full_home_skips() {
    for p in ["/home/user/.cache", "/home/user/Documents", "/home/user/.hidden", "/home/user/node_modules"] {
        if should_ignore_dir_options(p, true) {
            assert!(should_ignore_dir_options(p, false));
        }
    }
    assert_eq!(should_ignore_dir("/home/user/.custom_hidden"), should_ignore_dir_options("/home/user/.custom_hidden", false));
    assert_eq!(should_ignore_file("/home/user/a.txt"), should_ignore_file_options("/home/user/a.txt", false));
}

#[test]
fn regular_documents_are_not_ignored() {
    assert!(!should_ignore_dir_options("/home/user/Documents", false));
    assert!(!should_ignore_dir_options("/home/user/Downloads", true));
}
