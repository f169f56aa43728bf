use dotman::error::DotmanError;
use dotman::layout::{join_path, Layout, DEFAULT_STORE};
use dotman::name::{derive_repo_name, infer_repo_name};

#[test]
fn name_ignores_trailing_decorations() {
    assert_eq!(derive_repo_name("https://example.com/x/foo.git"), "foo");
    assert_eq!(derive_repo_name("https://example.com/x/foo.git/"), "foo");
    assert_eq!(derive_repo_name("https://example.com/x/foo"), "foo");
    assert_eq!(derive_repo_name("https://example.com/x/foo/"), "foo");
}

#[test]
fn name_of_empty_and_slashes_is_invalid() {
    assert_eq!(derive_repo_name(""), "");
    assert_eq!(derive_repo_name("///"), "");
    assert_eq!(infer_repo_name(""), Err(DotmanError::InvalidRepoUrl));
    assert_eq!(infer_repo_name("///"), Err(DotmanError::InvalidRepoUrl));
}

#[test]
fn name_strips_one_suffix_only() {
    assert_eq!(derive_repo_name("https://example.com/foo.git.git"), "foo.git");
    assert_eq!(derive_repo_name("https://example.com/foo//"), "");
    assert_eq!(derive_repo_name(".git"), "");
}

#[test]
fn name_without_slash_is_whole_url() {
    assert_eq!(derive_repo_name("hygo-nvim"), "hygo-nvim");
    assert_eq!(derive_repo_name("git@github.com:me/dots.git"), "dots");
    assert_eq!(infer_repo_name("https://github.com/me/hygo-nvim"), Ok("hygo-nvim".to_string()));
}

#[test]
fn name_keeps_non_ascii() {
    assert_eq!(derive_repo_name("https://example.com/ünï/çfg.git"), "çfg");
}

#[test]
fn join_adds_one_separator() {
    assert_eq!(join_path("/a/b", "c"), "/a/b/c");
    assert_eq!(join_path("/a/b/", "c"), "/a/b/c");
    assert_eq!(join_path("", "c"), "/c");
}

#[test]
fn layout_from_home() {
    let l = Layout::new(DEFAULT_STORE, Some("/home/u")).unwrap();
    assert_eq!(l.store, "/usr/local/share/dotman");
    assert_eq!(l.config, "/home/u/.config");
    assert_eq!(l.repo_path("nvim-cfg"), "/usr/local/share/dotman/nvim-cfg");
    assert_eq!(l.link_target("nvim"), "/home/u/.config/nvim");
    let l = Layout::new("/tmp/store/", Some("/root/")).unwrap();
    assert_eq!(l.config, "/root/.config");
    assert_eq!(l.repo_path("x"), "/tmp/store/x");
}

#[test]
fn layout_without_home_fails() {
    assert!(matches!(Layout::new("/s", None), Err(DotmanError::NoHomeDirectory)));
}

#[test]
fn valid_inputs_succeed() {
    assert_eq!(infer_repo_name("https://example.com/x/foo.git/"), Ok("foo".to_string()));
    assert!(Layout::new("/s", Some("/h")).is_ok());
}
