use cpm::utils::file::operation::{get_file_name, get_repo_name};
use cpm::utils::path::operation::{base_path, expand_home};

#[test]
fn repo_name_of_git_url() {
    assert_eq!(get_repo_name("https://github.com/user/repo.git"), "repo");
}

#[test]
fn repo_name_without_suffix() {
    assert_eq!(get_repo_name("https://github.com/user/repo"), "repo");
}

#[test]
fn repo_name_trims_every_git_suffix() {
    assert_eq!(get_repo_name("https://example.com/a/lib.git.git"), "lib");
}

#[test]
fn repo_name_without_slash_is_whole_url() {
    assert_eq!(get_repo_name("mylib.git"), "mylib");
}

#[test]
fn repo_name_of_trailing_slash_is_empty() {
    assert_eq!(get_repo_name("https://host/user/"), "");
}

#[test]
fn repo_name_has_no_slash() {
    for url in ["a/b/c", "/x/", "x.git/y.git", "", ".git"] {
        assert!(!get_repo_name(url).contains('/'));
    }
}

#[test]
fn file_name_of_source() {
    assert_eq!(get_file_name("/project/src/main.cpp"), "_src_main");
}

#[test]
fn file_name_of_nested_source() {
    assert_eq!(get_file_name("/p/src/util/math.test.cpp"), "_src_util_math.test");
}

#[test]
fn file_name_without_src_is_empty() {
    assert_eq!(get_file_name("/project/lib/main.cpp"), "");
}

#[test]
fn file_name_without_extension() {
    assert_eq!(get_file_name("/p/src/Makefile"), "_src_Makefile");
}

#[test]
fn file_name_uses_first_src() {
    assert_eq!(get_file_name("/a/src/b/src/c.cpp"), "_src_b_src_c");
}

#[test]
fn base_path_of_source() {
    assert_eq!(base_path("/project/src/main.cpp"), "/project");
}

#[test]
fn base_path_uses_last_src() {
    assert_eq!(base_path("/a/src/b/src/c.cpp"), "/a/src/b");
}

#[test]
fn base_path_without_src_is_empty() {
    assert_eq!(base_path("/project/main.cpp"), "");
}

#[test]
fn expand_home_leaves_plain_paths() {
    assert_eq!(expand_home("/tmp/cpm.toml"), "/tmp/cpm.toml");
    assert_eq!(expand_home("~user/x"), "~user/x");
    assert_eq!(expand_home("a~/b"), "a~/b");
}

#[test]
fn expand_home_replaces_tilde() {
    let r = expand_home("~/some/dir");
    assert!(r.ends_with("/some/dir"));
    assert_ne!(r, "~/some/dir");
}
