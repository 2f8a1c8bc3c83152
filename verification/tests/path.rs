use zprs::path::{pwd, truncate_path};

#[test]
fn home_becomes_a_tilde_and_levels_shrink() {
    assert_eq!(truncate_path("/home/ada/work/personal/tico", Some("/home/ada")), "~/w/p/tico");
    assert_eq!(truncate_path("/home/ada", Some("/home/ada")), "~");
    assert_eq!(truncate_path("/srv/.config/htop", Some("/home/ada")), "/s/.c/htop");
}

#[test]
fn last_level_is_kept_whole() {
    assert_eq!(truncate_path("/usr/local/share", Some("/home/ada")), "/u/l/share");
    assert_eq!(truncate_path("/", Some("/home/ada")), "/");
}

#[test]
fn shortening_a_short_form_changes_nothing() {
    let once = truncate_path("/home/ada/work/personal/tico", Some("/home/ada"));
    assert_eq!(truncate_path(&once, Some("/home/ada")), once);
    let once = truncate_path("/usr/local/share", Some("/home/ada"));
    assert_eq!(truncate_path(&once, Some("/home/ada")), once);
}

#[test]
fn without_a_home_the_path_is_shown_as_it_is() {
    assert_eq!(truncate_path("/home/ada/work", None), "/home/ada/work");
    assert_eq!(truncate_path("", None), "");
}

#[test]
fn short_name_of_the_root() {
    assert_eq!(pwd("/", Some("/home/ada")), "root");
    assert_eq!(pwd("/", None), "root");
    assert_eq!(pwd("/", Some("/")), "root");
}

#[test]
fn short_name_of_the_home_directory() {
    assert_eq!(pwd("/home/ada", Some("/home/ada")), "home");
    assert_eq!(pwd("/home/ada", Some("/home/ada/")), "ada");
    assert_eq!(pwd("/home/ada", None), "ada");
}

#[test]
fn short_name_is_what_follows_the_last_slash() {
    assert_eq!(pwd("/usr/local/share", Some("/home/ada")), "share");
    assert_eq!(pwd("/usr/local/", Some("/home/ada")), "");
    assert_eq!(pwd("/srv/caf\u{e9}/\u{e9}t\u{e9}", Some("/home/ada")), "\u{e9}t\u{e9}");
    assert_eq!(pwd("relative/dir", None), "dir");
}
