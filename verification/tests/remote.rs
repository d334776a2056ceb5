use dotfiles::remote::parse_remote;

#[test]
fn an_address_is_taken_apart() {
    let remote = parse_remote("git@github.com:someone/dotfiles").expect("the address has all parts");
    assert_eq!(remote.repository, "github.com:someone/dotfiles");
    assert_eq!(remote.host, "github.com");
    assert_eq!(remote.url, "git@github.com:someone/dotfiles");
}

#[test]
fn the_cloned_address_is_always_at_github() {
    let remote = parse_remote("me@work:team/repo.git").expect("the address has all parts");
    assert_eq!(remote.repository, "work:team/repo.git");
    assert_eq!(remote.host, "work");
    assert_eq!(remote.url, "git@github.com:team/repo.git");
}

#[test]
fn only_the_first_parts_are_read() {
    let remote = parse_remote("a@h:p:q@r").expect("the address has all parts");
    assert_eq!(remote.repository, "h:p:q");
    assert_eq!(remote.host, "h");
    assert_eq!(remote.url, "git@github.com:p");
}

#[test]
fn an_address_without_its_marks_has_no_parts() {
    assert!(parse_remote("").is_none());
    assert!(parse_remote("github.com:someone/dotfiles").is_none());
    assert!(parse_remote("git@github.com/someone/dotfiles").is_none());
    assert!(parse_remote("https://github.com/someone/dotfiles").is_none());
    assert!(parse_remote("@").is_none());
}

#[test]
fn empty_parts_are_parts() {
    let remote = parse_remote("@:").expect("the address has all parts");
    assert_eq!(remote.repository, ":");
    assert_eq!(remote.host, "");
    assert_eq!(remote.url, "git@github.com:");
}
