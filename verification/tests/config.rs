use magit::text::{decimal, is_whitespace};
use magit::{parse_repo_name, Config, RepoName, RepoRoomMap};

fn mapped() -> Config {
    let mut config = Config::debug();
    config.github.repos.push(RepoRoomMap {
        repo: "DevinR528/cargo-sort".to_owned(),
        room: "!aaa:aaa.com".to_owned(),
    });
    config.github.repos.push(RepoRoomMap {
        repo: "DevinR528/magit".to_owned(),
        room: "!bbb:aaa.com".to_owned(),
    });
    config.github.repos.push(RepoRoomMap {
        repo: "DevinR528/cargo-sort".to_owned(),
        room: "!ccc:aaa.com".to_owned(),
    });
    config
}

#[test]
fn debug_config() {
    let config = Config::debug();
    assert_eq!(config.secret_key.as_deref(), Some("test"));
    assert!(config.github.repos.is_empty());
    assert!(config.github.events.is_empty());
    assert!(config.github.format_strings.is_empty());
    assert_eq!(config.github.homeserver, "foobar.com");
    assert_eq!(config.github.user_name, "foobar.com");
    assert_eq!(config.github.password, "foobar.com");
    assert_eq!(config.github.user_token, None);
}

#[test]
fn full_name_of_repository() {
    let name = RepoName { owner: "DevinR528".to_owned(), repo: "cargo-sort".to_owned() };
    assert_eq!(name.as_full_name(), "DevinR528/cargo-sort");
}

#[test]
fn repository_names_are_read() {
    let name = parse_repo_name("DevinR528/magit").unwrap();
    assert_eq!((name.owner.as_str(), name.repo.as_str()), ("DevinR528", "magit"));
    let name = parse_repo_name("a/b/c").unwrap();
    assert_eq!((name.owner.as_str(), name.repo.as_str()), ("a", "b"));
    let name = parse_repo_name("owner/").unwrap();
    assert_eq!((name.owner.as_str(), name.repo.as_str()), ("owner", ""));
    assert_eq!(parse_repo_name("lonely").err(), Some("repo not found"));
    assert_eq!(parse_repo_name("").err(), Some("repo not found"));
}

#[test]
fn full_name_reads_back() {
    let name = RepoName { owner: "ruma".to_owned(), repo: "ruma-events".to_owned() };
    let back = parse_repo_name(&name.as_full_name()).unwrap();
    assert_eq!((back.owner, back.repo), (name.owner, name.repo));
}

#[test]
fn rooms_and_repositories() {
    let config = mapped();
    assert_eq!(config.github.room_for_repo("DevinR528/cargo-sort").as_deref(), Some("!aaa:aaa.com"));
    assert_eq!(config.github.room_for_repo("DevinR528/magit").as_deref(), Some("!bbb:aaa.com"));
    assert_eq!(config.github.room_for_repo("DevinR528/other"), None);
    assert_eq!(config.github.repo_for_room("!ccc:aaa.com").as_deref(), Some("DevinR528/cargo-sort"));
    assert_eq!(config.github.repo_for_room("!bbb:aaa.com").as_deref(), Some("DevinR528/magit"));
    assert_eq!(config.github.repo_for_room("!zzz:aaa.com"), None);
}

#[test]
fn format_strings_by_event_name() {
    let mut config = Config::debug();
    config.github.format_strings.push(("issues".to_owned(), "{title}".to_owned()));
    config.github.format_strings.push(("push".to_owned(), "{branch}".to_owned()));
    assert_eq!(config.github.format_string("push").as_deref(), Some("{branch}"));
    assert_eq!(config.github.format_string("issues").as_deref(), Some("{title}"));
    assert_eq!(config.github.format_string("star"), None);
}

#[test]
fn decimal_text() {
    assert_eq!(decimal(0), "0");
    assert_eq!(decimal(7), "7");
    assert_eq!(decimal(1024), "1024");
    assert_eq!(decimal(u64::MAX), "18446744073709551615");
}

#[test]
fn whitespace_is_unicode_whitespace() {
    for c in [' ', '\t', '\n', '\u{a0}', '\u{2003}', '\u{3000}', '\u{85}'] {
        assert!(is_whitespace(c), "{:?}", c);
        assert_eq!(is_whitespace(c), c.is_whitespace());
    }
    for c in ['a', '_', '\u{200b}', '"'] {
        assert!(!is_whitespace(c));
    }
}

#[test]
fn setting_format_strings_keeps_one_per_name() {
    let mut config = Config::debug();
    config.github.set_format_string("push".to_owned(), "{branch}".to_owned());
    config.github.set_format_string("issues".to_owned(), "{title}".to_owned());
    config.github.set_format_string("push".to_owned(), "{username}".to_owned());
    assert_eq!(config.github.format_strings.len(), 2);
    assert_eq!(config.github.format_string("push").as_deref(), Some("{username}"));
    assert_eq!(config.github.format_strings[0].0, "push");
}
