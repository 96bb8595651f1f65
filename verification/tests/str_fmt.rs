use magit::strfmt::{str_fmt, Arguments};

fn args(pairs: &[(&str, &str)]) -> Vec<(String, String)> {
    pairs.iter().map(|(n, v)| (n.to_string(), v.to_string())).collect()
}

#[test]
fn simple() {
    assert_eq!("a b", str_fmt("{} {}", args(&[("\"a\"", "a"), ("\"b\"", "b")])));
}

#[test]
fn with_named() {
    let thing = "user";
    assert_eq!(
        "[user] foobar goodbye",
        str_fmt(
            "[{doesnotmatter}] foobar {hello}",
            args(&[("thing", thing), ("\"goodbye\"", "goodbye")])
        )
    );
    assert_eq!("[🎉user]", str_fmt("[🎉{}]", args(&[("thing", thing)])));
}

#[test]
fn many() {
    assert_eq!(
        "a1b2c3xxx321zzz",
        str_fmt(
            "a{}b{}c{n}xxx{yyy}zzz",
            args(&[("1", "1"), ("2", "2"), ("3", "3"), ("321", "321")])
        )
    );
}

#[test]
fn even_more() {
    assert_eq!(
        "a1b2c3xxx321zzz111222333444",
        str_fmt(
            "a{}b{}c{n}xxx{yyy}zzz{}{}{}{}",
            args(&[
                ("1", "1"),
                ("2", "2"),
                ("3", "3"),
                ("321", "321"),
                ("111", "111"),
                ("222", "222"),
                ("333", "333"),
                ("444", "444"),
            ])
        )
    );
}

#[test]
fn str_fmt_macro() {
    assert_eq!(
        "a1b2c3xxx321zzz",
        str_fmt(
            "a{}b{}c{n}xxx{yyy}zzz",
            args(&[("1", "1"), ("2", "2"), ("3", "3"), ("321", "321")])
        )
    )
}

#[test]
fn doc_example() {
    assert_eq!(
        "Some user input with braces 1 2 3",
        str_fmt("Some user input with braces {} {} {}", args(&[("1", "1"), ("2", "2"), ("3", "3")]))
    );
}

#[test]
fn named_placeholder_picks_its_argument() {
    assert_eq!(
        "b then a",
        str_fmt("{y} then {x}", args(&[("x", "a"), ("y", "b")]))
    );
}

#[test]
fn name_is_kept_for_later_empty_placeholders() {
    assert_eq!("bb", str_fmt("{y}{}", args(&[("x", "a"), ("y", "b")])));
}

#[test]
fn repeated_name_keeps_first_place_and_last_value() {
    assert_eq!("2 3", str_fmt("{} {}", args(&[("x", "1"), ("y", "3"), ("x", "2")])));
}

#[test]
fn brace_free_text_is_unchanged() {
    assert_eq!("no braces here", str_fmt("no braces here", args(&[("x", "1")])));
}

#[test]
fn failures_and_unbalanced_braces() {
    assert!(Arguments::new("{{}".to_string(), args(&[("x", "1")])).fmt().is_err());
    assert!(Arguments::new("{} {}".to_string(), args(&[("x", "1")])).fmt().is_err());
    assert!(Arguments::new("a {".to_string(), args(&[("x", "1")])).is_unbalanced());
    assert!(Arguments::new("a{".to_string(), args(&[("x", "1")])).fmt().is_err());
    assert!(Arguments::new("a }".to_string(), vec![]).is_unbalanced());
    assert!(!Arguments::new("a {}".to_string(), vec![]).is_unbalanced());
    assert_eq!(Arguments::new("}}".to_string(), args(&[("x", "1")])).fmt().unwrap(), "1");
}
