use magit::cmd_request::issues_path;
use magit::relay::{backoff_millis, to_markdown, BACKOFF};
use magit::RepoName;

#[test]
fn line_breaks_become_br() {
    assert_eq!(to_markdown("a\nb\n"), "a<br>b<br>");
    assert_eq!(to_markdown("no breaks"), "no breaks");
    assert_eq!(to_markdown(""), "");
    assert_eq!(to_markdown("\n\n"), "<br><br>");
    assert_eq!(to_markdown("[🎉]\r\nx"), "[🎉]\r<br>x");
}

#[test]
fn relay_waits_cycle() {
    assert_eq!(BACKOFF, 20);
    assert_eq!(backoff_millis(0), 0);
    assert_eq!(backoff_millis(1), 50);
    assert_eq!(backoff_millis(19), 950);
    assert_eq!(backoff_millis(20), 0);
    assert_eq!(backoff_millis(43), 150);
}

#[test]
fn issue_request_path() {
    let repo = RepoName { owner: "DevinR528".to_owned(), repo: "magit".to_owned() };
    assert_eq!(issues_path(&repo), "/repos/DevinR528/magit/issues");
}
