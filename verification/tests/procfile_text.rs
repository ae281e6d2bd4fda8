use procmux::procfile::parse_procfile;

fn pairs(text: &str) -> Vec<(String, String)> {
    parse_procfile(text).into_iter().map(|e| (e.name, e.command)).collect()
}

#[test]
fn parses_names_and_commands_in_order() {
    let text = "web: bundle exec rails s\nworker:  sidekiq -q default  \n";
    assert_eq!(
        pairs(text),
        vec![
            ("web".to_string(), "bundle exec rails s".to_string()),
            ("worker".to_string(), "sidekiq -q default".to_string()),
        ]
    );
}

#[test]
fn skips_blank_comment_and_malformed_lines() {
    let text = "\n# comment: not a process\n   \nno colon here\n: missing name\nname:   \n  api :python -m http.server\r\nlast: echo done";
    assert_eq!(
        pairs(text),
        vec![
            ("api".to_string(), "python -m http.server".to_string()),
            ("last".to_string(), "echo done".to_string()),
        ]
    );
}

#[test]
fn command_keeps_later_colons() {
    assert_eq!(pairs("db: psql postgres://u:p@h"), vec![("db".to_string(), "psql postgres://u:p@h".to_string())]);
}

#[test]
fn empty_text_declares_nothing() {
    assert!(parse_procfile("").is_empty());
}
