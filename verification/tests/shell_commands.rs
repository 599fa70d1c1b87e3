use wm_platform::error::Error;
use wm_platform::shell::{find_nth_char, is_blank, is_whitespace_char, parse_shell_command, split_whitespace_from};

fn words(v: &[String]) -> Vec<&str> {
    v.iter().map(|s| s.as_str()).collect()
}

#[test]
fn whitespace_chars_match_std() {
    for c in ['\t', '\n', ' ', '\u{85}', '\u{a0}', '\u{1680}', '\u{2000}', '\u{200a}', '\u{2028}', '\u{202f}', '\u{205f}', '\u{3000}', 'a', '"', '\u{200b}', '\u{feff}', 'x'] {
        assert_eq!(is_whitespace_char(c), c.is_whitespace(), "{:?}", c);
    }
    for u in 0u32..0x3100 {
        if let Some(c) = char::from_u32(u) {
            assert_eq!(is_whitespace_char(c), c.is_whitespace(), "{:x}", u);
        }
    }
}

#[test]
fn blank_commands() {
    assert!(is_blank(""));
    assert!(is_blank(" \t\u{3000} "));
    assert!(!is_blank("  a "));
}

#[test]
fn split_matches_std() {
    for s in ["", "a", "  a  b\tc ", "x\u{2003}y", "\"quoted\" arg", "   ", "one"] {
        let ours = split_whitespace_from(s, 0);
        let std: Vec<&str> = s.split_whitespace().collect();
        assert_eq!(words(&ours), std);
    }
    assert_eq!(words(&split_whitespace_from("ab cd ef", 3)), vec!["cd", "ef"]);
    assert_eq!(words(&split_whitespace_from("ab cd ef", 4)), vec!["d", "ef"]);
}

#[test]
fn nth_char_index() {
    assert_eq!(find_nth_char("\"a\" \"b\"", '"', 0), Some(0));
    assert_eq!(find_nth_char("\"a\" \"b\"", '"', 2), Some(4));
    assert_eq!(find_nth_char("\"a\"", '"', 2), None);
    assert_eq!(find_nth_char("\u{e9}\"x\"\"", '"', 2), Some(4));
}

#[test]
fn empty_command_is_refused() {
    match parse_shell_command("   ") {
        Err(Error::Platform(m)) => assert_eq!(m, "No command provided"),
        _ => panic!("expected an error"),
    }
    assert!(matches!(parse_shell_command(""), Err(Error::Platform(_))));
}

#[test]
fn plain_command_splits_at_whitespace() {
    let cmd = parse_shell_command("  notepad.exe  C:\\a.txt --new ").unwrap();
    assert_eq!(cmd.program, "notepad.exe");
    assert_eq!(words(&cmd.args), vec!["C:\\a.txt", "--new"]);
    let cmd = parse_shell_command("explorer").unwrap();
    assert_eq!(cmd.program, "explorer");
    assert!(cmd.args.is_empty());
}

#[test]
fn quoted_command_ends_at_third_quote() {
    let cmd = parse_shell_command("\"a\" \"b\" c").unwrap();
    assert_eq!(cmd.program, "\"a\" ");
    assert_eq!(words(&cmd.args), vec!["\"b\"", "c"]);
}

#[test]
fn quoted_command_without_third_quote_is_refused() {
    let command = "\"C:\\Program Files\\app.exe\" --flag";
    match parse_shell_command(command) {
        Err(Error::Platform(m)) => {
            assert_eq!(m, format!("Command doesn't have an ending `\"`: '{command}'."))
        },
        _ => panic!("expected an error"),
    }
}
