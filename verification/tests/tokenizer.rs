use minishell::lexer::{tokenize, Lexer, Mode};
use minishell::parse::parse_input;

fn words(line: &str) -> Option<Vec<String>> {
    tokenize(line)
}

fn strings(items: &[&str]) -> Vec<String> {
    items.iter().map(|s| s.to_string()).collect()
}

#[test]
fn plain_words_are_split_on_whitespace() {
    assert_eq!(words("echo hello world\n"), Some(strings(&["echo", "hello", "world"])));
}

#[test]
fn runs_of_whitespace_collapse() {
    assert_eq!(words("  echo \t  a\r\n"), Some(strings(&["echo", "a"])));
    assert_eq!(words("a\x0Cb\n"), Some(strings(&["a", "b"])));
}

#[test]
fn empty_input_has_no_words() {
    assert_eq!(words(""), Some(Vec::new()));
    assert_eq!(words("\n"), Some(Vec::new()));
    assert_eq!(words("   \n"), Some(Vec::new()));
}

#[test]
fn a_word_without_following_whitespace_is_not_emitted() {
    assert_eq!(words("echo hello"), Some(strings(&["echo"])));
    assert_eq!(words("echo hello "), Some(strings(&["echo", "hello"])));
}

#[test]
fn non_ascii_whitespace_does_not_split_words() {
    assert_eq!(words("a\u{A0}b\n"), Some(strings(&["a\u{A0}b"])));
    assert_eq!(words("a\u{2003}b\n"), Some(strings(&["a\u{2003}b"])));
}

#[test]
fn single_quoted_span_joins_the_word() {
    assert_eq!(words("a'b c'd\n"), Some(strings(&["ab cd"])));
}

#[test]
fn single_quotes_keep_everything_verbatim() {
    assert_eq!(words("echo 'a  \"b\" \\n $x'\n"), Some(strings(&["echo", "a  \"b\" \\n $x"])));
}

#[test]
fn adjacent_quoted_spans_are_one_word() {
    assert_eq!(words("'a b'\"c d\"e\n"), Some(strings(&["a bc de"])));
}

#[test]
fn empty_quotes_alone_give_no_word() {
    assert_eq!(words("echo '' a \"\"\n"), Some(strings(&["echo", "a"])));
}

#[test]
fn unterminated_single_quote_fails() {
    assert_eq!(words("echo 'abc\n"), None);
    assert_eq!(words("echo abc'\n"), None);
    assert_eq!(words("'"), None);
}

#[test]
fn unterminated_double_quote_fails() {
    assert_eq!(words("echo \"abc\n"), None);
    assert_eq!(words("echo \"abc\\\"\n"), None);
    assert_eq!(words("echo \"abc\\"), None);
    assert_eq!(words("\""), None);
}

#[test]
fn double_quote_escapes_reduce_three_characters() {
    assert_eq!(words("\"a\\\"b\"\n"), Some(strings(&["a\"b"])));
    assert_eq!(words("\"a\\\\b\"\n"), Some(strings(&["a\\b"])));
    assert_eq!(words("\"a\\$b\"\n"), Some(strings(&["a$b"])));
}

#[test]
fn double_quote_keeps_other_escapes_as_two_characters() {
    assert_eq!(words("\"a\\nb\"\n"), Some(strings(&["a\\nb"])));
    assert_eq!(words("\"a\\'b\"\n"), Some(strings(&["a\\'b"])));
    assert_eq!(words("\"a\\ b\"\n"), Some(strings(&["a\\ b"])));
}

#[test]
fn double_quote_escape_sequence_mix() {
    assert_eq!(
        words("echo \"a\\\"b\\\\c\\$d\\ne\"\n"),
        Some(strings(&["echo", "a\"b\\c$d\\ne"]))
    );
}

#[test]
fn double_quotes_keep_single_quotes_and_whitespace() {
    assert_eq!(words("\"it's  here\"\n"), Some(strings(&["it's  here"])));
}

#[test]
fn bare_backslash_escapes_the_next_character() {
    assert_eq!(words("a\\ b\n"), Some(strings(&["a b"])));
    assert_eq!(words("a\\'b\n"), Some(strings(&["a'b"])));
    assert_eq!(words("a\\\"b\n"), Some(strings(&["a\"b"])));
    assert_eq!(words("a\\\\b\n"), Some(strings(&["a\\b"])));
    assert_eq!(words("a\\nb\n"), Some(strings(&["anb"])));
}

#[test]
fn bare_backslash_before_newline_keeps_the_newline_in_the_word() {
    assert_eq!(words("a\\\n\n"), Some(strings(&["a\n"])));
}

#[test]
fn trailing_bare_backslash_is_dropped() {
    assert_eq!(words("a \\"), Some(strings(&["a"])));
}

#[test]
fn lexer_steps_through_modes() {
    let mut lexer = Lexer::new();
    assert_eq!(lexer.mode, Mode::Bare);
    lexer.feed('a');
    lexer.feed('"');
    assert_eq!(lexer.mode, Mode::Double);
    lexer.feed('\\');
    assert_eq!(lexer.mode, Mode::DoubleEscape);
    lexer.feed('x');
    assert_eq!(lexer.mode, Mode::Double);
    assert_eq!(lexer.word, vec!['a', '\\', 'x']);
    lexer.feed('"');
    assert_eq!(lexer.mode, Mode::Bare);
    lexer.feed('\'');
    assert_eq!(lexer.mode, Mode::Single);
    lexer.feed('\\');
    assert_eq!(lexer.mode, Mode::Single);
    lexer.feed('\'');
    lexer.feed('\\');
    assert_eq!(lexer.mode, Mode::BareEscape);
    lexer.feed(' ');
    assert_eq!(lexer.mode, Mode::Bare);
    assert!(lexer.tokens.is_empty());
    lexer.feed(' ');
    assert_eq!(lexer.tokens, vec!["a\\x\\ ".to_string()]);
    assert!(lexer.word.is_empty());
}

#[test]
fn parse_splits_command_and_args() {
    let parsed = parse_input(&"echo hello world\n".to_string()).unwrap();
    assert_eq!(parsed.command, "echo");
    assert_eq!(parsed.args, strings(&["hello", "world"]));
    assert!(!parsed.redirect_info.redirect_stdout);
    assert!(!parsed.redirect_info.redirect_stderr);
}

#[test]
fn parse_of_empty_line_is_the_empty_command() {
    for line in ["", "\n", "   \n"] {
        let parsed = parse_input(&line.to_string()).unwrap();
        assert_eq!(parsed.command, "");
        assert!(parsed.args.is_empty());
    }
}

#[test]
fn parse_single_quoted_example() {
    let parsed = parse_input(&"a'b c'd\n".to_string()).unwrap();
    assert_eq!(parsed.command, "ab cd");
    assert!(parsed.args.is_empty());
    let parsed = parse_input(&"a'b c'd".to_string()).unwrap();
    assert_eq!(parsed.command, "ab cd");
}

#[test]
fn parse_fails_on_unterminated_quotes() {
    assert!(parse_input(&"echo 'abc\n".to_string()).is_none());
    assert!(parse_input(&"echo \"abc\n".to_string()).is_none());
    assert!(parse_input(&"echo ok 'abc > out.txt\n".to_string()).is_none());
}

#[test]
fn parse_line_without_newline_keeps_its_last_word() {
    let parsed = parse_input(&"echo hi".to_string()).unwrap();
    assert_eq!(parsed.command, "echo");
    assert_eq!(parsed.args, strings(&["hi"]));
}

#[test]
fn parsing_twice_gives_the_same_value() {
    let line = "echo 'a b' \"c\\\"d\" e\\ f > out.txt 2>> err.txt\n".to_string();
    let first = parse_input(&line).unwrap();
    let second = parse_input(&line).unwrap();
    assert_eq!(first.command, second.command);
    assert_eq!(first.args, second.args);
    assert_eq!(first.args, strings(&["a b", "c\"d", "e f"]));
    assert_eq!(first.redirect_info.stdout_path, second.redirect_info.stdout_path);
    assert_eq!(first.redirect_info.stderr_path, second.redirect_info.stderr_path);
    assert_eq!(first.redirect_info.append_stdout, second.redirect_info.append_stdout);
    assert_eq!(first.redirect_info.append_stderr, second.redirect_info.append_stderr);
    assert_eq!(first.redirect_info.redirect_stdout, second.redirect_info.redirect_stdout);
    assert_eq!(first.redirect_info.redirect_stderr, second.redirect_info.redirect_stderr);
    assert_eq!(first.redirect_info.remaining, second.redirect_info.remaining);
    assert_eq!(format!("{:?}", first), format!("{:?}", second));
}
