use minishell::error::{command_not_found, launch_failed, parse_error, ErrorKind};
use minishell::shell_commands::{
    build_commands, cd_target, handle_cd, handle_echo, handle_pwd, handle_type, search_directories,
    search_in_path, type_lookup, Builtin, CdAttempt, DirListing, PathEntry, ShellContext,
};

fn strings(items: &[&str]) -> Vec<String> {
    items.iter().map(|s| s.to_string()).collect()
}

fn context() -> ShellContext {
    ShellContext { cwd: "/work".to_string(), home: "/home/user".to_string() }
}

fn listing(dir: &str, names: &[&str]) -> DirListing {
    DirListing {
        entries: names
            .iter()
            .map(|name| PathEntry { name: name.to_string(), path: format!("{}/{}", dir, name) })
            .collect(),
    }
}

#[test]
fn registry_holds_the_five_builtins() {
    let commands = build_commands();
    assert_eq!(commands.get("exit"), Some(Builtin::Exit));
    assert_eq!(commands.get("echo"), Some(Builtin::Echo));
    assert_eq!(commands.get("type"), Some(Builtin::Type));
    assert_eq!(commands.get("pwd"), Some(Builtin::Pwd));
    assert_eq!(commands.get("cd"), Some(Builtin::Cd));
    assert!(commands.contains_key("cd"));
}

#[test]
fn registry_knows_no_other_name() {
    let commands = build_commands();
    for name in ["", "ls", "Echo", "echo ", " cd", "exit\n", "typ"] {
        assert_eq!(commands.get(name), None);
        assert!(!commands.contains_key(name));
    }
}

#[test]
fn echo_joins_arguments_with_single_spaces() {
    let text = handle_echo(strings(&["hello", "world"])).unwrap();
    assert_eq!(text, "hello world\n");
    let text = handle_echo(strings(&["a  b", "", "c"])).unwrap();
    assert_eq!(text, "a  b  c\n");
}

#[test]
fn echo_without_arguments_prints_a_newline() {
    assert_eq!(handle_echo(Vec::new()).unwrap(), "\n");
    assert_eq!(handle_echo(strings(&["hi"])).unwrap(), "hi\n");
}

#[test]
fn echo_does_not_reinterpret_escapes() {
    assert_eq!(handle_echo(strings(&["a\\nb"])).unwrap(), "a\\nb\n");
}

#[test]
fn pwd_prints_the_working_directory() {
    assert_eq!(handle_pwd(&context()).unwrap(), "/work\n");
}

#[test]
fn cd_without_argument_goes_home() {
    assert_eq!(cd_target(&Vec::new(), &context()), "/home/user");
}

#[test]
fn cd_tilde_goes_home() {
    assert_eq!(cd_target(&strings(&["~"]), &context()), "/home/user");
    assert_eq!(cd_target(&strings(&["~", "/elsewhere"]), &context()), "/home/user");
}

#[test]
fn cd_does_not_expand_a_tilde_prefix() {
    assert_eq!(cd_target(&strings(&["~/foo"]), &context()), "~/foo");
    assert_eq!(cd_target(&strings(&["~user"]), &context()), "~user");
}

#[test]
fn cd_takes_its_first_argument() {
    assert_eq!(cd_target(&strings(&["/tmp", "/var"]), &context()), "/tmp");
    assert_eq!(cd_target(&strings(&[""]), &context()), "");
}

#[test]
fn cd_to_a_missing_path_reports_it_and_stays() {
    let mut ctx = context();
    let error = handle_cd(&mut ctx, "/does/not/exist", CdAttempt::Missing).unwrap_err();
    assert_eq!(error.kind, ErrorKind::NotFound);
    assert_eq!(error.message, "cd: /does/not/exist: No such file or directory");
    assert_eq!(ctx.cwd, "/work");
    assert_eq!(ctx.home, "/home/user");
}

#[test]
fn cd_that_is_refused_hands_on_the_reason_and_stays() {
    let mut ctx = context();
    let error = handle_cd(
        &mut ctx,
        "/root",
        CdAttempt::Refused("Permission denied (os error 13)".to_string()),
    )
    .unwrap_err();
    assert_eq!(error.kind, ErrorKind::Resource);
    assert_eq!(error.message, "Permission denied (os error 13)");
    assert_eq!(ctx.cwd, "/work");
}

#[test]
fn cd_that_succeeds_moves_and_prints_nothing() {
    let mut ctx = context();
    let text = handle_cd(&mut ctx, "/tmp", CdAttempt::Entered("/tmp".to_string())).unwrap();
    assert_eq!(text, "");
    assert_eq!(ctx.cwd, "/tmp");
    assert_eq!(ctx.home, "/home/user");
    assert_eq!(handle_pwd(&ctx).unwrap(), "/tmp\n");
}

#[test]
fn type_looks_up_only_what_is_no_builtin() {
    for name in ["exit", "echo", "type", "pwd", "cd"] {
        assert_eq!(type_lookup(&strings(&[name])), None);
        assert_eq!(type_lookup(&strings(&[name, "ls"])), None);
    }
    assert_eq!(type_lookup(&strings(&["ls"])), Some("ls".to_string()));
    assert_eq!(type_lookup(&strings(&["ls", "echo"])), Some("ls".to_string()));
    assert_eq!(type_lookup(&strings(&["Echo"])), Some("Echo".to_string()));
    assert_eq!(type_lookup(&Vec::new()), Some(String::new()));
}

#[test]
fn type_reports_a_builtin() {
    assert_eq!(handle_type(strings(&["echo"]), None).unwrap(), "echo is a shell builtin\n");
    assert_eq!(handle_type(strings(&["type"]), None).unwrap(), "type is a shell builtin\n");
    assert_eq!(handle_type(strings(&["exit", "x"]), None).unwrap(), "exit is a shell builtin\n");
}

#[test]
fn type_prefers_the_builtin_to_the_search_path() {
    assert_eq!(
        handle_type(strings(&["echo"]), Some("/bin/echo".to_string())).unwrap(),
        "echo is a shell builtin\n"
    );
}

#[test]
fn type_reports_the_path_of_an_executable() {
    assert_eq!(
        handle_type(strings(&["ls"]), Some("/usr/bin/ls".to_string())).unwrap(),
        "ls is /usr/bin/ls\n"
    );
}

#[test]
fn type_reports_an_unknown_name() {
    let error = handle_type(strings(&["nonesuch"]), None).unwrap_err();
    assert_eq!(error.kind, ErrorKind::NotFound);
    assert_eq!(error.message, "nonesuch: not found");
}

#[test]
fn type_without_argument_asks_about_the_empty_name() {
    let error = handle_type(Vec::new(), None).unwrap_err();
    assert_eq!(error.kind, ErrorKind::NotFound);
    assert_eq!(error.message, ": not found");
}

#[test]
fn search_returns_the_first_directory_with_a_match() {
    let dirs = vec![
        listing("/a", &["x", "y"]),
        listing("/b", &["ls", "x"]),
        listing("/c", &["ls"]),
    ];
    assert_eq!(search_in_path("ls", &dirs), Some("/b/ls".to_string()));
    assert_eq!(search_in_path("x", &dirs), Some("/a/x".to_string()));
    assert_eq!(search_in_path("y", &dirs), Some("/a/y".to_string()));
}

#[test]
fn search_returns_the_first_match_within_a_directory() {
    let dirs = vec![DirListing {
        entries: vec![
            PathEntry { name: "tool".to_string(), path: "/a/first".to_string() },
            PathEntry { name: "tool".to_string(), path: "/a/second".to_string() },
        ],
    }];
    assert_eq!(search_in_path("tool", &dirs), Some("/a/first".to_string()));
}

#[test]
fn search_wants_the_exact_name() {
    let dirs = vec![listing("/a", &["ls", "cat.exe", "Grep"])];
    assert_eq!(search_in_path("l", &dirs), None);
    assert_eq!(search_in_path("lss", &dirs), None);
    assert_eq!(search_in_path("ls ", &dirs), None);
    assert_eq!(search_in_path(" ls", &dirs), None);
    assert_eq!(search_in_path("cat", &dirs), None);
    assert_eq!(search_in_path("grep", &dirs), None);
    assert_eq!(search_in_path("", &dirs), None);
}

#[test]
fn search_skips_empty_listings() {
    let dirs = vec![listing("/unreadable", &[]), listing("/b", &["ls"])];
    assert_eq!(search_in_path("ls", &dirs), Some("/b/ls".to_string()));
    assert_eq!(search_in_path("ls", &Vec::new()), None);
}

#[test]
fn search_path_is_split_at_colons() {
    assert_eq!(
        search_directories(&Some("/usr/bin:/bin:/usr/local/bin".to_string())),
        strings(&["/usr/bin", "/bin", "/usr/local/bin"])
    );
    assert_eq!(search_directories(&Some("/bin".to_string())), strings(&["/bin"]));
}

#[test]
fn search_path_keeps_empty_pieces() {
    assert_eq!(search_directories(&Some("".to_string())), strings(&[""]));
    assert_eq!(search_directories(&Some(":/bin:".to_string())), strings(&["", "/bin", ""]));
    assert_eq!(search_directories(&Some("a::b".to_string())), strings(&["a", "", "b"]));
}

#[test]
fn search_path_splits_as_str_split_does() {
    for path in ["", ":", "a", "a:b", ":a", "a:", "a::b:", "/x y/z:é:/ü"] {
        let expected: Vec<String> = path.split(':').map(|s| s.to_string()).collect();
        assert_eq!(search_directories(&Some(path.to_string())), expected);
    }
}

#[test]
fn unset_search_path_has_no_directories() {
    assert_eq!(search_directories(&None), Vec::<String>::new());
}

#[test]
fn error_constructors_carry_kind_and_message() {
    let e = parse_error();
    assert_eq!(e.kind, ErrorKind::Parse);
    assert_eq!(e.message, "Error parsing input");
    let e = command_not_found("frobnicate");
    assert_eq!(e.kind, ErrorKind::CommandNotFound);
    assert_eq!(e.message, "frobnicate: command not found");
    let e = launch_failed("Exec format error (os error 8)");
    assert_eq!(e.kind, ErrorKind::Execution);
    assert_eq!(e.message, "Exec format error (os error 8)");
}
