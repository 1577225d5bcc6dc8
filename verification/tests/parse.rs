use rerun::invocation::{parse_invocation, usage_message};

fn strings(items: &[&str]) -> Vec<String> {
    items.iter().map(|s| s.to_string()).collect()
}

#[test]
fn usage_on_empty_input() {
    let r = parse_invocation(&Vec::new());
    assert!(r.is_none());
}

#[test]
fn usage_on_trailing_separator() {
    let r = parse_invocation(&strings(&["a.txt", "b.txt", "--"]));
    assert!(r.is_none());
}

#[test]
fn usage_on_lone_separator() {
    let r = parse_invocation(&strings(&["--"]));
    assert!(r.is_none());
}

#[test]
fn simple_command() {
    let inv = parse_invocation(&strings(&["echo", "hello"])).unwrap();
    assert_eq!(inv.deps, Vec::<String>::new());
    assert_eq!(inv.cmd, "echo");
    assert_eq!(inv.args, strings(&["hello"]));
}

#[test]
fn command_alone() {
    let inv = parse_invocation(&strings(&["echo"])).unwrap();
    assert_eq!(inv.deps, Vec::<String>::new());
    assert_eq!(inv.cmd, "echo");
    assert_eq!(inv.args, Vec::<String>::new());
}

#[test]
fn command_with_deps() {
    let inv = parse_invocation(&strings(&["watched.txt", "--", "cat", "watched.txt"])).unwrap();
    assert_eq!(inv.deps, strings(&["watched.txt"]));
    assert_eq!(inv.cmd, "cat");
    assert_eq!(inv.args, strings(&["watched.txt"]));
}

#[test]
fn first_separator_wins() {
    let inv = parse_invocation(&strings(&["a", "--", "b", "--", "c"])).unwrap();
    assert_eq!(inv.deps, strings(&["a"]));
    assert_eq!(inv.cmd, "b");
    assert_eq!(inv.args, strings(&["--", "c"]));
}

#[test]
fn separator_first_means_no_deps() {
    let inv = parse_invocation(&strings(&["--", "echo", "hi"])).unwrap();
    assert_eq!(inv.deps, Vec::<String>::new());
    assert_eq!(inv.cmd, "echo");
    assert_eq!(inv.args, strings(&["hi"]));
}

#[test]
fn watch_list_is_deps_then_command() {
    let inv = parse_invocation(&strings(&["a.txt", "b.txt", "--", "make", "run"])).unwrap();
    assert_eq!(inv.watch_list(), strings(&["a.txt", "b.txt", "make"]));
}

#[test]
fn watch_list_without_deps_is_command_alone() {
    let inv = parse_invocation(&strings(&["echo", "hello"])).unwrap();
    assert_eq!(inv.watch_list(), strings(&["echo"]));
}

#[test]
fn usage_message_text() {
    let expected = "\nUsage: \n    ./rerun <cmd>\n\nWith args:\n    ./rerun <cmd> [arg1] [arg2] [...]\n\nWith deps watch:\n    ./rerun <file1> <file2> <...> -- <cmd> [arg1] [arg2] [...]\n";
    assert_eq!(usage_message(), expected);
}
