use rerun::textfmt::{
    banner_line, change_line, exit_line, format_i32, format_u64, poll_error_line,
    spawn_error_line, streams_error_line, string_list, watch_error_line,
    watch_path_error_line, watcher_create_error_line,
};

const OK: &str = "\u{1b}[32;1;4m";
const ERR: &str = "\u{1b}[31;1;4m";
const DEF: &str = "\u{1b}[0m";

fn strings(items: &[&str]) -> Vec<String> {
    items.iter().map(|s| s.to_string()).collect()
}

#[test]
fn decimal_of_small_numbers() {
    assert_eq!(format_u64(0), "0");
    assert_eq!(format_u64(7), "7");
    assert_eq!(format_u64(10), "10");
    assert_eq!(format_u64(42), "42");
    assert_eq!(format_u64(123456), "123456");
    assert_eq!(format_u64(u64::MAX), "18446744073709551615");
}

#[test]
fn decimal_of_signed_numbers() {
    assert_eq!(format_i32(0), "0");
    assert_eq!(format_i32(137), "137");
    assert_eq!(format_i32(-1), "-1");
    assert_eq!(format_i32(i32::MAX), "2147483647");
    assert_eq!(format_i32(i32::MIN), "-2147483648");
}

#[test]
fn list_rendering() {
    assert_eq!(string_list(&strings(&[])), "[]");
    assert_eq!(string_list(&strings(&["a"])), "[\"a\"]");
    assert_eq!(string_list(&strings(&["a", "b.txt"])), "[\"a\", \"b.txt\"]");
}

#[test]
fn exit_line_text() {
    assert_eq!(
        exit_line("echo", 0),
        format!("{OK}rerun: \"echo\" exited with code 0{DEF}")
    );
    assert_eq!(
        exit_line("make", -1),
        format!("{OK}rerun: \"make\" exited with code -1{DEF}")
    );
}

#[test]
fn banner_line_text() {
    assert_eq!(
        banner_line("cat", &strings(&["watched.txt"]), &strings(&["watched.txt"])),
        format!("{OK}rerun: \"cat\", deps=[\"watched.txt\"] + cat, args=[\"watched.txt\"]{DEF}")
    );
    assert_eq!(
        banner_line("echo", &strings(&[]), &strings(&["hello"])),
        format!("{OK}rerun: \"echo\", deps=[] + echo, args=[\"hello\"]{DEF}")
    );
}

#[test]
fn change_line_text() {
    assert_eq!(
        change_line(&strings(&["watched.txt"])),
        format!("{OK}rerun: changed [\"watched.txt\"]{DEF}")
    );
}

#[test]
fn spawn_error_line_text() {
    assert_eq!(
        spawn_error_line("/no/such/binary", "Os { code: 2 }"),
        format!("{ERR}rerun: can't start \"/no/such/binary\", cause: Os {{ code: 2 }}{DEF}")
    );
}

#[test]
fn poll_error_line_text() {
    assert_eq!(
        poll_error_line("echo", "bad wait"),
        format!("{ERR}rerun: \"echo\" errored, cause: bad wait{DEF}")
    );
}

#[test]
fn watcher_lines_text() {
    assert_eq!(
        watch_path_error_line("gone.txt", "NotFound"),
        format!("{ERR}rerun: can't watch for gone.txt, cause NotFound, skipping{DEF}")
    );
    assert_eq!(
        watcher_create_error_line("no inotify"),
        format!("{ERR}rerun: can't create watcher, cause no inotify, skipping deps...{DEF}")
    );
    // The event-delivery error line closes with the error color, as the
    // supervisor has always printed it.
    assert_eq!(
        watch_error_line("overflow"),
        format!("{ERR}watch error: overflow{ERR}")
    );
}

#[test]
fn streams_error_line_text() {
    assert_eq!(
        streams_error_line(),
        format!("{ERR}rerun: can't get stdout/stderr of spawned process{DEF}")
    );
}
