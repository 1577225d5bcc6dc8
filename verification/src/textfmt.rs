//! The exact text of every log line the supervisor emits.
//!
//! Log lines are informational, one line each, and color-coded for
//! humans: outcomes in the success color, errors in the error color.
//! Each builder returns precisely the character sequence its spec
//! function states, including the escape codes, so the driving binary
//! only ever prints what is specified here.  Numbers are rendered by a
//! verified decimal formatter and argument lists in a quoted,
//! bracketed, comma-separated shape.

use vstd::prelude::*;

verus! {

/// Escape code that starts a success-colored line.
pub open spec fn ok_color() -> Seq<char> {
    "\x1b[32;1;4m"@
}

/// Escape code that starts an error-colored line.
pub open spec fn err_color() -> Seq<char> {
    "\x1b[31;1;4m"@
}

/// Escape code that restores the default color.
pub open spec fn def_color() -> Seq<char> {
    "\x1b[0m"@
}

/// The character for one decimal digit.
pub open spec fn digit_char(d: int) -> char {
    if d == 0 {
        '0'
    } else if d == 1 {
        '1'
    } else if d == 2 {
        '2'
    } else if d == 3 {
        '3'
    } else if d == 4 {
        '4'
    } else if d == 5 {
        '5'
    } else if d == 6 {
        '6'
    } else if d == 7 {
        '7'
    } else if d == 8 {
        '8'
    } else {
        '9'
    }
}

/// Decimal rendering of a natural number, most significant digit
/// first, without leading zeros (a lone zero for 0).
pub open spec fn decimal_nat(n: nat) -> Seq<char>
    decreases n,
{
    if n < 10 {
        seq![digit_char(n as int)]
    } else {
        decimal_nat(n / 10) + seq![digit_char((n % 10) as int)]
    }
}

/// Decimal rendering of an integer: a minus sign before the magnitude
/// for negative values.
pub open spec fn decimal_int(n: int) -> Seq<char> {
    if n < 0 {
        seq!['-'] + decimal_nat((-n) as nat)
    } else {
        decimal_nat(n as nat)
    }
}

/// The one-character string for a decimal digit.
fn digit_str(d: u64) -> (r: &'static str)
    requires
        d < 10,
    ensures
        r@ == seq![digit_char(d as int)],
{
    let r: &'static str = if d == 0 {
        "0"
    } else if d == 1 {
        "1"
    } else if d == 2 {
        "2"
    } else if d == 3 {
        "3"
    } else if d == 4 {
        "4"
    } else if d == 5 {
        "5"
    } else if d == 6 {
        "6"
    } else if d == 7 {
        "7"
    } else if d == 8 {
        "8"
    } else {
        "9"
    };
    proof {
        reveal_strlit("0");
        reveal_strlit("1");
        reveal_strlit("2");
        reveal_strlit("3");
        reveal_strlit("4");
        reveal_strlit("5");
        reveal_strlit("6");
        reveal_strlit("7");
        reveal_strlit("8");
        reveal_strlit("9");
        assert(r@ =~= seq![digit_char(d as int)]);
    }
    r
}

/// Renders an unsigned number in decimal.
pub fn format_u64(n: u64) -> (r: String)
    ensures
        r@ == decimal_nat(n as nat),
    decreases n,
{
    if n < 10 {
        String::from_str(digit_str(n))
    } else {
        assert(n / 10 < n);
        let mut r = format_u64(n / 10);
        r.append(digit_str(n % 10));
        r
    }
}

/// Renders a signed number (such as an exit code) in decimal.
pub fn format_i32(n: i32) -> (r: String)
    ensures
        r@ == decimal_int(n as int),
{
    if n >= 0 {
        format_u64(n as u64)
    } else {
        let wide: i64 = n as i64;
        let mag: u64 = (-wide) as u64;
        let mut r = String::from_str("-");
        let digits = format_u64(mag);
        r.append(digits.as_str());
        proof {
            reveal_strlit("-");
            assert(r@ =~= decimal_int(n as int));
        }
        r
    }
}

/// A string in quotes.
pub open spec fn spec_quoted(s: Seq<char>) -> Seq<char> {
    "\""@ + s + "\""@
}

/// The inside of a rendered list: the quoted items, separated by a
/// comma and a space.
pub open spec fn spec_list_body(items: Seq<Seq<char>>) -> Seq<char>
    decreases items.len(),
{
    if items.len() == 0 {
        Seq::empty()
    } else if items.len() == 1 {
        spec_quoted(items[0])
    } else {
        spec_list_body(items.drop_last()) + ", "@ + spec_quoted(items.last())
    }
}

/// A rendered list of strings: the quoted items, comma-separated, in
/// brackets.
pub open spec fn spec_str_list(items: Seq<Seq<char>>) -> Seq<char> {
    "["@ + spec_list_body(items) + "]"@
}

/// Renders a list of strings as its spec prescribes.
pub fn string_list(items: &Vec<String>) -> (r: String)
    ensures
        r@ == spec_str_list(items.deep_view()),
{
    let ghost all = items.deep_view();
    let mut r = String::from_str("[");
    let n = items.len();
    let mut i: usize = 0;
    while i < n
        invariant
            i <= n,
            n == items@.len(),
            all == items.deep_view(),
            r@ =~= "["@ + spec_list_body(all.take(i as int)),
        decreases n - i,
    {
        if i > 0 {
            r.append(", ");
        }
        r.append("\"");
        r.append(items[i].as_str());
        r.append("\"");
        proof {
            assert(all.take(i + 1).drop_last() =~= all.take(i as int));
            assert(all.take(i + 1).last() == all[i as int]);
            assert(r@ =~= "["@ + spec_list_body(all.take(i + 1)));
        }
        i = i + 1;
    }
    r.append("]");
    proof {
        assert(all.take(n as int) =~= all);
        assert(r@ =~= spec_str_list(all));
    }
    r
}

/// The change notification: success-colored, naming the paths the
/// watcher reported.
pub open spec fn spec_change_line(paths: Seq<Seq<char>>) -> Seq<char> {
    ok_color() + "rerun: changed "@ + spec_str_list(paths) + def_color()
}

/// Builds the change notification line.
pub fn change_line(paths: &Vec<String>) -> (r: String)
    ensures
        r@ == spec_change_line(paths.deep_view()),
{
    let mut r = String::from_str("\x1b[32;1;4m");
    r.append("rerun: changed ");
    let list = string_list(paths);
    r.append(list.as_str());
    r.append("\x1b[0m");
    proof {
        assert(r@ =~= spec_change_line(paths.deep_view()));
    }
    r
}

/// An error reported by the watcher's event delivery (error-colored on
/// both ends).
pub open spec fn spec_watch_error_line(cause: Seq<char>) -> Seq<char> {
    err_color() + "watch error: "@ + cause + err_color()
}

/// Builds the watcher event error line.
pub fn watch_error_line(cause: &str) -> (r: String)
    ensures
        r@ == spec_watch_error_line(cause@),
{
    let mut r = String::from_str("\x1b[31;1;4m");
    r.append("watch error: ");
    r.append(cause);
    r.append("\x1b[31;1;4m");
    proof {
        assert(r@ =~= spec_watch_error_line(cause@));
    }
    r
}

/// A path that could not be registered: that one path is skipped.
pub open spec fn spec_watch_path_error_line(path: Seq<char>, cause: Seq<char>) -> Seq<char> {
    err_color() + "rerun: can't watch for "@ + path + ", cause "@ + cause + ", skipping"@
        + def_color()
}

/// Builds the per-path registration failure line.
pub fn watch_path_error_line(path: &str, cause: &str) -> (r: String)
    ensures
        r@ == spec_watch_path_error_line(path@, cause@),
{
    let mut r = String::from_str("\x1b[31;1;4m");
    r.append("rerun: can't watch for ");
    r.append(path);
    r.append(", cause ");
    r.append(cause);
    r.append(", skipping");
    r.append("\x1b[0m");
    proof {
        assert(r@ =~= spec_watch_path_error_line(path@, cause@));
    }
    r
}

/// The notifier could not be created: the run proceeds unwatched.
pub open spec fn spec_watcher_create_error_line(cause: Seq<char>) -> Seq<char> {
    err_color() + "rerun: can't create watcher, cause "@ + cause + ", skipping deps..."@
        + def_color()
}

/// Builds the watcher creation failure line.
pub fn watcher_create_error_line(cause: &str) -> (r: String)
    ensures
        r@ == spec_watcher_create_error_line(cause@),
{
    let mut r = String::from_str("\x1b[31;1;4m");
    r.append("rerun: can't create watcher, cause ");
    r.append(cause);
    r.append(", skipping deps...");
    r.append("\x1b[0m");
    proof {
        assert(r@ =~= spec_watcher_create_error_line(cause@));
    }
    r
}

/// The banner announcing a run: the command, the effective dependency
/// set (the explicit paths plus the command itself), and the arguments.
pub open spec fn spec_banner_line(cmd: Seq<char>, deps: Seq<Seq<char>>, args: Seq<Seq<char>>) -> Seq<
    char,
> {
    ok_color() + "rerun: \""@ + cmd + "\", deps="@ + spec_str_list(deps) + " + "@ + cmd
        + ", args="@ + spec_str_list(args) + def_color()
}

/// Builds the run banner line.
pub fn banner_line(cmd: &str, deps: &Vec<String>, args: &Vec<String>) -> (r: String)
    ensures
        r@ == spec_banner_line(cmd@, deps.deep_view(), args.deep_view()),
{
    let mut r = String::from_str("\x1b[32;1;4m");
    r.append("rerun: \"");
    r.append(cmd);
    r.append("\", deps=");
    let dep_list = string_list(deps);
    r.append(dep_list.as_str());
    r.append(" + ");
    r.append(cmd);
    r.append(", args=");
    let arg_list = string_list(args);
    r.append(arg_list.as_str());
    r.append("\x1b[0m");
    proof {
        assert(r@ =~= spec_banner_line(cmd@, deps.deep_view(), args.deep_view()));
    }
    r
}

/// The natural-exit outcome, with the exit code the poll reported.
pub open spec fn spec_exit_line(cmd: Seq<char>, code: int) -> Seq<char> {
    ok_color() + "rerun: \""@ + cmd + "\" exited with code "@ + decimal_int(code) + def_color()
}

/// Builds the exit outcome line.
pub fn exit_line(cmd: &str, code: i32) -> (r: String)
    ensures
        r@ == spec_exit_line(cmd@, code as int),
{
    let mut r = String::from_str("\x1b[32;1;4m");
    r.append("rerun: \"");
    r.append(cmd);
    r.append("\" exited with code ");
    let num = format_i32(code);
    r.append(num.as_str());
    r.append("\x1b[0m");
    proof {
        assert(r@ =~= spec_exit_line(cmd@, code as int));
    }
    r
}

/// A poll or wait on the child failed; the run is over.
pub open spec fn spec_poll_error_line(cmd: Seq<char>, cause: Seq<char>) -> Seq<char> {
    err_color() + "rerun: \""@ + cmd + "\" errored, cause: "@ + cause + def_color()
}

/// Builds the poll/wait failure line.
pub fn poll_error_line(cmd: &str, cause: &str) -> (r: String)
    ensures
        r@ == spec_poll_error_line(cmd@, cause@),
{
    let mut r = String::from_str("\x1b[31;1;4m");
    r.append("rerun: \"");
    r.append(cmd);
    r.append("\" errored, cause: ");
    r.append(cause);
    r.append("\x1b[0m");
    proof {
        assert(r@ =~= spec_poll_error_line(cmd@, cause@));
    }
    r
}

/// The command could not be started at all.
pub open spec fn spec_spawn_error_line(cmd: Seq<char>, cause: Seq<char>) -> Seq<char> {
    err_color() + "rerun: can't start \""@ + cmd + "\", cause: "@ + cause + def_color()
}

/// Builds the spawn failure line.
pub fn spawn_error_line(cmd: &str, cause: &str) -> (r: String)
    ensures
        r@ == spec_spawn_error_line(cmd@, cause@),
{
    let mut r = String::from_str("\x1b[31;1;4m");
    r.append("rerun: can't start \"");
    r.append(cmd);
    r.append("\", cause: ");
    r.append(cause);
    r.append("\x1b[0m");
    proof {
        assert(r@ =~= spec_spawn_error_line(cmd@, cause@));
    }
    r
}

/// The child spawned but its output streams could not be captured.
pub open spec fn spec_streams_error_line() -> Seq<char> {
    err_color() + "rerun: can't get stdout/stderr of spawned process"@ + def_color()
}

/// Builds the stream acquisition failure line.
pub fn streams_error_line() -> (r: String)
    ensures
        r@ == spec_streams_error_line(),
{
    let mut r = String::from_str("\x1b[31;1;4m");
    r.append("rerun: can't get stdout/stderr of spawned process");
    r.append("\x1b[0m");
    proof {
        assert(r@ =~= spec_streams_error_line());
    }
    r
}

} // verus!
