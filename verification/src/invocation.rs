//! Splitting the command line into the `(deps, cmd, args)` triple.
//!
//! The arguments after the program name are read as either
//! `<cmd> [args...]` or `<file...> -- <cmd> [args...]`: everything
//! before the first `--` token is a dependency path to watch, the token
//! after it (or the first token, when no `--` occurs) is the command,
//! and the rest are the command's arguments.  When no command token can
//! be identified — the input is empty, or `--` is its last token — the
//! supervisor prints the usage message and exits with status 1 instead
//! of entering the loop.

use vstd::prelude::*;

verus! {

/// The token that separates the dependency paths from the command.
pub open spec fn separator() -> Seq<char> {
    "--"@
}

/// Position of the first separator token, if any.
pub open spec fn first_separator(input: Seq<Seq<char>>) -> Option<int>
    decreases input.len(),
{
    if input.len() == 0 {
        None
    } else if input[0] == separator() {
        Some(0int)
    } else {
        match first_separator(input.drop_first()) {
            None => None,
            Some(p) => Some(p + 1),
        }
    }
}

/// Index of the command token: right after the first separator, or the
/// very first token when no separator occurs.
pub open spec fn command_position(input: Seq<Seq<char>>) -> int {
    match first_separator(input) {
        Some(p) => p + 1,
        None => 0,
    }
}

/// Whether a command token can be identified at all.
pub open spec fn has_command(input: Seq<Seq<char>>) -> bool {
    command_position(input) < input.len()
}

/// The dependency paths: every token before the first separator.
pub open spec fn spec_deps(input: Seq<Seq<char>>) -> Seq<Seq<char>> {
    match first_separator(input) {
        Some(p) => input.take(p),
        None => Seq::empty(),
    }
}

/// The command line of one supervisor process: the paths to watch, the
/// command to run, and its arguments.  Parsed once at startup and
/// read-only thereafter.
pub struct Invocation {
    /// Paths watched in addition to the command itself.
    pub deps: Vec<String>,
    /// The executable to run; its own path is also watched.
    pub cmd: String,
    /// Arguments handed to the command.
    pub args: Vec<String>,
}

/// A first separator, when there is one, is a separator token inside
/// the input.
proof fn lemma_first_separator_range(s: Seq<Seq<char>>)
    ensures
        first_separator(s) matches Some(p) ==> 0 <= p < s.len() && s[p] == separator(),
    decreases s.len(),
{
    if s.len() != 0 && !(s[0] == separator()) {
        lemma_first_separator_range(s.drop_first());
    }
}

/// Extending a separator-free input by one token: the new token is the
/// first separator exactly if it is one.
proof fn lemma_first_separator_extend(s: Seq<Seq<char>>, x: Seq<char>)
    requires
        first_separator(s) is None,
    ensures
        first_separator(s.push(x)) == (if x == separator() {
            Some(s.len() as int)
        } else {
            None::<int>
        }),
    decreases s.len(),
{
    if s.len() == 0 {
        assert(s.push(x).len() == 1);
        assert(s.push(x)[0] == x);
        assert(s.push(x).drop_first() =~= Seq::<Seq<char>>::empty());
        assert(first_separator(s.push(x).drop_first()) is None);
        if x == separator() {
            assert(first_separator(s.push(x)) == Some(0int));
        } else {
            assert(first_separator(s.push(x)) is None);
        }
    } else {
        assert(!(s[0] == separator()));
        assert(first_separator(s.drop_first()) is None);
        assert(s.push(x)[0] == s[0]);
        assert(s.push(x).drop_first() =~= s.drop_first().push(x));
        lemma_first_separator_extend(s.drop_first(), x);
        if x == separator() {
            assert(first_separator(s.drop_first().push(x)) == Some(s.len() - 1));
            assert(first_separator(s.push(x).drop_first()) == Some(s.len() - 1));
            assert(first_separator(s.push(x)) == Some(s.len() as int));
        } else {
            assert(first_separator(s.drop_first().push(x)) is None);
            assert(first_separator(s.push(x).drop_first()) is None);
            assert(first_separator(s.push(x)) is None);
        }
    }
}

/// A separator token whose prefix holds none is the first separator.
proof fn lemma_first_separator_found(s: Seq<Seq<char>>, i: int)
    requires
        0 <= i < s.len(),
        first_separator(s.take(i)) is None,
        s[i] == separator(),
    ensures
        first_separator(s) == Some(i),
    decreases i,
{
    if i == 0 {
    } else {
        assert(s.take(i)[0] == s[0]);
        assert(s.take(i).drop_first() =~= s.drop_first().take(i - 1));
        assert(s.drop_first()[i - 1] == s[i]);
        lemma_first_separator_found(s.drop_first(), i - 1);
    }
}

/// Law: no command token is identifiable exactly when the input is
/// empty or the first separator is its last token — the two shapes on
/// which the supervisor prints the usage message and exits with
/// status 1 instead of entering the loop.
pub proof fn lemma_no_command(input: Seq<Seq<char>>)
    ensures
        !has_command(input) <==> (input.len() == 0 || first_separator(input) == Some(
            input.len() - 1,
        )),
{
    lemma_first_separator_range(input);
}

/// Splits the raw arguments (everything after the program name) into an
/// `Invocation`.  Returns `None` exactly when no command token can be
/// identified.
pub fn parse_invocation(input: &Vec<String>) -> (r: Option<Invocation>)
    ensures
        r is Some <==> has_command(input.deep_view()),
        r matches Some(inv) ==> {
            &&& inv.deps.deep_view() == spec_deps(input.deep_view())
            &&& inv.cmd@ == input.deep_view()[command_position(input.deep_view())]
            &&& inv.args.deep_view() == input.deep_view().skip(
                command_position(input.deep_view()) + 1,
            )
        },
{
    let ghost all = input.deep_view();
    let n = input.len();
    let sep = String::from_str("--");
    let mut split: Option<usize> = None;
    let mut i: usize = 0;
    while i < n
        invariant
            i <= n,
            n == all.len(),
            all == input.deep_view(),
            sep@ == separator(),
            split is None ==> first_separator(all.take(i as int)) is None,
            split matches Some(p) ==> first_separator(all) == Some(p as int),
        decreases n - i,
    {
        if split.is_none() {
            if input[i] == sep {
                proof {
                    lemma_first_separator_found(all, i as int);
                }
                split = Some(i);
            } else {
                proof {
                    lemma_first_separator_extend(all.take(i as int), all[i as int]);
                    assert(all.take(i + 1) =~= all.take(i as int).push(all[i as int]));
                }
            }
        }
        i = i + 1;
    }
    proof {
        assert(all.take(n as int) =~= all);
        lemma_first_separator_range(all);
    }
    let cmd_pos: usize = match split {
        Some(p) => p + 1,
        None => 0,
    };
    assert(cmd_pos as int == command_position(all));
    if cmd_pos >= n {
        None
    } else {
        let dep_count: usize = match split {
            Some(p) => p,
            None => 0,
        };
        let mut deps: Vec<String> = Vec::new();
        let mut k: usize = 0;
        while k < dep_count
            invariant
                k <= dep_count,
                dep_count < n,
                n == input@.len(),
                all == input.deep_view(),
                deps.deep_view() =~= all.take(k as int),
            decreases dep_count - k,
        {
            let ghost prev = deps.deep_view();
            let x = input[k].clone();
            proof {
                assert(x@ == all[k as int]);
            }
            deps.push(x);
            proof {
                assert(deps.deep_view() =~= prev.push(all[k as int]));
                assert(all.take(k as int).push(all[k as int]) =~= all.take(k + 1));
            }
            k = k + 1;
        }
        proof {
            if split is Some {
                assert(deps.deep_view() == spec_deps(all));
            } else {
                assert(deps.deep_view() =~= spec_deps(all));
            }
        }
        let cmd = input[cmd_pos].clone();
        let mut args: Vec<String> = Vec::new();
        let mut k: usize = cmd_pos + 1;
        while k < n
            invariant
                cmd_pos + 1 <= k <= n,
                n == input@.len(),
                all == input.deep_view(),
                args.deep_view() =~= all.subrange(cmd_pos + 1, k as int),
            decreases n - k,
        {
            let ghost prev = args.deep_view();
            let x = input[k].clone();
            proof {
                assert(x@ == all[k as int]);
            }
            args.push(x);
            proof {
                assert(args.deep_view() =~= prev.push(all[k as int]));
                assert(all.subrange(cmd_pos + 1, k as int).push(all[k as int]) =~= all.subrange(
                    cmd_pos + 1,
                    k + 1,
                ));
            }
            k = k + 1;
        }
        proof {
            assert(args.deep_view() =~= all.skip(cmd_pos + 1));
        }
        Some(Invocation { deps, cmd, args })
    }
}

impl Invocation {
    /// The paths to register with the watcher for one run: every
    /// dependency path, then the command itself, in that order.
    pub fn watch_list(&self) -> (r: Vec<String>)
        ensures
            r.deep_view() == self.deps.deep_view().push(self.cmd@),
    {
        let mut r: Vec<String> = Vec::new();
        let mut k: usize = 0;
        let n = self.deps.len();
        while k < n
            invariant
                k <= n,
                n == self.deps@.len(),
                r.deep_view() =~= self.deps.deep_view().take(k as int),
            decreases n - k,
        {
            let ghost prev = r.deep_view();
            let ghost dv = self.deps.deep_view();
            let x = self.deps[k].clone();
            proof {
                assert(x@ == dv[k as int]);
            }
            r.push(x);
            proof {
                assert(r.deep_view() =~= prev.push(dv[k as int]));
                assert(dv.take(k as int).push(dv[k as int]) =~= dv.take(k + 1));
            }
            k = k + 1;
        }
        r.push(self.cmd.clone());
        proof {
            assert(self.deps.deep_view().take(n as int) =~= self.deps.deep_view());
            assert(r.deep_view() =~= self.deps.deep_view().push(self.cmd@));
        }
        r
    }
}

/// The usage message, printed (followed by a newline) when no command
/// token can be identified.
pub open spec fn spec_usage() -> Seq<char> {
    "\nUsage: \n    ./rerun <cmd>\n\nWith args:\n    ./rerun <cmd> [arg1] [arg2] [...]\n\nWith deps watch:\n    ./rerun <file1> <file2> <...> -- <cmd> [arg1] [arg2] [...]\n"@
}

/// Builds the usage message.
pub fn usage_message() -> (r: String)
    ensures
        r@ == spec_usage(),
{
    String::from_str(
        "\nUsage: \n    ./rerun <cmd>\n\nWith args:\n    ./rerun <cmd> [arg1] [arg2] [...]\n\nWith deps watch:\n    ./rerun <file1> <file2> <...> -- <cmd> [arg1] [arg2] [...]\n",
    )
}

} // verus!
