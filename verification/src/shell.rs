//! Choice of shell and of the one-shot initialization command.
//!
//! The shell to spawn is decided from plain inputs: the platform and the
//! value of the `SHELL` environment variable, both handed in by the host.
//! A recognized shell additionally receives a short initialization string,
//! written to the terminal before any user input, that makes its prompt
//! update the window title; unrecognized shells get none.

use vstd::prelude::*;
use vstd::string::StringExecFns;
use vstd::string::StrSliceExecFns;

verus! {

/// Whether `suffix` ends `s`.
pub open spec fn ends_with_spec(s: Seq<char>, suffix: Seq<char>) -> bool {
    suffix.len() <= s.len() && s.subrange(s.len() - suffix.len(), s.len() as int) == suffix
}

/// Suffix test over the characters of two strings.
fn str_ends_with(s: &str, suffix: &str) -> (r: bool)
    ensures
        r == ends_with_spec(s@, suffix@),
{
    let n = s.unicode_len();
    let m = suffix.unicode_len();
    if n < m {
        return false;
    }
    let mut i: usize = 0;
    while i < m
        invariant
            m <= n,
            n == s@.len(),
            m == suffix@.len(),
            i <= m,
            forall|j: int| 0 <= j < i ==> s@[n - m + j] == suffix@[j],
        decreases m - i,
    {
        if s.get_char(n - m + i) != suffix.get_char(i) {
            assert(s@.subrange(s@.len() - suffix@.len(), s@.len() as int)[i as int] != suffix@[i as int]);
            return false;
        }
        i += 1;
    }
    proof {
        assert(s@.subrange(s@.len() - suffix@.len(), s@.len() as int) =~= suffix@);
    }
    true
}

/// The families of shell the manager recognizes for prompt initialization.
#[derive(Clone, Copy, Debug, PartialEq, Eq, Structural)]
pub enum ShellKind {
    Zsh,
    Bash,
    Other,
}

/// How a shell path is classified, by its ending.
pub open spec fn shell_kind_of(path: Seq<char>) -> ShellKind {
    if ends_with_spec(path, "zsh"@) {
        ShellKind::Zsh
    } else if ends_with_spec(path, "bash"@) {
        ShellKind::Bash
    } else {
        ShellKind::Other
    }
}

/// Classify a shell path by its ending.
pub fn shell_kind(path: &str) -> (r: ShellKind)
    ensures
        r == shell_kind_of(path@),
{
    if str_ends_with(path, "zsh") {
        ShellKind::Zsh
    } else if str_ends_with(path, "bash") {
        ShellKind::Bash
    } else {
        ShellKind::Other
    }
}

/// The initialization string owed to each shell family: a prompt hook that
/// keeps the window title current, or nothing for an unrecognized shell.
pub open spec fn init_command_of(kind: ShellKind) -> Seq<char> {
    match kind {
        ShellKind::Zsh => "precmd() { print -Pn \"\\033]0;%1c\\a\" }\n"@,
        ShellKind::Bash => "PROMPT_COMMAND='echo -ne \"\\033]0;\\W\\a\"'\n"@,
        ShellKind::Other => Seq::empty(),
    }
}

/// The one-shot initialization command for the given shell path; empty when
/// the shell is not recognized, in which case nothing is to be written.
pub fn shell_init_command(path: &str) -> (r: String)
    ensures
        r@ == init_command_of(shell_kind_of(path@)),
{
    match shell_kind(path) {
        ShellKind::Zsh => String::from_str("precmd() { print -Pn \"\\033]0;%1c\\a\" }\n"),
        ShellKind::Bash => String::from_str("PROMPT_COMMAND='echo -ne \"\\033]0;\\W\\a\"'\n"),
        ShellKind::Other => {
            let r = String::new();
            proof {
                assert(r@ =~= init_command_of(ShellKind::Other));
            }
            r
        },
    }
}

/// The shell the manager spawns: the platform's default interpreter on
/// Windows, otherwise the `SHELL` environment variable's value, falling back
/// to a POSIX shell when it is unset.
pub fn default_shell(on_windows: bool, shell_var: Option<String>) -> (r: String)
    ensures
        on_windows ==> r@ == "powershell.exe"@,
        !on_windows ==> match shell_var {
            Some(v) => r@ == v@,
            None => r@ == "/bin/sh"@,
        },
{
    if on_windows {
        String::from_str("powershell.exe")
    } else {
        match shell_var {
            Some(v) => v,
            None => String::from_str("/bin/sh"),
        }
    }
}

} // verus!
