//! The one-shot command helper's decisions.
//!
//! The host offers a small "run a command and capture its output" service
//! beside the terminal sessions. Everything it decides — how a line breaks
//! into words, when the line is empty, when it is a directory change and
//! where that change goes, and which of the captured streams is the answer —
//! is computed and verified here; the host only performs the process launch
//! and the directory change themselves.

use vstd::prelude::*;
use vstd::string::StringExecFns;
use vstd::string::StrSliceExecFns;

verus! {

/// Whether the character counts as whitespace between words. The property
/// depends on the character alone.
pub uninterp spec fn unicode_space(c: char) -> bool;

/// Relies on char::is_whitespace: the Unicode whitespace property, a
/// function of the character alone; space, tab, carriage return and line
/// feed all have it.
#[verifier::external_body]
fn is_space(c: char) -> (r: bool)
    ensures
        r == unicode_space(c),
        (c == ' ' || c == '\t' || c == '\n' || c == '\r') ==> r,
{
    c.is_whitespace()
}

/// Relies on String::push: appends exactly the given character.
#[verifier::external_body]
fn push_char(s: &mut String, c: char)
    ensures
        final(s)@ == old(s)@.push(c),
{
    s.push(c);
}

/// The words of `s` after the word collected so far (`cur`): whitespace
/// closes the current word, every other character extends it.
pub open spec fn split_acc(s: Seq<char>, cur: Seq<char>) -> Seq<Seq<char>>
    decreases s.len(),
{
    if s.len() == 0 {
        if cur.len() == 0 {
            Seq::empty()
        } else {
            seq![cur]
        }
    } else if unicode_space(s[0]) {
        if cur.len() == 0 {
            split_acc(s.drop_first(), cur)
        } else {
            seq![cur] + split_acc(s.drop_first(), Seq::empty())
        }
    } else {
        split_acc(s.drop_first(), cur.push(s[0]))
    }
}

/// The whitespace-separated words of a line, in order, each nonempty.
pub open spec fn split_ws(s: Seq<char>) -> Seq<Seq<char>> {
    split_acc(s, Seq::empty())
}

/// Every word the split yields is nonempty: whitespace only ever closes a
/// word that has at least one character.
pub proof fn law_split_words_nonempty(s: Seq<char>, cur: Seq<char>)
    ensures
        forall|i: int| 0 <= i < split_acc(s, cur).len() ==> split_acc(s, cur)[i].len() > 0,
    decreases s.len(),
{
    if s.len() == 0 {
        if cur.len() > 0 {
            assert(split_acc(s, cur) == seq![cur]);
            assert(split_acc(s, cur)[0] == cur);
        }
    } else if unicode_space(s[0]) {
        if cur.len() == 0 {
            law_split_words_nonempty(s.drop_first(), cur);
            assert(split_acc(s, cur) == split_acc(s.drop_first(), cur));
        } else {
            law_split_words_nonempty(s.drop_first(), Seq::empty());
            assert(split_acc(s, cur) == seq![cur] + split_acc(s.drop_first(), Seq::empty()));
            assert forall|i: int|
                0 <= i < split_acc(s, cur).len() implies split_acc(s, cur)[i].len() > 0 by {
                if i == 0 {
                    assert(split_acc(s, cur)[0] == cur);
                } else {
                    assert(split_acc(s, cur)[i] == split_acc(s.drop_first(), Seq::empty())[i - 1]);
                }
            }
        }
    } else {
        law_split_words_nonempty(s.drop_first(), cur.push(s[0]));
        assert(split_acc(s, cur) == split_acc(s.drop_first(), cur.push(s[0])));
    }
}

/// The characters of a string, as a vector.
fn chars_vec(s: &str) -> (r: Vec<char>)
    ensures
        r@ == s@,
{
    let n = s.unicode_len();
    let mut r: Vec<char> = Vec::new();
    let mut i: usize = 0;
    while i < n
        invariant
            n == s@.len(),
            i <= n,
            r@ == s@.subrange(0, i as int),
        decreases n - i,
    {
        r.push(s.get_char(i));
        i += 1;
        proof {
            assert(r@ =~= s@.subrange(0, i as int));
        }
    }
    proof {
        assert(s@.subrange(0, n as int) =~= s@);
    }
    r
}

/// Break a line into its whitespace-separated words.
pub fn split_whitespace_tokens(line: &str) -> (r: Vec<String>)
    ensures
        r@.map_values(|t: String| t@) == split_ws(line@),
{
    let cs = chars_vec(line);
    let mut out: Vec<String> = Vec::new();
    let mut cur: String = String::new();
    let mut i: usize = 0;
    proof {
        assert(line@.skip(0) =~= line@);
        assert(out@.map_values(|t: String| t@) + split_acc(line@.skip(0), cur@) =~= split_ws(
            line@,
        ));
    }
    while i < cs.len()
        invariant
            cs@ == line@,
            i <= cs@.len(),
            out@.map_values(|t: String| t@) + split_acc(line@.skip(i as int), cur@) == split_ws(
                line@,
            ),
        decreases cs@.len() - i,
    {
        let ghost rest = line@.skip(i as int);
        proof {
            assert(rest[0] == line@[i as int]);
            assert(rest.drop_first() =~= line@.skip(i as int + 1));
        }
        let c = cs[i];
        if is_space(c) {
            if cur.as_str().is_empty() {
                proof {
                    assert(split_acc(rest, cur@) == split_acc(rest.drop_first(), cur@));
                }
            } else {
                let ghost out0 = out@;
                let ghost cur0 = cur@;
                out.push(cur);
                cur = String::new();
                proof {
                    assert(out@.map_values(|t: String| t@) =~= out0.map_values(|t: String| t@)
                        + seq![cur0]);
                    assert(split_acc(rest, cur0) == seq![cur0] + split_acc(
                        rest.drop_first(),
                        Seq::empty(),
                    ));
                    assert(cur@ =~= Seq::<char>::empty());
                    assert(out@.map_values(|t: String| t@) + split_acc(
                        line@.skip(i as int + 1),
                        cur@,
                    ) =~= split_ws(line@));
                }
            }
        } else {
            let ghost cur0 = cur@;
            push_char(&mut cur, c);
            proof {
                assert(split_acc(rest, cur0) == split_acc(rest.drop_first(), cur0.push(rest[0])));
            }
        }
        i += 1;
    }
    proof {
        assert(line@.skip(line@.len() as int) =~= Seq::<char>::empty());
    }
    if !cur.as_str().is_empty() {
        let ghost out0 = out@;
        let ghost cur0 = cur@;
        out.push(cur);
        proof {
            assert(out@.map_values(|t: String| t@) =~= out0.map_values(|t: String| t@)
                + seq![cur0]);
            assert(out@.map_values(|t: String| t@) =~= split_ws(line@));
        }
    } else {
        proof {
            assert(out@.map_values(|t: String| t@) + Seq::<Seq<char>>::empty() =~= out@.map_values(
                |t: String| t@,
            ));
        }
    }
    out
}

/// What a command line asks for, in the model.
#[verifier::ext_equal]
pub enum PlanModel {
    /// A blank line: nothing to do, an empty answer.
    Empty,
    /// A directory change to `path` (`~` standing for the home directory).
    ChangeDir { path: Seq<char> },
    /// Launching `cmd` with `args` and capturing its output.
    Run { cmd: Seq<char>, args: Seq<Seq<char>> },
}

/// What a command line asks for.
pub enum CommandPlan {
    Empty,
    ChangeDir { path: String },
    Run { cmd: String, args: Vec<String> },
}

impl CommandPlan {
    pub open spec fn model(self) -> PlanModel {
        match self {
            CommandPlan::Empty => PlanModel::Empty,
            CommandPlan::ChangeDir { path } => PlanModel::ChangeDir { path: path@ },
            CommandPlan::Run { cmd, args } => PlanModel::Run {
                cmd: cmd@,
                args: args@.map_values(|a: String| a@),
            },
        }
    }
}

/// The plan a line parses to: blank lines do nothing, a leading `cd` is a
/// directory change whose target defaults to `~`, anything else launches the
/// first word with the rest as arguments.
pub open spec fn plan_of(line: Seq<char>) -> PlanModel {
    let toks = split_ws(line);
    if toks.len() == 0 {
        PlanModel::Empty
    } else if toks[0] == "cd"@ {
        PlanModel::ChangeDir {
            path: if toks.len() >= 2 {
                toks[1]
            } else {
                "~"@
            },
        }
    } else {
        PlanModel::Run { cmd: toks[0], args: toks.skip(1) }
    }
}

/// Parse one command line into its plan.
pub fn parse_command(line: &str) -> (r: CommandPlan)
    ensures
        r.model() == plan_of(line@),
{
    let mut toks = split_whitespace_tokens(line);
    let ghost gtoks = split_ws(line@);
    if toks.len() == 0 {
        CommandPlan::Empty
    } else {
        let ghost toks0 = toks@;
        let first = toks.remove(0);
        proof {
            assert(first@ == gtoks[0]);
            assert(toks@.map_values(|t: String| t@) =~= gtoks.skip(1));
        }
        if first == String::from_str("cd") {
            let path = if toks.len() > 0 {
                toks.remove(0)
            } else {
                String::from_str("~")
            };
            proof {
                if gtoks.len() >= 2 {
                    assert(path@ == gtoks.skip(1)[0]);
                }
            }
            CommandPlan::ChangeDir { path }
        } else {
            let r = CommandPlan::Run { cmd: first, args: toks };
            proof {
                assert(r.model() =~~= plan_of(line@));
            }
            r
        }
    }
}

/// Where a directory change goes: `~` means the home directory, which the
/// host resolves and hands in; any other path stands for itself. Fails
/// exactly when the home directory is asked for but unknown.
pub fn cd_target(path: String, home: Option<String>) -> (r: Result<String, String>)
    ensures
        path@ == "~"@ ==> match home {
            Some(h) => r matches Ok(t) && t@ == h@,
            None => r matches Err(e) && e@ == "Could not find home directory"@,
        },
        path@ != "~"@ ==> (r matches Ok(t) && t@ == path@),
{
    if path == String::from_str("~") {
        match home {
            Some(h) => Ok(h),
            None => Err(String::from_str("Could not find home directory")),
        }
    } else {
        Ok(path)
    }
}

/// Which captured stream answers the caller: standard output of a command
/// that succeeded, standard error of one that failed.
pub fn pick_output(success: bool, stdout: String, stderr: String) -> (r: String)
    ensures
        success ==> r@ == stdout@,
        !success ==> r@ == stderr@,
{
    if success {
        stdout
    } else {
        stderr
    }
}

/// Who and where the host is running as.
#[derive(Clone)]
pub struct SystemInfo {
    pub username: String,
    pub hostname: String,
}

impl SystemInfo {
    /// Package the host's identity answers.
    pub fn new(username: String, hostname: String) -> (r: SystemInfo)
        ensures
            r.username@ == username@,
            r.hostname@ == hostname@,
    {
        SystemInfo { username, hostname }
    }
}

} // verus!
