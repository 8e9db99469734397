use vstd::prelude::*;
use vstd::string::StringExecFns;

use crate::status::{CommitStatus, CommitStatusView, StatusState};

verus! {

/// The context of the status line that reports the whole evaluation.
pub open spec fn overall_context() -> Seq<char> {
    "grahamcofborg-eval"@
}

/// The context of the status line of the check named `name`.
pub open spec fn check_context(name: Seq<char>) -> Seq<char> {
    "grahamcofborg-eval-"@ + name
}

/// `words` written one after another, with one space between two.
pub open spec fn join_words(words: Seq<Seq<char>>) -> Seq<char>
    decreases words.len(),
{
    if words.len() == 0 {
        Seq::empty()
    } else if words.len() == 1 {
        words[0]
    } else {
        join_words(words.drop_last()) + " "@ + words.last()
    }
}

pub open spec fn string_views(v: Seq<String>) -> Seq<Seq<char>> {
    v.map_values(|s: String| s@)
}

/// A named evaluation: a command and its arguments, run in a tree.
pub struct EvalChecker {
    name: String,
    cmd: String,
    args: Vec<String>,
}

pub struct EvalCheckerView {
    pub name: Seq<char>,
    pub cmd: Seq<char>,
    pub args: Seq<Seq<char>>,
}

impl EvalCheckerView {
    /// The command line, as one string.
    pub open spec fn cli(self) -> Seq<char> {
        join_words(seq![self.cmd] + self.args)
    }
}

impl View for EvalChecker {
    type V = EvalCheckerView;

    closed spec fn view(&self) -> EvalCheckerView {
        EvalCheckerView { name: self.name@, cmd: self.cmd@, args: string_views(self.args@) }
    }
}

/// What is uploaded beside a check's status: its output, in one file.
pub struct Artifact {
    pub description: String,
    pub public: bool,
    pub file_name: String,
    pub content: String,
}

impl EvalChecker {
    pub fn new(name: &str, cmd: &str, args: Vec<String>) -> (r: EvalChecker)
        ensures
            r@ == (EvalCheckerView { name: name@, cmd: cmd@, args: string_views(args@) }),
    {
        EvalChecker { name: name.to_owned(), cmd: cmd.to_owned(), args }
    }

    /// The context of this check's status line.
    pub fn name(&self) -> (r: String)
        ensures
            r@ == check_context(self@.name),
    {
        let mut r = String::from_str("grahamcofborg-eval-");
        r.append(self.name.as_str());
        r
    }

    pub fn cmd(&self) -> (r: &String)
        ensures
            r@ == self@.cmd,
    {
        &self.cmd
    }

    pub fn args(&self) -> (r: &Vec<String>)
        ensures
            string_views(r@) == self@.args,
    {
        &self.args
    }

    /// The command line: the command and each argument, one space apart.
    pub fn cli_cmd(&self) -> (r: String)
        ensures
            r@ == self@.cli(),
    {
        let mut cli = self.cmd.clone();
        let mut k: usize = 0;
        proof {
            assert(seq![self.cmd@] + string_views(self.args@.take(0)) =~= seq![self.cmd@]);
        }
        while k < self.args.len()
            invariant
                k <= self.args.len(),
                cli@ == join_words(seq![self.cmd@] + string_views(self.args@.take(k as int))),
            decreases self.args.len() - k,
        {
            let ghost words = seq![self.cmd@] + string_views(self.args@.take(k as int));
            cli.append(" ");
            cli.append(self.args[k].as_str());
            proof {
                let next = seq![self.cmd@] + string_views(self.args@.take(k + 1));
                assert(next =~= words.push(self.args@[k as int]@));
                assert(next.drop_last() =~= words);
            }
            k += 1;
        }
        assert(self.args@.take(self.args.len() as int) =~= self.args@);
        cli
    }

    /// This check's status line on commit `sha`, described by the command
    /// line and with no link yet.
    pub fn status(&self, sha: String) -> (r: CommitStatus)
        ensures
            r@ == (CommitStatusView {
                sha: sha@,
                context: check_context(self@.name),
                description: self@.cli(),
                url: Seq::empty(),
            }),
    {
        CommitStatus::new(sha, self.name(), self.cli_cmd(), None)
    }

    /// The upload of `output`, the check's output, once it ended in `state`.
    pub fn artifact(&self, state: StatusState, output: String) -> (r: Artifact)
        ensures
            r.description@ == state.spec_label(),
            r.public,
            r.file_name@ == check_context(self@.name),
            r.content@ == output@,
    {
        Artifact { description: state.label(), public: true, file_name: self.name(), content: output }
    }
}

/// The final state of a check's status line: `Success` when it ran through.
pub fn outcome_state(succeeded: bool) -> (r: StatusState)
    ensures
        r == (if succeeded {
            StatusState::Success
        } else {
            StatusState::Failure
        }),
{
    if succeeded {
        StatusState::Success
    } else {
        StatusState::Failure
    }
}

/// Whether every check ended in `Success`.
pub fn all_succeeded(states: &Vec<StatusState>) -> (r: bool)
    ensures
        r == (forall|i: int| 0 <= i < states@.len() ==> states@[i] == StatusState::Success),
{
    let mut k: usize = 0;
    while k < states.len()
        invariant
            k <= states.len(),
            forall|i: int| 0 <= i < k ==> states@[i] == StatusState::Success,
        decreases states.len() - k,
    {
        if states[k] != StatusState::Success {
            return false;
        }
        k += 1;
    }
    true
}

fn owned_words(words: Vec<&str>) -> (r: Vec<String>)
    ensures
        r@.len() == words@.len(),
        forall|i: int| 0 <= i < words@.len() ==> #[trigger] r@[i]@ == words@[i]@,
{
    let mut r: Vec<String> = Vec::new();
    let mut k: usize = 0;
    while k < words.len()
        invariant
            k <= words.len(),
            r@.len() == k,
            forall|i: int| 0 <= i < k ==> #[trigger] r@[i]@ == words@[i]@,
        decreases words.len() - k,
    {
        r.push(words[k].to_owned());
        k += 1;
    }
    r
}

/// The evaluations that every pull request goes through.
pub open spec fn standard_checks() -> Seq<EvalCheckerView> {
    seq![
        EvalCheckerView {
            name: "package-list"@,
            cmd: "nix-env"@,
            args: seq!["--file"@, "."@, "--query"@, "--available"@, "--json"@],
        },
        EvalCheckerView {
            name: "nixos-options"@,
            cmd: "nix-instantiate"@,
            args: seq!["./nixos/release.nix"@, "-A"@, "options"@],
        },
        EvalCheckerView {
            name: "nixos-manual"@,
            cmd: "nix-instantiate"@,
            args: seq!["./nixos/release.nix"@, "-A"@, "manual"@],
        },
        EvalCheckerView {
            name: "nixpkgs-manual"@,
            cmd: "nix-instantiate"@,
            args: seq!["./pkgs/top-level/release.nix"@, "-A"@, "manual"@],
        },
        EvalCheckerView {
            name: "nixpkgs-tarball"@,
            cmd: "nix-instantiate"@,
            args: seq!["./pkgs/top-level/release.nix"@, "-A"@, "tarball"@],
        },
        EvalCheckerView {
            name: "nixpkgs-unstable-jobset"@,
            cmd: "nix-instantiate"@,
            args: seq!["./pkgs/top-level/release.nix"@, "-A"@, "unstable"@],
        },
    ]
}

fn checker(name: &str, cmd: &str, args: Vec<&str>) -> (r: EvalChecker)
    ensures
        r@.name == name@,
        r@.cmd == cmd@,
        r@.args == args@.map_values(|a: &str| a@),
{
    let owned = owned_words(args);
    let r = EvalChecker::new(name, cmd, owned);
    assert(string_views(owned@) =~= args@.map_values(|a: &str| a@));
    r
}

/// The evaluations that every pull request goes through, in the order
/// they run.
pub fn eval_checks() -> (r: Vec<EvalChecker>)
    ensures
        r@.len() == standard_checks().len(),
        forall|i: int| 0 <= i < r@.len() ==> #[trigger] r@[i]@ == standard_checks()[i],
{
    let mut r: Vec<EvalChecker> = Vec::new();
    r.push(checker("package-list", "nix-env", vec!["--file", ".", "--query", "--available", "--json"]));
    r.push(checker("nixos-options", "nix-instantiate", vec!["./nixos/release.nix", "-A", "options"]));
    r.push(checker("nixos-manual", "nix-instantiate", vec!["./nixos/release.nix", "-A", "manual"]));
    r.push(checker("nixpkgs-manual", "nix-instantiate", vec!["./pkgs/top-level/release.nix", "-A", "manual"]));
    r.push(checker("nixpkgs-tarball", "nix-instantiate", vec!["./pkgs/top-level/release.nix", "-A", "tarball"]));
    r.push(checker("nixpkgs-unstable-jobset", "nix-instantiate", vec!["./pkgs/top-level/release.nix", "-A", "unstable"]));
    proof {
        assert forall|i: int| 0 <= i < r@.len() implies #[trigger] r@[i]@ == standard_checks()[i] by {
            let c = standard_checks()[i];
            assert(r@[i]@.args =~= c.args);
        }
    }
    r
}

} // verus!
