use vstd::prelude::*;
use vstd::std_specs::iter::IteratorSpec;
use vstd::string::{StrSliceExecFns, StringExecFns};

use crate::eval_check::{string_views, EvalChecker};

verus! {

/// What a line of evaluator output starts with when it names a store path.
pub open spec fn store_prefix() -> Seq<char> {
    seq!['/', 'n', 'i', 'x', '/', 's', 't', 'o', 'r', 'e', '/']
}

/// What a line of evaluator output ends with when it names a derivation.
pub open spec fn drv_suffix() -> Seq<char> {
    seq!['.', 'd', 'r', 'v']
}

pub open spec fn starts_with(l: Seq<char>, p: Seq<char>) -> bool {
    p.len() <= l.len() && l.subrange(0, p.len() as int) == p
}

pub open spec fn ends_with(l: Seq<char>, p: Seq<char>) -> bool {
    p.len() <= l.len() && l.subrange(l.len() - p.len(), l.len() as int) == p
}

/// A line that names a derivation in the store.
pub open spec fn is_drv_line(l: Seq<char>) -> bool {
    starts_with(l, store_prefix()) && ends_with(l, drv_suffix())
}

/// The pieces of `s` between newlines: one more than there are newlines.
pub open spec fn segments(s: Seq<char>) -> Seq<Seq<char>>
    decreases s.len(),
{
    if s.len() == 0 {
        seq![Seq::empty()]
    } else {
        let prev = segments(s.drop_last());
        if s.last() == '\n' {
            prev.push(Seq::empty())
        } else {
            prev.update(prev.len() - 1, prev.last().push(s.last()))
        }
    }
}

/// A line that ended in a newline loses a carriage return before it.
pub open spec fn strip_cr(l: Seq<char>) -> Seq<char> {
    if l.len() > 0 && l.last() == '\r' {
        l.drop_last()
    } else {
        l
    }
}

/// Each of `segs`, as a line that a newline ended.
pub open spec fn ended_lines(segs: Seq<Seq<char>>) -> Seq<Seq<char>> {
    segs.map_values(|l: Seq<char>| strip_cr(l))
}

/// The lines among `ls` that name a derivation, in order.
pub open spec fn drv_only(ls: Seq<Seq<char>>) -> Seq<Seq<char>> {
    ls.filter(drv_pred())
}

pub open spec fn drv_pred() -> spec_fn(Seq<char>) -> bool {
    |l: Seq<char>| is_drv_line(l)
}

/// The lines of `s` as a buffered reader yields them: every piece that a
/// newline ends, without its line ending, then the text after the last
/// newline if there is any.
pub open spec fn lines_of(s: Seq<char>) -> Seq<Seq<char>> {
    let segs = segments(s);
    let ended = ended_lines(segs.drop_last());
    if segs.last().len() == 0 {
        ended
    } else {
        ended.push(segs.last())
    }
}

/// The lines of `s` that name a derivation, in order.
pub open spec fn drv_lines(s: Seq<char>) -> Seq<Seq<char>> {
    drv_only(lines_of(s))
}

/// The derivation that `s` names, when exactly one line names one.
pub open spec fn drv_of(s: Seq<char>) -> Option<Seq<char>> {
    if drv_lines(s).len() == 1 {
        Some(drv_lines(s)[0])
    } else {
        None
    }
}

proof fn lemma_ended_push(segs: Seq<Seq<char>>, l: Seq<char>)
    ensures
        ended_lines(segs.push(l)) == ended_lines(segs).push(strip_cr(l)),
{
    assert(ended_lines(segs.push(l)) =~= ended_lines(segs).push(strip_cr(l)));
}

proof fn lemma_drv_only_push(ls: Seq<Seq<char>>, l: Seq<char>)
    ensures
        drv_only(ls.push(l)) == if is_drv_line(l) {
            drv_only(ls).push(l)
        } else {
            drv_only(ls)
        },
{
    ls.lemma_filter_push(l, drv_pred());
}

proof fn lemma_segments_nonempty(s: Seq<char>)
    ensures
        segments(s).len() >= 1,
    decreases s.len(),
{
    if s.len() > 0 {
        lemma_segments_nonempty(s.drop_last());
    }
}

/// The characters of `s`, in order.
fn chars_of(s: &str) -> (r: Vec<char>)
    ensures
        r@ == s@,
{
    broadcast use vstd::string::group_string_axioms;
    let mut r: Vec<char> = Vec::new();
    for c in iter: s.chars()
        invariant
            r@ == iter.history(),
    {
        r.push(c);
    }
    assert(r@ =~= s@);
    r
}

/// Whether `pat` stands in `cs` at position `at`.
fn matches_at(cs: &Vec<char>, at: usize, pat: &Vec<char>) -> (r: bool)
    requires
        at + pat.len() <= cs.len(),
    ensures
        r == (cs@.subrange(at as int, at + pat.len()) == pat@),
{
    let mut k: usize = 0;
    while k < pat.len()
        invariant
            k <= pat.len(),
            at + pat.len() <= cs.len(),
            forall|j: int| 0 <= j < k ==> cs@[at + j] == pat@[j],
        decreases pat.len() - k,
    {
        if cs[at + k] != pat[k] {
            assert(cs@.subrange(at as int, at + pat.len())[k as int] != pat@[k as int]);
            return false;
        }
        k += 1;
    }
    assert(cs@.subrange(at as int, at + pat.len()) =~= pat@);
    true
}

/// Whether the characters of `cs` from `a` up to `b` form a derivation line.
fn is_drv_span(cs: &Vec<char>, a: usize, b: usize, prefix: &Vec<char>, suffix: &Vec<char>) -> (r:
    bool)
    requires
        a <= b <= cs.len(),
        prefix@ == store_prefix(),
        suffix@ == drv_suffix(),
    ensures
        r == is_drv_line(cs@.subrange(a as int, b as int)),
{
    let n = b - a;
    if n < prefix.len() || n < suffix.len() {
        return false;
    }
    let p = matches_at(cs, a, prefix);
    let q = matches_at(cs, b - suffix.len(), suffix);
    let ghost line = cs@.subrange(a as int, b as int);
    assert(line.subrange(0, prefix.len() as int) =~= cs@.subrange(
        a as int,
        a + prefix.len(),
    ));
    assert(line.subrange(line.len() - suffix.len(), line.len() as int) =~= cs@.subrange(
        b - suffix.len(),
        b as int,
    ));
    p && q
}

/// Picks the derivation out of the output of a stdenv evaluation: the one
/// line that starts with the store prefix and ends in `.drv`. No such line,
/// or more than one, gives `None`.
pub fn file_to_drv(output: &str) -> (r: Option<String>)
    ensures
        match r {
            Some(l) => drv_of(output@) == Some(l@),
            None => drv_of(output@) is None,
        },
{
    let cs = chars_of(output);
    let prefix: Vec<char> = vec!['/', 'n', 'i', 'x', '/', 's', 't', 'o', 'r', 'e', '/'];
    let suffix: Vec<char> = vec!['.', 'd', 'r', 'v'];
    assert(prefix@ =~= store_prefix());
    assert(suffix@ =~= drv_suffix());
    let mut matches: Vec<String> = Vec::new();
    let mut start: usize = 0;
    let mut i: usize = 0;
    proof {
        assert(cs@.take(0) =~= Seq::<char>::empty());
        reveal(Seq::filter);
        assert(ended_lines(segments(cs@.take(0)).drop_last()) =~= Seq::<Seq<char>>::empty());
        assert(string_views(matches@) =~= Seq::<Seq<char>>::empty());
    }
    proof {
        lemma_segments_nonempty(cs@.take(0));
    }
    while i < cs.len()
        invariant
            cs@ == output@,
            prefix@ == store_prefix(),
            suffix@ == drv_suffix(),
            start <= i <= cs.len(),
            segments(cs@.take(i as int)).last() == cs@.subrange(start as int, i as int),
            segments(cs@.take(i as int)).len() >= 1,
            string_views(matches@) == drv_only(ended_lines(segments(cs@.take(i as int)).drop_last())),
        decreases cs.len() - i,
    {
        let ghost before = segments(cs@.take(i as int));
        proof {
            lemma_segments_nonempty(cs@.take(i as int));
            assert(cs@.take(i + 1).drop_last() =~= cs@.take(i as int));
        }
        if cs[i] == '\n' {
            let end = if i > start && cs[i - 1] == '\r' {
                i - 1
            } else {
                i
            };
            proof {
                let seg = cs@.subrange(start as int, i as int);
                assert(segments(cs@.take(i + 1)) == before.push(Seq::empty()));
                assert(segments(cs@.take(i + 1)).drop_last() =~= before);
                assert(before =~= before.drop_last().push(seg));
                lemma_ended_push(before.drop_last(), seg);
                assert(strip_cr(seg) =~= cs@.subrange(start as int, end as int));
                assert(segments(cs@.take(i + 1)).last() =~= cs@.subrange(i + 1, i + 1));
                lemma_drv_only_push(ended_lines(before.drop_last()), strip_cr(seg));
            }
            if is_drv_span(&cs, start, end, &prefix, &suffix) {
                let line = output.substring_char(start, end).to_owned();
                let ghost prev = matches@;
                matches.push(line);
                assert(string_views(matches@) =~= string_views(prev).push(line@));
            }
            start = i + 1;
        } else {
            proof {
                assert(segments(cs@.take(i + 1)) == before.update(
                    before.len() - 1,
                    before.last().push(cs@[i as int]),
                ));
                assert(segments(cs@.take(i + 1)).drop_last() =~= before.drop_last());
                assert(segments(cs@.take(i + 1)).last() =~= cs@.subrange(start as int, i + 1));
            }
        }
        i += 1;
    }
    proof {
        assert(cs@.take(i as int) =~= output@);
        lemma_segments_nonempty(output@);
    }
    proof {
        let segs = segments(output@);
        assert(segs =~= segs.drop_last().push(segs.last()));
        lemma_ended_push(segs.drop_last(), segs.last());
        lemma_drv_only_push(ended_lines(segs.drop_last()), segs.last());
    }
    if start < cs.len() {
        let n = cs.len();
        if is_drv_span(&cs, start, n, &prefix, &suffix) {
            let line = output.substring_char(start, n).to_owned();
            let ghost prev = matches@;
            matches.push(line);
            assert(string_views(matches@) =~= string_views(prev).push(line@));
        }
    }
    assert(string_views(matches@) == drv_lines(output@));
    if matches.len() == 1 {
        let ghost all = matches@;
        let r = matches.pop();
        assert(string_views(all)[0] == r->0@);
        r
    } else {
        None
    }
}

/// A platform whose stdenv is tracked.
#[derive(Clone, Copy, Debug, PartialEq, Eq, Structural)]
pub enum System {
    X8664Darwin,
    X8664Linux,
}

impl System {
    pub open spec fn spec_label(self) -> Seq<char> {
        match self {
            System::X8664Darwin => "x86_64-darwin"@,
            System::X8664Linux => "x86_64-linux"@,
        }
    }

    /// The platform's name, as the evaluator takes it.
    pub fn label(&self) -> (r: String)
        ensures
            r@ == self.spec_label(),
    {
        match self {
            System::X8664Darwin => String::from_str("x86_64-darwin"),
            System::X8664Linux => String::from_str("x86_64-linux"),
        }
    }
}

/// Whether a snapshot is taken before or after the pull request is merged.
#[derive(Clone, Copy, Debug, PartialEq, Eq, Structural)]
pub enum StdenvFrom {
    Before,
    After,
}

pub open spec fn opt_view(o: Option<String>) -> Option<Seq<char>> {
    match o {
        Some(s) => Some(s@),
        None => None,
    }
}

/// The snapshot that an evaluation of the stdenv gives: the derivation its
/// output names, when it succeeded and names exactly one.
pub open spec fn snapshot_of(result: Result<String, String>) -> Option<Seq<char>> {
    match result {
        Ok(out) => drv_of(out@),
        Err(_) => None,
    }
}

/// The stdenv of each tracked platform, before and after a merge, in the
/// working copy at `co`.
pub struct Stdenvs {
    co: String,
    linux_stdenv_before: Option<String>,
    linux_stdenv_after: Option<String>,
    darwin_stdenv_before: Option<String>,
    darwin_stdenv_after: Option<String>,
}

pub struct StdenvsView {
    pub co: Seq<char>,
    pub linux_before: Option<Seq<char>>,
    pub linux_after: Option<Seq<char>>,
    pub darwin_before: Option<Seq<char>>,
    pub darwin_after: Option<Seq<char>>,
}

impl StdenvsView {
    pub open spec fn snapshot(self, system: System, from: StdenvFrom) -> Option<Seq<char>> {
        match (system, from) {
            (System::X8664Linux, StdenvFrom::Before) => self.linux_before,
            (System::X8664Linux, StdenvFrom::After) => self.linux_after,
            (System::X8664Darwin, StdenvFrom::Before) => self.darwin_before,
            (System::X8664Darwin, StdenvFrom::After) => self.darwin_after,
        }
    }

    /// The same, with the snapshot of `system` taken at `from` set to `v`.
    pub open spec fn with_snapshot(self, system: System, from: StdenvFrom, v: Option<Seq<char>>) -> StdenvsView {
        match (system, from) {
            (System::X8664Linux, StdenvFrom::Before) => StdenvsView { linux_before: v, ..self },
            (System::X8664Linux, StdenvFrom::After) => StdenvsView { linux_after: v, ..self },
            (System::X8664Darwin, StdenvFrom::Before) => StdenvsView { darwin_before: v, ..self },
            (System::X8664Darwin, StdenvFrom::After) => StdenvsView { darwin_after: v, ..self },
        }
    }

    /// Whether the stdenv of `system` differs between the two snapshots; an
    /// absent snapshot differs from every present one.
    pub open spec fn differs(self, system: System) -> bool {
        self.snapshot(system, StdenvFrom::Before) != self.snapshot(system, StdenvFrom::After)
    }

    /// The platforms whose stdenv changed: Linux first, then Darwin.
    pub open spec fn changed(self) -> Seq<System> {
        (if self.differs(System::X8664Linux) {
            seq![System::X8664Linux]
        } else {
            Seq::empty()
        }) + (if self.differs(System::X8664Darwin) {
            seq![System::X8664Darwin]
        } else {
            Seq::empty()
        })
    }
}

impl View for Stdenvs {
    type V = StdenvsView;

    closed spec fn view(&self) -> StdenvsView {
        StdenvsView {
            co: self.co@,
            linux_before: opt_view(self.linux_stdenv_before),
            linux_after: opt_view(self.linux_stdenv_after),
            darwin_before: opt_view(self.darwin_stdenv_before),
            darwin_after: opt_view(self.darwin_stdenv_after),
        }
    }
}

/// Whether two snapshots are the same, absent ones included.
fn same_snapshot(a: &Option<String>, b: &Option<String>) -> (r: bool)
    ensures
        r == (opt_view(*a) == opt_view(*b)),
{
    match (a, b) {
        (Some(x), Some(y)) => x.eq(y),
        (None, None) => true,
        _ => false,
    }
}

fn clone_snapshot(a: &Option<String>) -> (r: Option<String>)
    ensures
        opt_view(r) == opt_view(*a),
{
    match a {
        Some(x) => Some(x.clone()),
        None => None,
    }
}

impl Stdenvs {
    pub fn new(co: String) -> (r: Stdenvs)
        ensures
            r@ == (StdenvsView {
                co: co@,
                linux_before: None,
                linux_after: None,
                darwin_before: None,
                darwin_after: None,
            }),
    {
        Stdenvs {
            co,
            linux_stdenv_before: None,
            linux_stdenv_after: None,
            darwin_stdenv_before: None,
            darwin_stdenv_after: None,
        }
    }

    /// The working copy the stdenvs are evaluated in.
    pub fn checkout_path(&self) -> (r: &String)
        ensures
            r@ == self@.co,
    {
        &self.co
    }

    /// The evaluation that names a platform's stdenv, run with the
    /// platform set to the one tracked.
    pub fn probe() -> (r: EvalChecker)
        ensures
            r@.name == "stdenv"@,
            r@.cmd == "nix-instantiate"@,
            r@.args == seq!["."@, "-A"@, "stdenv"@],
    {
        let mut args: Vec<String> = Vec::new();
        args.push(String::from_str("."));
        args.push(String::from_str("-A"));
        args.push(String::from_str("stdenv"));
        let r = EvalChecker::new("stdenv", "nix-instantiate", args);
        assert(r@.args =~= seq!["."@, "-A"@, "stdenv"@]);
        r
    }

    /// The snapshot that the stdenv evaluation's result gives: its output
    /// on success, nothing on failure.
    pub fn evalstdenv(result: &Result<String, String>) -> (r: Option<String>)
        ensures
            opt_view(r) == snapshot_of(*result),
    {
        match result {
            Ok(out) => file_to_drv(out.as_str()),
            Err(_) => None,
        }
    }

    /// Records the snapshot of `system` at `from`, from the result of
    /// evaluating its stdenv.
    pub fn identify(&mut self, system: System, from: StdenvFrom, result: &Result<String, String>)
        ensures
            final(self)@ == old(self)@.with_snapshot(system, from, snapshot_of(*result)),
    {
        let snapshot = Stdenvs::evalstdenv(result);
        match (system, from) {
            (System::X8664Linux, StdenvFrom::Before) => {
                self.linux_stdenv_before = snapshot;
            },
            (System::X8664Linux, StdenvFrom::After) => {
                self.linux_stdenv_after = snapshot;
            },
            (System::X8664Darwin, StdenvFrom::Before) => {
                self.darwin_stdenv_before = snapshot;
            },
            (System::X8664Darwin, StdenvFrom::After) => {
                self.darwin_stdenv_after = snapshot;
            },
        }
    }

    /// Records both platforms' snapshots before the merge.
    pub fn identify_before(&mut self, linux: &Result<String, String>, darwin: &Result<String, String>)
        ensures
            final(self)@ == old(self)@.with_snapshot(
                System::X8664Linux,
                StdenvFrom::Before,
                snapshot_of(*linux),
            ).with_snapshot(System::X8664Darwin, StdenvFrom::Before, snapshot_of(*darwin)),
    {
        self.identify(System::X8664Linux, StdenvFrom::Before, linux);
        self.identify(System::X8664Darwin, StdenvFrom::Before, darwin);
    }

    /// Records both platforms' snapshots after the merge.
    pub fn identify_after(&mut self, linux: &Result<String, String>, darwin: &Result<String, String>)
        ensures
            final(self)@ == old(self)@.with_snapshot(
                System::X8664Linux,
                StdenvFrom::After,
                snapshot_of(*linux),
            ).with_snapshot(System::X8664Darwin, StdenvFrom::After, snapshot_of(*darwin)),
    {
        self.identify(System::X8664Linux, StdenvFrom::After, linux);
        self.identify(System::X8664Darwin, StdenvFrom::After, darwin);
    }

    /// The snapshot of `system` taken at `from`, if any was recorded.
    pub fn snapshot(&self, system: System, from: StdenvFrom) -> (r: Option<String>)
        ensures
            opt_view(r) == self@.snapshot(system, from),
    {
        match (system, from) {
            (System::X8664Linux, StdenvFrom::Before) => clone_snapshot(&self.linux_stdenv_before),
            (System::X8664Linux, StdenvFrom::After) => clone_snapshot(&self.linux_stdenv_after),
            (System::X8664Darwin, StdenvFrom::Before) => clone_snapshot(&self.darwin_stdenv_before),
            (System::X8664Darwin, StdenvFrom::After) => clone_snapshot(&self.darwin_stdenv_after),
        }
    }

    /// Whether no tracked platform's stdenv changed.
    pub fn are_same(&self) -> (r: bool)
        ensures
            r == (self@.changed().len() == 0),
            r == (!self@.differs(System::X8664Linux) && !self@.differs(System::X8664Darwin)),
    {
        self.changed().len() == 0
    }

    /// The platforms whose stdenv changed, Linux first.
    pub fn changed(&self) -> (r: Vec<System>)
        ensures
            r@ == self@.changed(),
    {
        let mut changed: Vec<System> = Vec::new();
        if !same_snapshot(&self.linux_stdenv_before, &self.linux_stdenv_after) {
            changed.push(System::X8664Linux);
        }
        if !same_snapshot(&self.darwin_stdenv_before, &self.darwin_stdenv_after) {
            changed.push(System::X8664Darwin);
        }
        assert(changed@ =~= self@.changed());
        changed
    }
}

/// A platform counts as changed exactly when its two snapshots differ,
/// an absent snapshot differing from every present one and two absent
/// ones counting as equal.
pub proof fn changed_iff_snapshots_differ(v: StdenvsView, system: System)
    ensures
        v.changed().contains(system) <==> v.snapshot(system, StdenvFrom::Before) != v.snapshot(
            system,
            StdenvFrom::After,
        ),
        v.snapshot(system, StdenvFrom::Before) is None && v.snapshot(system, StdenvFrom::After) is Some
            ==> v.changed().contains(system),
{
    let c = v.changed();
    if v.differs(system) {
        match system {
            System::X8664Linux => assert(c[0] == system),
            System::X8664Darwin => assert(c[c.len() - 1] == system),
        }
    } else {
        if c.contains(system) {
            let i = choose|i: int| 0 <= i < c.len() && c[i] == system;
            assert(false);
        }
    }
}

/// The snapshot is the one line that names a derivation, when there is
/// exactly one; with none, or with several, there is no snapshot.
pub proof fn snapshot_is_the_single_drv_line(s: Seq<char>)
    ensures
        drv_lines(s).len() == 1 ==> drv_of(s) == Some(drv_lines(s)[0]) && is_drv_line(
            drv_lines(s)[0],
        ),
        drv_lines(s).len() != 1 ==> drv_of(s) is None,
{
    if drv_lines(s).len() == 1 {
        lines_of(s).lemma_filter_pred(drv_pred(), 0);
    }
}

} // verus!
