//! The per-file outcome classification and the run-level tally.
//!
//! Each processed file yields exactly one [`FileProcessResult`]; the run
//! aggregates them into a [`Tally`] whose counters partition the files.

use vstd::prelude::*;

verus! {

/// A run-fatal error: the message explaining why the run aborted.
#[derive(Debug)]
pub struct AppError(pub String);

impl AppError {
    /// The message carried by the error.
    pub fn message(&self) -> (r: &String)
        ensures
            r@ == self.0@,
    {
        &self.0
    }
}

impl From<String> for AppError {
    fn from(s: String) -> (r: Self)
        ensures
            r == AppError(s),
    {
        AppError(s)
    }
}

impl vstd::std_specs::convert::FromSpecImpl<String> for AppError {
    open spec fn obeys_from_spec() -> bool {
        true
    }

    open spec fn from_spec(s: String) -> Self {
        AppError(s)
    }
}

impl<'a> From<&'a str> for AppError {
    fn from(s: &'a str) -> (r: Self)
        ensures
            r.0@ == s@,
    {
        AppError(s.to_owned())
    }
}

impl<'a> vstd::std_specs::convert::FromSpecImpl<&'a str> for AppError {
    open spec fn obeys_from_spec() -> bool {
        false
    }

    open spec fn from_spec(s: &'a str) -> Self {
        arbitrary()
    }
}

/// The three-way result of processing one file: success, a skip with a
/// reason, or a failure carrying the file's display name and a reason.
#[derive(Debug)]
pub enum FileProcessResult {
    Success,
    Skipped(String),
    Failed(String, String),
}

impl FileProcessResult {
    /// True exactly on the `Success` variant.
    pub fn is_success(&self) -> (r: bool)
        ensures
            r == (self is Success),
    {
        match self {
            FileProcessResult::Success => true,
            _ => false,
        }
    }

    /// True exactly on the `Skipped` variant.
    pub fn is_skipped(&self) -> (r: bool)
        ensures
            r == (self is Skipped),
    {
        match self {
            FileProcessResult::Skipped(_) => true,
            _ => false,
        }
    }

    /// True exactly on the `Failed` variant.
    pub fn is_failed(&self) -> (r: bool)
        ensures
            r == (self is Failed),
    {
        match self {
            FileProcessResult::Failed(_, _) => true,
            _ => false,
        }
    }
}

/// The aggregate counters of one run: how many files succeeded, were
/// skipped, and failed.
#[derive(Debug, Clone, Copy)]
pub struct Tally {
    pub succeeded: usize,
    pub skipped: usize,
    pub failed: usize,
}

/// The number of `Success` outcomes in a sequence of outcomes.
pub open spec fn count_success(s: Seq<FileProcessResult>) -> nat
    decreases s.len(),
{
    if s.len() == 0 {
        0
    } else {
        count_success(s.drop_last()) + if s.last() is Success {
            1nat
        } else {
            0nat
        }
    }
}

/// The number of `Skipped` outcomes in a sequence of outcomes.
pub open spec fn count_skipped(s: Seq<FileProcessResult>) -> nat
    decreases s.len(),
{
    if s.len() == 0 {
        0
    } else {
        count_skipped(s.drop_last()) + if s.last() is Skipped {
            1nat
        } else {
            0nat
        }
    }
}

/// The number of `Failed` outcomes in a sequence of outcomes.
pub open spec fn count_failed(s: Seq<FileProcessResult>) -> nat
    decreases s.len(),
{
    if s.len() == 0 {
        0
    } else {
        count_failed(s.drop_last()) + if s.last() is Failed {
            1nat
        } else {
            0nat
        }
    }
}

/// Appending one outcome raises exactly the matching count by one.
pub proof fn lemma_count_push(s: Seq<FileProcessResult>, x: FileProcessResult)
    ensures
        count_success(s.push(x)) == count_success(s) + if x is Success { 1int } else { 0int },
        count_skipped(s.push(x)) == count_skipped(s) + if x is Skipped { 1int } else { 0int },
        count_failed(s.push(x)) == count_failed(s) + if x is Failed { 1int } else { 0int },
{
    assert(s.push(x).drop_last() =~= s);
    assert(s.push(x).last() == x);
}

/// Every outcome is exactly one of the three variants, so the three counts
/// partition a run's outcomes: no file is counted twice or not at all.
pub proof fn lemma_counts_partition(s: Seq<FileProcessResult>)
    ensures
        count_success(s) + count_skipped(s) + count_failed(s) == s.len(),
    decreases s.len(),
{
    if s.len() > 0 {
        lemma_counts_partition(s.drop_last());
    }
}

proof fn lemma_count_remove(s: Seq<FileProcessResult>, i: int)
    requires
        0 <= i < s.len(),
    ensures
        count_success(s) == count_success(s.remove(i)) + if s[i] is Success { 1int } else { 0int },
        count_skipped(s) == count_skipped(s.remove(i)) + if s[i] is Skipped { 1int } else { 0int },
        count_failed(s) == count_failed(s.remove(i)) + if s[i] is Failed { 1int } else { 0int },
    decreases s.len(),
{
    if i == s.len() - 1 {
        assert(s.remove(i) =~= s.drop_last());
    } else {
        let t = s.drop_last();
        assert(s.remove(i).drop_last() =~= t.remove(i));
        assert(s.remove(i).last() == s.last());
        lemma_count_remove(t, i);
        assert(t[i] == s[i]);
    }
}

/// The counts of a run depend only on which outcomes occurred, not on the
/// order in which the workers delivered them: two runs over the same files
/// whose outcomes agree as a multiset agree on every counter.
pub proof fn lemma_counts_permutation(a: Seq<FileProcessResult>, b: Seq<FileProcessResult>)
    requires
        a.to_multiset() == b.to_multiset(),
    ensures
        count_success(a) == count_success(b),
        count_skipped(a) == count_skipped(b),
        count_failed(a) == count_failed(b),
    decreases a.len(),
{
    broadcast use vstd::seq_lib::group_to_multiset_ensures;

    if a.len() == 0 {
        assert(a.to_multiset().len() == 0);
        assert(b.len() == b.to_multiset().len());
    } else {
        let x = a.last();
        let a1 = a.drop_last();
        assert(a =~= a1.push(x));
        assert(a.to_multiset() =~= a1.to_multiset().insert(x));
        assert(b.to_multiset().count(x) > 0) by {
            assert(a.to_multiset().count(x) >= 1);
        }
        assert(b.contains(x));
        let j = choose|j: int| 0 <= j < b.len() && b[j] == x;
        assert(b.remove(j).to_multiset() =~= b.to_multiset().remove(x));
        assert(a1.to_multiset() =~= a.to_multiset().remove(x));
        lemma_counts_permutation(a1, b.remove(j));
        lemma_count_remove(b, j);
        lemma_count_push(a1, x);
    }
}

impl Tally {
    /// The tally that counted the outcomes in `s`.
    pub open spec fn counts(self, s: Seq<FileProcessResult>) -> bool {
        &&& self.succeeded == count_success(s)
        &&& self.skipped == count_skipped(s)
        &&& self.failed == count_failed(s)
    }

    /// A fresh tally with every counter at zero.
    pub fn new() -> (r: Tally)
        ensures
            r.succeeded == 0,
            r.skipped == 0,
            r.failed == 0,
    {
        Tally { succeeded: 0, skipped: 0, failed: 0 }
    }

    /// Counts one outcome: exactly the counter matching the outcome's
    /// variant goes up by one, the other two stay as they were.
    pub fn record(&mut self, outcome: &FileProcessResult)
        requires
            old(self).succeeded < usize::MAX,
            old(self).skipped < usize::MAX,
            old(self).failed < usize::MAX,
        ensures
            final(self).succeeded == old(self).succeeded + if outcome is Success { 1int } else { 0int },
            final(self).skipped == old(self).skipped + if outcome is Skipped { 1int } else { 0int },
            final(self).failed == old(self).failed + if outcome is Failed { 1int } else { 0int },
    {
        match outcome {
            FileProcessResult::Success => {
                self.succeeded = self.succeeded + 1;
            }
            FileProcessResult::Skipped(_) => {
                self.skipped = self.skipped + 1;
            }
            FileProcessResult::Failed(_, _) => {
                self.failed = self.failed + 1;
            }
        }
    }

    /// The run fails overall exactly when at least one file failed.
    pub fn run_failed(&self) -> (r: bool)
        ensures
            r == (self.failed > 0),
    {
        self.failed > 0
    }
}

} // verus!
