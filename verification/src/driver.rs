//! Batch-driver logic: selecting the `.json` input files and aggregating
//! per-file outcomes into the run tally.
//!
//! The surrounding program enumerates the directory and runs the per-file
//! pipeline, possibly on several workers at once; the selection rule and the
//! counting are decided here. By `lemma_counts_permutation` the counts do
//! not depend on the order in which workers deliver their outcomes.

use vstd::prelude::*;

use crate::outcome::{
    count_failed, count_skipped, count_success, lemma_count_push, lemma_counts_partition,
    FileProcessResult, Tally,
};
use crate::strings::{has_json_ext, spec_has_json_ext};

verus! {

/// The subsequence of `s` made of the names that carry the `.json`
/// extension, in their original order.
pub open spec fn spec_json_names(s: Seq<Seq<char>>) -> Seq<Seq<char>>
    decreases s.len(),
{
    if s.len() == 0 {
        Seq::empty()
    } else if spec_has_json_ext(s.last()) {
        spec_json_names(s.drop_last()).push(s.last())
    } else {
        spec_json_names(s.drop_last())
    }
}

/// Keeps exactly the file names that carry the `.json` extension, in their
/// original order.
pub fn filter_json_files(names: &Vec<String>) -> (r: Vec<String>)
    ensures
        r.deep_view() == spec_json_names(names.deep_view()),
{
    let mut r: Vec<String> = Vec::new();
    let ghost all = names.deep_view();
    proof {
        assert(all.take(0) =~= Seq::<Seq<char>>::empty());
    }
    let mut i: usize = 0;
    while i < names.len()
        invariant
            i <= names.len(),
            all == names.deep_view(),
            all.len() == names.len(),
            r.deep_view() == spec_json_names(all.take(i as int)),
        decreases names.len() - i,
    {
        let ghost prev = r.deep_view();
        proof {
            assert(all[i as int] == names[i as int]@);
        }
        if has_json_ext(names[i].as_str()) {
            r.push(names[i].clone());
            proof {
                assert(r.deep_view() =~= prev.push(names[i as int]@));
            }
        }
        proof {
            let t1 = all.take(i + 1);
            assert(t1.drop_last() =~= all.take(i as int));
            assert(t1.last() == all[i as int]);
        }
        i = i + 1;
    }
    proof {
        assert(all.take(names.len() as int) =~= all);
    }
    r
}

/// Counts a whole sequence of outcomes: the resulting tally holds, for each
/// variant, the number of outcomes of that variant.
pub fn tally_outcomes(outcomes: &Vec<FileProcessResult>) -> (r: Tally)
    ensures
        r.counts(outcomes@),
{
    let mut t = Tally::new();
    let ghost all = outcomes@;
    proof {
        assert(all.take(0) =~= Seq::<FileProcessResult>::empty());
    }
    let mut i: usize = 0;
    while i < outcomes.len()
        invariant
            i <= outcomes.len(),
            all == outcomes@,
            t.succeeded == count_success(all.take(i as int)),
            t.skipped == count_skipped(all.take(i as int)),
            t.failed == count_failed(all.take(i as int)),
        decreases outcomes.len() - i,
    {
        proof {
            lemma_counts_partition(all.take(i as int));
            let t1 = all.take(i + 1);
            assert(t1.drop_last() =~= all.take(i as int));
            assert(t1 =~= all.take(i as int).push(all[i as int]));
            lemma_count_push(all.take(i as int), all[i as int]);
        }
        t.record(&outcomes[i]);
        i = i + 1;
    }
    proof {
        assert(all.take(outcomes.len() as int) =~= all);
    }
    t
}

} // verus!
