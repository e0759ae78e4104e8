//! Proved laws of the eligibility decision.
//!
//! Each statement holds for every pair of extracted descriptor sequences;
//! the decider's own contract ties its result to `elision_verdict`, so
//! these laws carry over to every run of the check.

use vstd::prelude::*;

use crate::lifetimes::{elision_verdict, unique_count, RefLt};

verus! {

/// A signature with no reference among its inputs and none in its return
/// type is never flagged: there is nothing to elide.
pub proof fn lemma_no_references(input: Seq<RefLt>, output: Seq<RefLt>)
    requires
        input.len() == 0,
        output.len() == 0,
    ensures
        !elision_verdict(input, output),
{
}

/// A lone input reference that is already implicit, with no output
/// reference, is never flagged: there is nothing to simplify.
pub proof fn lemma_single_unnamed_input(input: Seq<RefLt>, output: Seq<RefLt>)
    requires
        input =~= seq![RefLt::Unnamed],
        output.len() == 0,
    ensures
        !elision_verdict(input, output),
{
}

/// Two or more input references carrying pairwise-distinct explicit
/// names, with no output reference, are always flagged: each reference
/// would independently receive its own inferred region.
pub proof fn lemma_distinct_named_inputs(input: Seq<RefLt>, output: Seq<RefLt>)
    requires
        input.len() >= 2,
        forall|i: int| 0 <= i < input.len() ==> input[i] is Named,
        forall|i: int, j: int| 0 <= i < j < input.len() ==> input[i] != input[j],
        output.len() == 0,
    ensures
        elision_verdict(input, output),
{
    assert(input.no_duplicates());
    input.unique_seq_to_set();
}

/// When two of the input references share the same explicit name and
/// there is no output reference, the signature is not flagged: the
/// shared name may be aliasing on purpose.
pub proof fn lemma_shared_named_inputs(input: Seq<RefLt>, output: Seq<RefLt>, i: int, j: int)
    requires
        input.len() >= 2,
        0 <= i < j < input.len(),
        input[i] is Named,
        input[i] == input[j],
        output.len() == 0,
    ensures
        !elision_verdict(input, output),
{
    // a duplicate keeps the distinct count short of the length
    if unique_count(input) == input.len() {
        input.lemma_no_dup_set_cardinality();
        assert(false);
    }
}

/// A single input reference named `a` and a single output reference also
/// named `a` are always flagged: the single-input/single-output rule
/// would infer the shared region.
pub proof fn lemma_matching_single_pair(input: Seq<RefLt>, output: Seq<RefLt>, name: u64)
    requires
        input =~= seq![RefLt::Named(name)],
        output =~= seq![RefLt::Named(name)],
    ensures
        elision_verdict(input, output),
{
    assert(output.no_duplicates());
    output.unique_seq_to_set();
}

/// Two or more distinctly named output references block elision whatever
/// the input looks like: no elision rule produces two independent output
/// regions.
pub proof fn lemma_distinct_named_outputs(input: Seq<RefLt>, output: Seq<RefLt>, i: int, j: int)
    requires
        0 <= i < output.len(),
        0 <= j < output.len(),
        output[i] is Named,
        output[j] is Named,
        output[i] != output[j],
    ensures
        !elision_verdict(input, output),
{
    if unique_count(output) <= 1 {
        vstd::seq_lib::seq_to_set_is_finite(output);
        assert(output.to_set().contains(output[i]));
        assert(output.to_set().contains(output[j]));
        if unique_count(output) == 0 {
            output.lemma_cardinality_of_empty_set_is_0();
        } else {
            Set::<RefLt>::lemma_is_singleton(output.to_set());
        }
        assert(false);
    }
}

/// The decider holds no hidden state: two verdicts obtained from the
/// same pair of extracted sequences are equal.
pub proof fn lemma_verdict_stable(input: Seq<RefLt>, output: Seq<RefLt>, first: bool, second: bool)
    requires
        first == elision_verdict(input, output),
        second == elision_verdict(input, output),
    ensures
        first == second,
{
}

} // verus!
