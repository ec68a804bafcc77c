//! The guards that stand before the handling of a request: a bound on the
//! size of its headers and a bound on the time its handling may take.

use crate::delivery::{Response, ResponseView};
use crate::failure::Failure;
use vstd::prelude::*;

verus! {

/// The most bytes that the values of all headers of a request may have
/// together.
pub const MAX_HEADER_TOTAL_SIZE: u16 = 8192;

/// The most bytes that the value of one header may have.
pub const MAX_HEADER_PER_SIZE: u16 = 2048;

/// The seconds that the handling of a request may take.
pub const REQ_PROC_TIMEOUT_SEC: u8 = 2;

/// The seconds within which a client has to send the head of its request.
pub const REQ_HEADER_TIMEOUT_SEC: u8 = 3;

/// The requests that one client may send at once.
pub const RATE_LIMIT_BURST: u8 = 10;

/// The requests per second that one client may send in the long run.
pub const RATE_LIMIT_PER_SEC: u8 = 5;

/// The sum of the sizes.
pub open spec fn spec_total_size(sizes: Seq<usize>) -> nat
    decreases sizes.len(),
{
    if sizes.len() == 0 {
        0
    } else {
        spec_total_size(sizes.drop_last()) + sizes.last() as nat
    }
}

/// Whether a request whose header values have these sizes is let in: none
/// of them is larger than [`MAX_HEADER_PER_SIZE`], and together they are not
/// larger than [`MAX_HEADER_TOTAL_SIZE`].
pub open spec fn spec_headers_admitted(sizes: Seq<usize>) -> bool {
    &&& forall|i: int| 0 <= i < sizes.len() ==> #[trigger] sizes[i] <= MAX_HEADER_PER_SIZE
    &&& spec_total_size(sizes) <= MAX_HEADER_TOTAL_SIZE
}

/// The sizes at the front of a sequence sum to no more than all of them.
pub proof fn lemma_total_size_of_prefix(sizes: Seq<usize>, n: int)
    requires
        0 <= n <= sizes.len(),
    ensures
        spec_total_size(sizes.take(n)) <= spec_total_size(sizes),
    decreases sizes.len(),
{
    if n == sizes.len() {
        assert(sizes.take(n) =~= sizes);
    } else {
        assert(sizes.drop_last().take(n) =~= sizes.take(n));
        lemma_total_size_of_prefix(sizes.drop_last(), n);
    }
}

/// Taking one size out of a sequence lowers the sum by that size.
pub proof fn lemma_total_size_without(sizes: Seq<usize>, i: int)
    requires
        0 <= i < sizes.len(),
    ensures
        spec_total_size(sizes) == spec_total_size(sizes.remove(i)) + sizes[i] as nat,
    decreases sizes.len(),
{
    if i == sizes.len() - 1 {
        assert(sizes.remove(i) =~= sizes.drop_last());
    } else {
        lemma_total_size_without(sizes.drop_last(), i);
        assert(sizes.remove(i).drop_last() =~= sizes.drop_last().remove(i));
        assert(sizes.remove(i).last() == sizes.last());
    }
}

/// The sum of the sizes does not depend on their order.
pub proof fn lemma_total_size_is_order_free(a: Seq<usize>, b: Seq<usize>)
    requires
        a.to_multiset() == b.to_multiset(),
    ensures
        spec_total_size(a) == spec_total_size(b),
    decreases a.len(),
{
    a.to_multiset_ensures();
    b.to_multiset_ensures();
    if a.len() > 0 {
        let last = a.len() - 1;
        assert(a.to_multiset().count(a[last]) > 0);
        assert(b.contains(a[last]));
        let j = choose|j: int| 0 <= j < b.len() && b[j] == a[last];
        assert(a.remove(last).to_multiset() =~= b.remove(j).to_multiset());
        lemma_total_size_is_order_free(a.remove(last), b.remove(j));
        lemma_total_size_without(a, last);
        lemma_total_size_without(b, j);
    }
}

/// Whether every size is within the bound for one header does not depend on
/// their order.
pub proof fn lemma_sizes_bounded_is_order_free(a: Seq<usize>, b: Seq<usize>)
    requires
        a.to_multiset() == b.to_multiset(),
        forall|i: int| 0 <= i < a.len() ==> #[trigger] a[i] <= MAX_HEADER_PER_SIZE,
    ensures
        forall|i: int| 0 <= i < b.len() ==> #[trigger] b[i] <= MAX_HEADER_PER_SIZE,
{
    a.to_multiset_ensures();
    b.to_multiset_ensures();
    assert forall|i: int| 0 <= i < b.len() implies #[trigger] b[i] <= MAX_HEADER_PER_SIZE by {
        assert(b.contains(b[i]));
        assert(b.to_multiset().count(b[i]) > 0);
        assert(a.contains(b[i]));
        let k = choose|k: int| 0 <= k < a.len() && a[k] == b[i];
        assert(a[k] <= MAX_HEADER_PER_SIZE);
    }
}

/// Whether a request is let in does not depend on the order in which the
/// sizes of its header values are given.
pub proof fn lemma_admission_is_order_free(a: Seq<usize>, b: Seq<usize>)
    requires
        a.to_multiset() == b.to_multiset(),
    ensures
        spec_headers_admitted(a) == spec_headers_admitted(b),
{
    lemma_total_size_is_order_free(a, b);
    if spec_headers_admitted(a) {
        lemma_sizes_bounded_is_order_free(a, b);
    }
    if spec_headers_admitted(b) {
        lemma_sizes_bounded_is_order_free(b, a);
    }
}

/// Decides whether a request is let in by the sizes of its header values,
/// one size for each value in any order.
pub fn header_size_mw(header_sizes: &Vec<usize>) -> (verdict: Result<(), Failure>)
    ensures
        verdict is Ok <==> spec_headers_admitted(header_sizes@),
        verdict matches Err(failure) ==> failure == Failure::AdmissionRejected,
{
    let mut total_size: usize = 0;
    let mut i: usize = 0;
    while i < header_sizes.len()
        invariant
            i <= header_sizes.len(),
            total_size == spec_total_size(header_sizes@.take(i as int)),
            total_size <= MAX_HEADER_TOTAL_SIZE,
            forall|k: int| 0 <= k < i ==> #[trigger] header_sizes@[k] <= MAX_HEADER_PER_SIZE,
        decreases header_sizes.len() - i,
    {
        let header_len = header_sizes[i];
        if header_len > MAX_HEADER_PER_SIZE as usize {
            return Err(Failure::AdmissionRejected);
        }
        assert(header_sizes@.take(i + 1).drop_last() =~= header_sizes@.take(i as int));
        total_size += header_len;
        if total_size > MAX_HEADER_TOTAL_SIZE as usize {
            proof {
                lemma_total_size_of_prefix(header_sizes@, i + 1);
            }
            return Err(Failure::AdmissionRejected);
        }
        i += 1;
    }
    assert(header_sizes@.take(i as int) =~= header_sizes@);
    Ok(())
}

/// The answer to a request whose handling was bounded in time: the answer
/// that the handling gave, or the report of a timeout where the time ran out
/// before there was one.
pub fn req_timeout_mw(outcome: Option<Response>) -> (response: Response)
    ensures
        match outcome {
            Some(answer) => response == answer,
            None => response@ == ResponseView::Rejected(Failure::Timeout),
        },
{
    match outcome {
        Some(answer) => answer,
        None => Response::Rejected(Failure::Timeout),
    }
}

} // verus!
