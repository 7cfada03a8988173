//! Laws that hold across whole operation sequences. Each operation's own
//! contract gives the single-step facts (its exact vault-balance equation
//! and the monotonicity of the cumulative counters); the lemma here lifts
//! the balance equations to conservation over any run of operations.

use vstd::prelude::*;

verus! {

/// The sum of a sequence of integers.
pub open spec fn sum_seq(s: Seq<int>) -> int
    decreases s.len(),
{
    if s.len() == 0 {
        0
    } else {
        s[0] + sum_seq(s.drop_first())
    }
}

/// Conservation law. Take any sequence of operations on one pool, the
/// `i`-th of which receives `flows_in[i]` into the vault and pays
/// `flows_out[i]` out of it, so that the vault balance obeys
/// `balances[i + 1] == balances[i] + flows_in[i] - flows_out[i]` — which is
/// exactly the vault-balance equation each operation's contract gives —
/// and balances never go negative (they are `u64` values). Then the total
/// paid out never exceeds the initial balance plus the total paid in: no
/// operation sequence can mint value. Applied to every prefix of a run, it
/// bounds the outflow at every point.
pub proof fn lemma_flow_conservation(balances: Seq<int>, flows_in: Seq<int>, flows_out: Seq<int>)
    requires
        balances.len() == flows_in.len() + 1,
        flows_out.len() == flows_in.len(),
        forall|i: int| 0 <= i < balances.len() ==> balances[i] >= 0,
        forall|i: int|
            0 <= i < flows_in.len() ==> balances[i + 1] == balances[i] + flows_in[i]
                - flows_out[i],
    ensures
        sum_seq(flows_out) <= balances[0] + sum_seq(flows_in),
    decreases flows_in.len(),
{
    if flows_in.len() == 0 {
        assert(sum_seq(flows_out) == 0);
        assert(sum_seq(flows_in) == 0);
    } else {
        let balances_rest = balances.drop_first();
        let flows_in_rest = flows_in.drop_first();
        let flows_out_rest = flows_out.drop_first();
        assert forall|i: int|
            0 <= i < flows_in_rest.len() implies balances_rest[i + 1] == balances_rest[i]
            + flows_in_rest[i] - flows_out_rest[i] by {
            assert(balances[i + 2] == balances[i + 1] + flows_in[i + 1] - flows_out[i + 1]);
        }
        assert forall|i: int| 0 <= i < balances_rest.len() implies balances_rest[i] >= 0 by {
            assert(balances[i + 1] >= 0);
        }
        lemma_flow_conservation(balances_rest, flows_in_rest, flows_out_rest);
        assert(balances_rest[0] == balances[0] + flows_in[0] - flows_out[0]);
        assert(sum_seq(flows_out) == flows_out[0] + sum_seq(flows_out_rest));
        assert(sum_seq(flows_in) == flows_in[0] + sum_seq(flows_in_rest));
    }
}

} // verus!
