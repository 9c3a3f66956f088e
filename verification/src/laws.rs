//! Laws that cut across modules: determinism of compilation, and the
//! round-trip behaviour of the stack opcodes.

use vstd::prelude::*;
use crate::program::Program;
use crate::u256::U256;

verus! {

/// Two decodings of the same code under the same spec id are
/// functionally equivalent artifacts: they hold the same code and mark
/// exactly the same jump destinations, and the interpreter reads nothing
/// else of a program.
pub proof fn lemma_artifact_deterministic(p1: Program, p2: Program)
    requires
        p1.well_formed(),
        p2.well_formed(),
        p1.code@ == p2.code@,
    ensures
        p1.jumpdests@ == p2.jumpdests@,
{
    assert forall|j: int| 0 <= j < p1.jumpdests@.len() implies p1.jumpdests@[j]
        == p2.jumpdests@[j] by {
        assert(p1.jumpdests@[j] <==> crate::program::spec_is_jumpdest(p1.code@, j as nat));
        assert(p2.jumpdests@[j] <==> crate::program::spec_is_jumpdest(p2.code@, j as nat));
    }
    assert(p1.jumpdests@ =~= p2.jumpdests@);
}

/// Two strictly ascending lists with the same members are the same
/// list.
proof fn lemma_ascending_unique(s1: Seq<usize>, s2: Seq<usize>)
    requires
        forall|k1: int, k2: int| 0 <= k1 < k2 < s1.len() ==> s1[k1] < s1[k2],
        forall|k1: int, k2: int| 0 <= k1 < k2 < s2.len() ==> s2[k1] < s2[k2],
        forall|x: usize| s1.contains(x) <==> s2.contains(x),
    ensures
        s1 == s2,
    decreases s1.len(),
{
    if s1.len() == 0 {
        if s2.len() > 0 {
            assert(s2.contains(s2[0]));
        }
        assert(s1 =~= s2);
    } else {
        assert(s1.contains(s1[0]));
        assert(s2.len() > 0);
        // The heads agree: each is a member of the other list, and every
        // member sits at or above the head.
        let j1 = choose|j: int| 0 <= j < s2.len() && s2[j] == s1[0];
        assert(s2.contains(s2[0]));
        let j2 = choose|j: int| 0 <= j < s1.len() && s1[j] == s2[0];
        assert(j1 == 0 || s2[0] < s2[j1]);
        assert(j2 == 0 || s1[0] < s1[j2]);
        assert(s1[0] == s2[0]);
        let t1 = s1.drop_first();
        let t2 = s2.drop_first();
        assert forall|x: usize| t1.contains(x) <==> t2.contains(x) by {
            if t1.contains(x) {
                let k = choose|k: int| 0 <= k < t1.len() && t1[k] == x;
                assert(s1[k + 1] == x);
                assert(s1.contains(x));
                let m = choose|m: int| 0 <= m < s2.len() && s2[m] == x;
                assert(m > 0);
                assert(t2[m - 1] == x);
                assert(t2.contains(x));
            }
            if t2.contains(x) {
                let k = choose|k: int| 0 <= k < t2.len() && t2[k] == x;
                assert(s2[k + 1] == x);
                assert(s2.contains(x));
                let m = choose|m: int| 0 <= m < s1.len() && s1[m] == x;
                assert(m > 0);
                assert(t1[m - 1] == x);
                assert(t1.contains(x));
            }
        }
        lemma_ascending_unique(t1, t2);
        assert(s1.len() == s2.len());
        assert forall|k: int| 0 <= k < s1.len() implies s1[k] == s2[k] by {
            if k > 0 {
                assert(t1[k - 1] == s1[k]);
                assert(t2[k - 1] == s2[k]);
            }
        }
        assert(s1 =~= s2);
    }
}

/// Two artifacts built from the same code carry the same block-start
/// list: the exact characterization determines it uniquely.
pub proof fn lemma_block_starts_deterministic(p1: Program, p2: Program)
    requires
        crate::vm::block_starts_exact(p1),
        crate::vm::block_starts_exact(p2),
        p1.code@ == p2.code@,
    ensures
        p1.block_starts@ == p2.block_starts@,
{
    assert forall|x: usize| p1.block_starts@.contains(x) <==> p2.block_starts@.contains(
        x,
    ) by {
        if p1.block_starts@.contains(x) {
            let k = choose|k: int|
                0 <= k < p1.block_starts@.len() && p1.block_starts@[k] == x;
            assert(crate::program::spec_is_block_start(p1.code@, p1.block_starts@[k] as nat));
            assert(crate::program::spec_is_block_start(p2.code@, x as nat));
        }
        if p2.block_starts@.contains(x) {
            let k = choose|k: int|
                0 <= k < p2.block_starts@.len() && p2.block_starts@[k] == x;
            assert(crate::program::spec_is_block_start(p2.code@, p2.block_starts@[k] as nat));
            assert(crate::program::spec_is_block_start(p1.code@, x as nat));
        }
    }
    lemma_ascending_unique(p1.block_starts@, p2.block_starts@);
}

/// `PUSH x; POP` is a no-op on the operand stack — pushing any word and
/// popping it restores the stack exactly — and the two opcodes cost
/// 3 + 2 gas.
pub proof fn lemma_push_pop_noop(s: Seq<U256>, x: U256)
    requires
        s.len() < crate::MAX_STACK_SIZE,
    ensures
        s.push(x).drop_last() == s,
        crate::gas::PUSHN + crate::gas::POP == 5,
{
    assert(s.push(x).drop_last() =~= s);
}

/// `DUP1; SWAP1; POP` leaves the operand stack unchanged: duplicating
/// the top word, swapping the two copies and popping one restores the
/// stack exactly.
pub proof fn lemma_dup_swap_pop_noop(s: Seq<U256>)
    requires
        1 <= s.len() < crate::MAX_STACK_SIZE,
    ensures
        ({
            let dupped = s.push(s[s.len() - 1]);
            let swapped = dupped.update(dupped.len() - 1, dupped[dupped.len() - 2]).update(
                dupped.len() - 2,
                dupped.last(),
            );
            swapped.drop_last() == s
        }),
{
    let dupped = s.push(s[s.len() - 1]);
    let swapped = dupped.update(dupped.len() - 1, dupped[dupped.len() - 2]).update(
        dupped.len() - 2,
        dupped.last(),
    );
    assert(swapped.drop_last() =~= s);
}

} // verus!
