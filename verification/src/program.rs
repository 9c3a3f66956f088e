//! The EVM front end: raw code bytes decoded into a `Program`, with the
//! valid jump destinations and the basic-block starts derived by the
//! byte-by-byte scan that skips `PUSH` immediates.

use vstd::prelude::*;

verus! {

/// `STOP`.
pub const OP_STOP: u8 = 0x00;
/// `JUMP`.
pub const OP_JUMP: u8 = 0x56;
/// `JUMPI`.
pub const OP_JUMPI: u8 = 0x57;
/// `JUMPDEST`.
pub const OP_JUMPDEST: u8 = 0x5b;
/// `PUSH0`.
pub const OP_PUSH0: u8 = 0x5f;
/// `PUSH32`.
pub const OP_PUSH32: u8 = 0x7f;
/// `RETURN`.
pub const OP_RETURN: u8 = 0xf3;
/// `REVERT`.
pub const OP_REVERT: u8 = 0xfd;
/// `INVALID`.
pub const OP_INVALID: u8 = 0xfe;
/// `SELFDESTRUCT`.
pub const OP_SELFDESTRUCT: u8 = 0xff;

/// How many immediate bytes follow an opcode: `N` for `PUSH<N>`, else
/// none.
pub open spec fn push_len(op: u8) -> nat {
    if 0x60 <= op <= 0x7f {
        (op - 0x5f) as nat
    } else {
        0
    }
}

/// Whether an opcode ends a basic block.
pub open spec fn spec_is_terminator(op: u8) -> bool {
    op == OP_STOP || op == OP_JUMP || op == OP_JUMPI || op == OP_RETURN || op == OP_REVERT
        || op == OP_INVALID || op == OP_SELFDESTRUCT
}

/// Whether the scan that starts at offset `from` lands on offset `j`:
/// each step moves past one opcode and its immediates.
pub open spec fn op_start(code: Seq<u8>, from: nat, j: nat) -> bool
    decreases (if from <= j {
        j - from
    } else {
        0
    }),
{
    if from == j {
        true
    } else if from > j || from >= code.len() {
        false
    } else {
        op_start(code, from + 1 + push_len(code[from as int]), j)
    }
}

/// A valid jump destination: an offset holding `JUMPDEST` that the scan
/// from offset zero lands on (so it is not a `PUSH` immediate).
pub open spec fn spec_is_jumpdest(code: Seq<u8>, j: nat) -> bool {
    j < code.len() && code[j as int] == OP_JUMPDEST && op_start(code, 0, j)
}

/// A basic-block start: the entry offset, a jump destination, or the
/// offset after a terminator, at an opcode the scan lands on.
pub open spec fn spec_is_block_start(code: Seq<u8>, j: nat) -> bool {
    &&& j < code.len()
    &&& op_start(code, 0, j)
    &&& (j == 0 || code[j as int] == OP_JUMPDEST || (exists|p: nat|
        op_start(code, 0, p) && p < code.len() && p + 1 + push_len(code[p as int]) == j
            && spec_is_terminator(code[p as int])))
}

/// The scan only moves forward.
proof fn lemma_op_start_bound(code: Seq<u8>, from: nat, j: nat)
    requires
        op_start(code, from, j),
    ensures
        from <= j,
    decreases (if from <= j {
        j - from
    } else {
        0
    }),
{
    if from != j {
        lemma_op_start_bound(code, from + 1 + push_len(code[from as int]), j);
    }
}

/// A scan that lands on an offset inside the code also lands one opcode
/// further.
proof fn lemma_op_start_extend(code: Seq<u8>, from: nat, i: nat)
    requires
        op_start(code, from, i),
        i < code.len(),
    ensures
        op_start(code, from, i + 1 + push_len(code[i as int])),
    decreases (if from <= i {
        i - from
    } else {
        0
    }),
{
    let next = i + 1 + push_len(code[i as int]);
    if from == i {
        assert(op_start(code, next, next));
    } else {
        lemma_op_start_extend(code, from + 1 + push_len(code[from as int]), i);
    }
}

/// Two offsets the same scan lands on are joined by the scan.
proof fn lemma_op_start_linear(code: Seq<u8>, from: nat, b: nat, d: nat)
    requires
        op_start(code, from, b),
        op_start(code, from, d),
        b <= d,
    ensures
        op_start(code, b, d),
    decreases (if from <= b {
        b - from
    } else {
        0
    }),
{
    if from == b {
    } else {
        lemma_op_start_bound(code, from, b);
        let next = from + 1 + push_len(code[from as int]);
        lemma_op_start_bound(code, next, b);
        lemma_op_start_linear(code, next, b, d);
    }
}

/// The scan never lands inside an opcode's immediates.
proof fn lemma_no_op_start_inside(code: Seq<u8>, i: nat, k: nat)
    requires
        op_start(code, 0, i),
        i < code.len(),
        i < k < i + 1 + push_len(code[i as int]),
    ensures
        !op_start(code, 0, k),
{
    if op_start(code, 0, k) {
        lemma_op_start_linear(code, 0, i, k);
        let next = i + 1 + push_len(code[i as int]);
        lemma_op_start_bound(code, next, k);
    }
}

/// Two opcodes cannot both immediately precede the same offset.
proof fn lemma_unique_predecessor(code: Seq<u8>, p: nat, q: nat)
    requires
        op_start(code, 0, p),
        op_start(code, 0, q),
        p < code.len(),
        q < code.len(),
        p + 1 + push_len(code[p as int]) == q + 1 + push_len(code[q as int]),
    ensures
        p == q,
{
    if p < q {
        lemma_op_start_linear(code, 0, p, q);
        let next = p + 1 + push_len(code[p as int]);
        lemma_op_start_bound(code, next, q);
    }
    if q < p {
        lemma_op_start_linear(code, 0, q, p);
        let next = q + 1 + push_len(code[q as int]);
        lemma_op_start_bound(code, next, p);
    }
}

/// A decoded contract: the code bytes, the valid-jumpdest table, and the
/// basic-block partition.
#[derive(Debug, Clone, PartialEq, Eq)]
pub struct Program {
    /// The raw opcode bytes.
    pub code: Vec<u8>,
    /// One flag per code offset: whether a jump may land there.
    pub jumpdests: Vec<bool>,
    /// The offsets at which basic blocks begin, in ascending order.
    pub block_starts: Vec<usize>,
}

impl Program {
    /// The program is the analysis of its own code bytes.
    pub open spec fn well_formed(self) -> bool {
        &&& self.jumpdests@.len() == self.code@.len()
        &&& (forall|j: int|
            0 <= j < self.code@.len() ==> (self.jumpdests@[j] <==> spec_is_jumpdest(
                self.code@,
                j as nat,
            )))
    }

    /// Decode raw code bytes: scan opcode by opcode, skipping `PUSH`
    /// immediates, marking valid jump destinations and block starts.
    pub fn from_opcodes(code: Vec<u8>) -> (r: Program)
        requires
            code@.len() <= usize::MAX - 33,
        ensures
            r.code@ == code@,
            r.well_formed(),
            forall|k: int|
                0 <= k < r.block_starts@.len() ==> spec_is_block_start(
                    code@,
                    r.block_starts@[k] as nat,
                ),
            forall|j: nat|
                spec_is_block_start(code@, j) ==> r.block_starts@.contains(j as usize),
            forall|k1: int, k2: int|
                0 <= k1 < k2 < r.block_starts@.len() ==> r.block_starts@[k1]
                    < r.block_starts@[k2],
    {
        let n = code.len();
        let mut jumpdests: Vec<bool> = Vec::new();
        let mut f: usize = 0;
        while f < n
            invariant
                jumpdests@.len() == f <= n,
                forall|j: int| 0 <= j < f ==> jumpdests@[j] == false,
            decreases n - f,
        {
            jumpdests.push(false);
            f = f + 1;
        }
        let mut block_starts: Vec<usize> = Vec::new();
        let ghost mut prev: nat = 0;
        let mut prev_terminator = false;
        let mut have_prev = false;
        let mut i: usize = 0;
        while i < n
            invariant
                n == code@.len(),
                n <= usize::MAX - 33,
                i <= n + 33,
                jumpdests@.len() == n,
                op_start(code@, 0, i as nat),
                forall|j: int|
                    0 <= j < i && j < n ==> (jumpdests@[j] <==> spec_is_jumpdest(
                        code@,
                        j as nat,
                    )),
                forall|j: int| i <= j < n ==> jumpdests@[j] == false,
                have_prev ==> op_start(code@, 0, prev) && prev < n && prev + 1 + push_len(
                    code@[prev as int],
                ) == i && (prev_terminator <==> spec_is_terminator(code@[prev as int])),
                !have_prev ==> i == 0,
                forall|k: int|
                    0 <= k < block_starts@.len() ==> spec_is_block_start(
                        code@,
                        block_starts@[k] as nat,
                    ),
                forall|k: int| 0 <= k < block_starts@.len() ==> block_starts@[k] < i,
                forall|k1: int, k2: int|
                    0 <= k1 < k2 < block_starts@.len() ==> block_starts@[k1]
                        < block_starts@[k2],
                forall|j: nat|
                    j < i && spec_is_block_start(code@, j) ==> block_starts@.contains(
                        j as usize,
                    ),
            decreases (if i <= n {
                n - i
            } else {
                0
            }),
        {
            let ghost old_bs = block_starts@;
            let op = code[i];
            let is_dest = op == OP_JUMPDEST;
            if is_dest {
                jumpdests.set(i, true);
            }
            if i == 0 || is_dest || (have_prev && prev_terminator) {
                block_starts.push(i);
            }
            proof {
                // Pushing preserves membership of everything already in
                // the list.
                assert forall|j: usize| old_bs.contains(j) implies block_starts@.contains(
                    j,
                ) by {
                    let k = choose|k: int| 0 <= k < old_bs.len() && old_bs[k] == j;
                    assert(block_starts@[k] == j);
                }
                if i == 0 || is_dest || (have_prev && prev_terminator) {
                    assert(block_starts@[block_starts@.len() - 1] == i);
                    assert(block_starts@.contains(i));
                }
                // Any block start at this offset is found here; any other
                // claimed predecessor coincides with the one the scan saw.
                if spec_is_block_start(code@, i as nat) && !(i == 0 || is_dest) {
                    let p = choose|p: nat|
                        op_start(code@, 0, p) && p < code@.len() && p + 1 + push_len(
                            code@[p as int],
                        ) == i && spec_is_terminator(code@[p as int]);
                    if have_prev {
                        lemma_unique_predecessor(code@, p, prev);
                    } else {
                        lemma_op_start_bound(code@, 0, p);
                    }
                }
                lemma_op_start_extend(code@, 0, i as nat);
            }
            let skip = if 0x60 <= op && op <= 0x7f {
                (op - 0x5f) as usize
            } else {
                0
            };
            let ghost old_i = i as nat;
            proof {
                prev = i as nat;
                assert forall|k: nat| old_i < k < old_i + 1 + push_len(code@[old_i as int])
                    implies !op_start(code@, 0, k) by {
                    lemma_no_op_start_inside(code@, old_i, k);
                }
            }
            prev_terminator = op == OP_STOP || op == OP_JUMP || op == OP_JUMPI || op
                == OP_RETURN || op == OP_REVERT || op == OP_INVALID || op == OP_SELFDESTRUCT;
            have_prev = true;
            i = i + 1 + skip;
        }
        Program { code, jumpdests, block_starts }
    }

    /// The size of the code in bytes.
    pub fn code_size(&self) -> (r: usize)
        ensures
            r == self.code@.len(),
    {
        self.code.len()
    }
}

} // verus!
