use vstd::prelude::*;
use crate::render::{border, border_text, cells, finish_row, grid, legend_text, row, rows};

verus! {

/// A set of board squares: bit `i` set means square `i` is a member.
#[derive(Clone, Copy, Debug, PartialEq, Eq, Structural)]
pub struct Bitboard(pub u64);

/// Bit `i` of `x`, for `i < 64`.
pub open spec fn bit(x: u64, i: u64) -> bool {
    (x >> i) & 1u64 == 1u64
}

impl Bitboard {
    /// Whether square `i` belongs to the set.
    pub open spec fn has(self, i: int) -> bool {
        0 <= i < 64 && bit(self.0, i as u64)
    }

    /// The text of the diagram cell of square `i`.
    pub open spec fn cell(self) -> spec_fn(int) -> Seq<char> {
        |i: int|
            if self.has(i) {
                "| X "@
            } else {
                "|   "@
            }
    }

    /// The empty set.
    pub fn empty() -> (r: Bitboard)
        ensures
            r.0 == 0,
            forall|i: int| !r.has(i),
    {
        proof {
            assert forall|i: u64| i < 64 implies !bit(0, i) by {
                assert((0u64 >> i) & 1u64 == 0u64) by (bit_vector);
            }
        }
        Bitboard(0)
    }

    /// Union of two square sets.
    pub fn bitor(self, other: Bitboard) -> (r: Bitboard)
        ensures
            r.0 == self.0 | other.0,
            forall|i: int| r.has(i) <==> self.has(i) || other.has(i),
    {
        proof { lemma_or_has(self.0, other.0); }
        Bitboard(self.0 | other.0)
    }

    /// In-place union.
    pub fn bitor_assign(&mut self, other: Bitboard)
        ensures
            final(self).0 == old(self).0 | other.0,
            forall|i: int| final(self).has(i) <==> old(self).has(i) || other.has(i),
    {
        proof { lemma_or_has(self.0, other.0); }
        self.0 = self.0 | other.0;
    }

    /// An ASCII diagram of the set: one row per rank, rank 8 at the top,
    /// `X` on member squares.
    pub fn pretty(&self) -> (r: String)
        ensures
            r@ == grid(self.cell()),
    {
        let mut s = String::new();
        s.append(border_text());
        let mut k: usize = 0;
        while k < 8
            invariant
                k <= 8,
                s@ == border() + rows(self.cell(), k as nat),
            decreases 8 - k,
        {
            let rank: usize = 7 - k;
            let ghost before = s@;
            let mut file: usize = 0;
            while file < 8
                invariant
                    file <= 8,
                    rank < 8,
                    s@ == before + cells(self.cell(), rank as int, file as nat),
                decreases 8 - file,
            {
                let x: u64 = (8 * rank + file) as u64;
                let m: u64 = 1u64 << x;
                let set = self.0 & m == m;
                proof {
                    let v = self.0;
                    assert(x < 64 ==> ((v & (1u64 << x) == (1u64 << x)) <==> (v >> x) & 1u64
                        == 1u64)) by (bit_vector);
                }
                if set {
                    s.append("| X ");
                } else {
                    s.append("|   ");
                }
                file = file + 1;
            }
            finish_row(&mut s, rank);
            assert(s@ == before + row(self.cell(), rank as int));
            k = k + 1;
        }
        s.append(legend_text());
        s
    }
}

/// Union is commutative and associative, with the empty set as identity.
pub proof fn lemma_union_laws(a: Bitboard, b: Bitboard, c: Bitboard)
    ensures
        a.0 | b.0 == b.0 | a.0,
        (a.0 | b.0) | c.0 == a.0 | (b.0 | c.0),
        a.0 | 0u64 == a.0,
{
    let (x, y, z) = (a.0, b.0, c.0);
    assert(x | y == y | x && (x | y) | z == x | (y | z) && x | 0u64 == x) by (bit_vector);
}

/// A member of a union is a member of one of its operands.
pub proof fn lemma_or_has(a: u64, b: u64)
    ensures
        forall|i: u64| i < 64 ==> (bit(a | b, i) <==> bit(a, i) || bit(b, i)),
{
    assert forall|i: u64| i < 64 implies (bit(a | b, i) <==> bit(a, i) || bit(b, i)) by {
        assert(((a | b) >> i) & 1u64 == 1u64 <==> ((a >> i) & 1u64 == 1u64 || (b >> i) & 1u64
            == 1u64)) by (bit_vector);
    }
}

} // verus!
