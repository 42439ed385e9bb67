//! Which of the six edges of a hex tile carry a river, as a bitmask.

use vstd::prelude::*;

verus! {

/// Bitmask of the hex edges that carry a river: bit 0 East, 1 Northeast,
/// 2 Northwest, 3 West, 4 Southwest, 5 Southeast.
#[derive(Clone, Copy, PartialEq, Eq, Hash, Debug, Structural)]
pub struct RiverEdges(pub u8);

/// The mask of edge number `i` (`0 <= i < 6`).
pub open spec fn edge_bit(i: int) -> u8 {
    (1u8 << (i as u8)) as u8
}

/// Edge number `i` is set in `bits`.
pub open spec fn bit_set(bits: u8, i: int) -> bool {
    bits & edge_bit(i) != 0
}

/// The masks of the edges among the first `n` that are set in `bits`, in
/// edge order.
pub open spec fn set_edges(bits: u8, n: int) -> Seq<u8>
    decreases n,
{
    if n <= 0 {
        Seq::empty()
    } else if bit_set(bits, n - 1) {
        set_edges(bits, n - 1).push(edge_bit(n - 1))
    } else {
        set_edges(bits, n - 1)
    }
}

/// How many of the eight bits of `b` below `n` are one.
pub open spec fn ones_below(b: u8, n: int) -> nat
    decreases n,
{
    if n <= 0 {
        0
    } else {
        ones_below(b, n - 1) + (if (b >> ((n - 1) as u8)) & 1u8 == 1u8 {
            1nat
        } else {
            0nat
        })
    }
}

/// The bitwise or of all masks in `s`.
pub open spec fn or_all(s: Seq<u8>) -> u8
    decreases s.len(),
{
    if s.len() == 0 {
        0
    } else {
        or_all(s.drop_last()) | s.last()
    }
}

/// The edge across from `edge`: East and West, Northeast and Southwest,
/// Northwest and Southeast; zero for anything that is not one edge mask.
pub open spec fn opposite(edge: u8) -> u8 {
    if edge == 1 {
        8
    } else if edge == 2 {
        16
    } else if edge == 4 {
        32
    } else if edge == 8 {
        1
    } else if edge == 16 {
        2
    } else if edge == 32 {
        4
    } else {
        0
    }
}

proof fn lemma_edge_bits()
    ensures
        edge_bit(0) == 1 && edge_bit(1) == 2 && edge_bit(2) == 4,
        edge_bit(3) == 8 && edge_bit(4) == 16 && edge_bit(5) == 32,
{
    assert(1u8 << 0u8 == 1u8) by (bit_vector);
    assert(1u8 << 1u8 == 2u8) by (bit_vector);
    assert(1u8 << 2u8 == 4u8) by (bit_vector);
    assert(1u8 << 3u8 == 8u8) by (bit_vector);
    assert(1u8 << 4u8 == 16u8) by (bit_vector);
    assert(1u8 << 5u8 == 32u8) by (bit_vector);
}

impl Default for RiverEdges {
    /// No river edges.
    fn default() -> (r: RiverEdges)
        ensures
            r.0 == 0,
    {
        RiverEdges(0)
    }
}

impl RiverEdges {
    /// East edge.
    pub const EDGE_E: u8 = 1;

    /// Northeast edge.
    pub const EDGE_NE: u8 = 2;

    /// Northwest edge.
    pub const EDGE_NW: u8 = 4;

    /// West edge.
    pub const EDGE_W: u8 = 8;

    /// Southwest edge.
    pub const EDGE_SW: u8 = 16;

    /// Southeast edge.
    pub const EDGE_SE: u8 = 32;

    /// No river edge set.
    pub fn none() -> (r: RiverEdges)
        ensures
            r.0 == 0,
    {
        RiverEdges(0)
    }

    /// All six edges set.
    pub fn all() -> (r: RiverEdges)
        ensures
            r.0 == 0x3f,
    {
        RiverEdges(0x3f)
    }

    /// The six edge masks in edge order.
    pub fn all_edges() -> (r: [u8; 6])
        ensures
            forall|i: int| 0 <= i < 6 ==> #[trigger] r@[i] == edge_bit(i),
    {
        let r = [1u8, 2, 4, 8, 16, 32];
        proof {
            lemma_edge_bits();
        }
        r
    }

    /// The mask `edges` with everything above the six edge bits cleared.
    pub fn new(edges: u8) -> (r: RiverEdges)
        ensures
            r.0 == edges & 0x3f,
    {
        RiverEdges(edges & 0x3f)
    }

    /// The union of the given edge masks, above the six edge bits cleared.
    pub fn from_edges(edges: &[u8]) -> (r: RiverEdges)
        ensures
            r.0 == or_all(edges@) & 0x3f,
    {
        let mut bits: u8 = 0;
        let n = edges.len();
        for i in 0..n
            invariant
                n == edges@.len(),
                bits == or_all(edges@.take(i as int)),
        {
            assert(edges@.take(i + 1).drop_last() == edges@.take(i as int));
            bits = bits | edges[i];
        }
        assert(edges@.take(n as int) == edges@);
        RiverEdges::new(bits)
    }

    /// True when any edge carries a river.
    pub fn has_river(&self) -> (r: bool)
        ensures
            r == (self.0 != 0),
    {
        self.0 != 0
    }

    /// True when `edge` shares a bit with this mask.
    pub fn has_edge(&self, edge: u8) -> (r: bool)
        ensures
            r == (self.0 & edge != 0),
    {
        self.0 & edge != 0
    }

    /// Adds the edge bits of `edge`.
    pub fn set_edge(&mut self, edge: u8)
        ensures
            final(self).0 == old(self).0 | (edge & 0x3f),
    {
        self.0 = self.0 | (edge & 0x3f);
    }

    /// Removes the bits of `edge`.
    pub fn clear_edge(&mut self, edge: u8)
        ensures
            final(self).0 == old(self).0 & !edge,
    {
        self.0 = self.0 & !edge;
    }

    /// Flips the edge bits of `edge`.
    pub fn toggle_edge(&mut self, edge: u8)
        ensures
            final(self).0 == old(self).0 ^ (edge & 0x3f),
    {
        self.0 = self.0 ^ (edge & 0x3f);
    }

    /// Number of set bits.
    pub fn edge_count(&self) -> (r: u32)
        ensures
            r == ones_below(self.0, 8),
    {
        let mut count: u32 = 0;
        for i in 0..8u8
            invariant
                count == ones_below(self.0, i as int),
                count <= i,
        {
            if (self.0 >> i) & 1u8 == 1u8 {
                count = count + 1;
            }
        }
        count
    }

    /// The masks of the set edges, in edge order.
    pub fn iter_edges(&self) -> (r: Vec<u8>)
        ensures
            r@ == set_edges(self.0, 6),
    {
        let mut out: Vec<u8> = Vec::new();
        for i in 0..6u8
            invariant
                out@ == set_edges(self.0, i as int),
        {
            let e: u8 = 1u8 << i;
            if self.0 & e != 0 {
                out.push(e);
            }
        }
        out
    }

    /// The raw bitmask.
    pub fn bits(&self) -> (r: u8)
        ensures
            r == self.0,
    {
        self.0
    }

    /// The edge across from `edge`, zero for a value that is not one edge.
    pub fn opposite_edge(edge: u8) -> (r: u8)
        ensures
            r == opposite(edge),
    {
        if edge == Self::EDGE_E {
            Self::EDGE_W
        } else if edge == Self::EDGE_NE {
            Self::EDGE_SW
        } else if edge == Self::EDGE_NW {
            Self::EDGE_SE
        } else if edge == Self::EDGE_W {
            Self::EDGE_E
        } else if edge == Self::EDGE_SW {
            Self::EDGE_NE
        } else if edge == Self::EDGE_SE {
            Self::EDGE_NW
        } else {
            0
        }
    }

    /// The number (0 to 5) of a single edge mask, `None` for other values.
    pub fn edge_to_index(edge: u8) -> (r: Option<usize>)
        ensures
            r matches Some(i) ==> i < 6 && edge == edge_bit(i as int),
            r is None ==> forall|i: int| 0 <= i < 6 ==> edge != #[trigger] edge_bit(i),
    {
        proof {
            lemma_edge_bits();
        }
        if edge == Self::EDGE_E {
            Some(0)
        } else if edge == Self::EDGE_NE {
            Some(1)
        } else if edge == Self::EDGE_NW {
            Some(2)
        } else if edge == Self::EDGE_W {
            Some(3)
        } else if edge == Self::EDGE_SW {
            Some(4)
        } else if edge == Self::EDGE_SE {
            Some(5)
        } else {
            None
        }
    }

    /// The mask of edge number `index`, `None` from 6 on.
    pub fn index_to_edge(index: usize) -> (r: Option<u8>)
        ensures
            index < 6 ==> r == Some(edge_bit(index as int)),
            index >= 6 ==> r is None,
    {
        if index < 6 {
            Some(1u8 << (index as u8))
        } else {
            None
        }
    }
}

/// Taking the opposite twice gives back any single edge.
pub proof fn lemma_opposite_involution(i: int)
    requires
        0 <= i < 6,
    ensures
        opposite(opposite(edge_bit(i))) == edge_bit(i),
        opposite(edge_bit(i)) != edge_bit(i),
{
    lemma_edge_bits();
}

} // verus!
