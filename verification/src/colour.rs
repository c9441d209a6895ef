use vstd::prelude::*;

verus! {

/// One of the six sticker colours of the puzzle.
#[derive(Clone, Copy, PartialEq, Eq, Structural, Debug)]
pub enum Colour {
    White,
    Red,
    Blue,
    Orange,
    Green,
    Yellow,
}

impl Colour {
    /// Rank of a colour in the fixed total order. The order carries no cube
    /// semantics; it only canonicalises unordered colour pairs.
    pub open spec fn rank_spec(self) -> int {
        match self {
            Colour::White => 0,
            Colour::Red => 1,
            Colour::Blue => 2,
            Colour::Orange => 3,
            Colour::Green => 4,
            Colour::Yellow => 5,
        }
    }

    pub fn rank(self) -> (r: u8)
        ensures
            r as int == self.rank_spec(),
    {
        match self {
            Colour::White => 0,
            Colour::Red => 1,
            Colour::Blue => 2,
            Colour::Orange => 3,
            Colour::Green => 4,
            Colour::Yellow => 5,
        }
    }
}

/// A physical edge piece, named by the unordered pair of colours it carries.
/// The lower-ranked colour is stored first, so equality of `Edge` values is
/// independent of the orientation in which the piece was read off the cube.
#[derive(Clone, Copy, PartialEq, Eq, Structural, Debug)]
pub struct Edge(pub Colour, pub Colour);

/// The canonical form of an unordered colour pair.
pub open spec fn canonical_edge(a: Colour, b: Colour) -> Edge {
    if a.rank_spec() <= b.rank_spec() {
        Edge(a, b)
    } else {
        Edge(b, a)
    }
}

impl Edge {
    /// Builds the canonical edge for two colours, lower rank first.
    pub fn canonical(a: Colour, b: Colour) -> (r: Edge)
        ensures
            r == canonical_edge(a, b),
    {
        if a.rank() <= b.rank() {
            Edge(a, b)
        } else {
            Edge(b, a)
        }
    }
}

/// Canonicalisation does not depend on the order the two colours are given in.
pub proof fn lemma_canonical_edge_symmetric(a: Colour, b: Colour)
    ensures
        canonical_edge(a, b) == canonical_edge(b, a),
{
}

/// The symmetry fact for every pair at once, for use inside larger proofs.
pub proof fn lemma_canonical_edge_symmetric_all()
    ensures
        forall|a: Colour, b: Colour| #[trigger] canonical_edge(a, b) == canonical_edge(b, a),
{
    assert forall|a: Colour, b: Colour| #[trigger] canonical_edge(a, b) == canonical_edge(b, a) by {
        lemma_canonical_edge_symmetric(a, b);
    }
}

} // verus!
