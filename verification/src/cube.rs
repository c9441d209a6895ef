use vstd::prelude::*;
use crate::colour::{canonical_edge, Colour, Edge};
use crate::moves::{apply_move, move_src, source_index, Move};
use vstd::pervasive::unreached;

verus! {

/// The six faces, in the order of the linear facelet layout.
#[derive(Clone, Copy, PartialEq, Eq, Structural, Debug)]
pub enum FaceName {
    Top,
    Left,
    Front,
    Right,
    Back,
    Bottom,
}

/// First linear position of a face's nine cells.
pub open spec fn face_base(face: FaceName) -> int {
    match face {
        FaceName::Top => 0,
        FaceName::Left => 9,
        FaceName::Front => 18,
        FaceName::Right => 27,
        FaceName::Back => 36,
        FaceName::Bottom => 45,
    }
}

/// The colour scheme of the reference solved cube, by linear position:
/// yellow top, orange left, blue front, red right, green back, white bottom.
pub open spec fn solved_colour(i: int) -> Colour {
    if i < 9 {
        Colour::Yellow
    } else if i < 18 {
        Colour::Orange
    } else if i < 27 {
        Colour::Blue
    } else if i < 36 {
        Colour::Red
    } else if i < 45 {
        Colour::Green
    } else {
        Colour::White
    }
}

/// The full facelet layout of the reference solved cube.
pub open spec fn solved_layout() -> Seq<Colour> {
    Seq::new(54, |i: int| solved_colour(i))
}

// The twelve edge slots. A slot names a cubie position: slots 1, 3, 5, 7 are
// the top-layer edges, 9, 11, 15, 17 the middle-layer edges and 19, 21, 23,
// 25 the bottom-layer edges, so that slot / 9 classifies the layer.

/// The k-th edge slot, in the scan order of `edges`.
pub open spec fn edge_slot(k: int) -> int {
    if k == 0 {
        1
    } else if k == 1 {
        3
    } else if k == 2 {
        5
    } else if k == 3 {
        7
    } else if k == 4 {
        9
    } else if k == 5 {
        11
    } else if k == 6 {
        15
    } else if k == 7 {
        17
    } else if k == 8 {
        19
    } else if k == 9 {
        21
    } else if k == 10 {
        23
    } else {
        25
    }
}

pub open spec fn is_edge_slot(s: int) -> bool {
    s == 1 || s == 3 || s == 5 || s == 7 || s == 9 || s == 11 || s == 15 || s == 17 || s == 19
        || s == 21 || s == 23 || s == 25
}

/// First sticker position of an edge slot.
pub open spec fn edge_sticker_a(s: int) -> int {
    if s == 1 {
        1
    } else if s == 3 {
        3
    } else if s == 5 {
        5
    } else if s == 7 {
        7
    } else if s == 9 {
        12
    } else if s == 11 {
        32
    } else if s == 15 {
        14
    } else if s == 17 {
        23
    } else if s == 19 {
        43
    } else if s == 21 {
        16
    } else if s == 23 {
        34
    } else {
        25
    }
}

/// Second sticker position of an edge slot.
pub open spec fn edge_sticker_b(s: int) -> int {
    if s == 1 {
        37
    } else if s == 3 {
        10
    } else if s == 5 {
        28
    } else if s == 7 {
        19
    } else if s == 9 {
        41
    } else if s == 11 {
        39
    } else if s == 15 {
        21
    } else if s == 17 {
        30
    } else if s == 19 {
        52
    } else if s == 21 {
        48
    } else if s == 23 {
        50
    } else {
        46
    }
}

/// The canonical edge currently occupying an edge slot.
pub open spec fn edge_at(c: Seq<Colour>, s: int) -> Edge {
    canonical_edge(c[edge_sticker_a(s)], c[edge_sticker_b(s)])
}

/// The edge occupies some slot of the cube.
pub open spec fn has_edge(c: Seq<Colour>, e: Edge) -> bool {
    exists|s: int| is_edge_slot(s) && edge_at(c, s) == e
}

/// No two edge slots carry the same colour pair.
pub open spec fn edges_unique(c: Seq<Colour>) -> bool {
    forall|s1: int, s2: int|
        is_edge_slot(s1) && is_edge_slot(s2) && s1 != s2 ==> edge_at(c, s1) != edge_at(c, s2)
}

/// The six face centres show the reference colour scheme. Centres never move
/// under face turns, so this fixes the orientation the solver works in.
pub open spec fn centres_solved(c: Seq<Colour>) -> bool {
    &&& c[4] == Colour::Yellow
    &&& c[13] == Colour::Orange
    &&& c[22] == Colour::Blue
    &&& c[31] == Colour::Red
    &&& c[40] == Colour::Green
    &&& c[49] == Colour::White
}

/// The edge-reference table: for the colour on the bottom face, the four
/// canonical edges that make up that colour's cross.
pub open spec fn cross_edge(col: Colour, k: int) -> Edge {
    match col {
        Colour::White => if k == 0 {
            Edge(Colour::White, Colour::Red)
        } else if k == 1 {
            Edge(Colour::White, Colour::Blue)
        } else if k == 2 {
            Edge(Colour::White, Colour::Orange)
        } else {
            Edge(Colour::White, Colour::Green)
        },
        Colour::Red => if k == 0 {
            Edge(Colour::White, Colour::Red)
        } else if k == 1 {
            Edge(Colour::Red, Colour::Blue)
        } else if k == 2 {
            Edge(Colour::Red, Colour::Green)
        } else {
            Edge(Colour::Red, Colour::Yellow)
        },
        Colour::Blue => if k == 0 {
            Edge(Colour::White, Colour::Blue)
        } else if k == 1 {
            Edge(Colour::Red, Colour::Blue)
        } else if k == 2 {
            Edge(Colour::Blue, Colour::Orange)
        } else {
            Edge(Colour::Blue, Colour::Yellow)
        },
        Colour::Orange => if k == 0 {
            Edge(Colour::White, Colour::Orange)
        } else if k == 1 {
            Edge(Colour::Blue, Colour::Orange)
        } else if k == 2 {
            Edge(Colour::Orange, Colour::Green)
        } else {
            Edge(Colour::Orange, Colour::Yellow)
        },
        Colour::Green => if k == 0 {
            Edge(Colour::White, Colour::Green)
        } else if k == 1 {
            Edge(Colour::Red, Colour::Green)
        } else if k == 2 {
            Edge(Colour::Orange, Colour::Green)
        } else {
            Edge(Colour::Green, Colour::Yellow)
        },
        Colour::Yellow => if k == 0 {
            Edge(Colour::Red, Colour::Yellow)
        } else if k == 1 {
            Edge(Colour::Blue, Colour::Yellow)
        } else if k == 2 {
            Edge(Colour::Orange, Colour::Yellow)
        } else {
            Edge(Colour::Green, Colour::Yellow)
        },
    }
}

/// The twelve edge pairs of the reference solved cube, one per slot and all
/// distinct: each physical edge occurs exactly once.
pub proof fn lemma_solved_edges()
    ensures
        edge_at(solved_layout(), 1) == Edge(Colour::Green, Colour::Yellow),
        edge_at(solved_layout(), 3) == Edge(Colour::Orange, Colour::Yellow),
        edge_at(solved_layout(), 5) == Edge(Colour::Red, Colour::Yellow),
        edge_at(solved_layout(), 7) == Edge(Colour::Blue, Colour::Yellow),
        edge_at(solved_layout(), 9) == Edge(Colour::Orange, Colour::Green),
        edge_at(solved_layout(), 11) == Edge(Colour::Red, Colour::Green),
        edge_at(solved_layout(), 15) == Edge(Colour::Blue, Colour::Orange),
        edge_at(solved_layout(), 17) == Edge(Colour::Red, Colour::Blue),
        edge_at(solved_layout(), 19) == Edge(Colour::White, Colour::Green),
        edge_at(solved_layout(), 21) == Edge(Colour::White, Colour::Orange),
        edge_at(solved_layout(), 23) == Edge(Colour::White, Colour::Red),
        edge_at(solved_layout(), 25) == Edge(Colour::White, Colour::Blue),
        edges_unique(solved_layout()),
        centres_solved(solved_layout()),
{
}

/// The cube: 54 facelets in the fixed linear layout, faces in the order top,
/// left, front, right, back, bottom, each face row-major.
#[derive(Debug)]
pub struct Cube {
    facelets: Vec<Colour>,
}

impl View for Cube {
    type V = Seq<Colour>;

    closed spec fn view(&self) -> Seq<Colour> {
        self.facelets@
    }
}

impl Cube {
    /// A well-formed cube holds exactly 54 facelets.
    pub open spec fn wf(self) -> bool {
        self@.len() == 54
    }

    /// Builds a cube from 54 colours, given in the linear facelet order.
    pub fn make_cube(colours: [Colour; 54]) -> (r: Cube)
        ensures
            r.wf(),
            r@ == colours@,
    {
        let mut v: Vec<Colour> = Vec::new();
        let mut i: usize = 0;
        while i < 54
            invariant
                i <= 54,
                v@.len() == i as int,
                forall|j: int| 0 <= j < i ==> v@[j] == colours@[j],
            decreases 54 - i,
        {
            v.push(colours[i]);
            i += 1;
        }
        let r = Cube { facelets: v };
        proof {
            assert(r@ =~= colours@);
        }
        r
    }

    /// The reference solved cube.
    pub fn solved() -> (r: Cube)
        ensures
            r.wf(),
            r@ == solved_layout(),
    {
        let mut v: Vec<Colour> = Vec::new();
        let mut i: usize = 0;
        while i < 54
            invariant
                i <= 54,
                v@.len() == i as int,
                forall|j: int| 0 <= j < i ==> v@[j] == solved_colour(j),
            decreases 54 - i,
        {
            let c = if i < 9 {
                Colour::Yellow
            } else if i < 18 {
                Colour::Orange
            } else if i < 27 {
                Colour::Blue
            } else if i < 36 {
                Colour::Red
            } else if i < 45 {
                Colour::Green
            } else {
                Colour::White
            };
            v.push(c);
            i += 1;
        }
        let r = Cube { facelets: v };
        proof {
            assert(r@ =~= solved_layout());
        }
        r
    }

    /// The colour at one linear position.
    pub fn facelet(&self, i: usize) -> (r: Colour)
        requires
            self.wf(),
            i < 54,
        ensures
            r == self@[i as int],
    {
        self.facelets[i]
    }

    /// A face's identity is the colour of its centre cell, which no face turn
    /// ever moves.
    pub fn face_colour(&self, face: FaceName) -> (r: Colour)
        requires
            self.wf(),
        ensures
            r == self@[face_base(face) + 4],
    {
        let base: usize = match face {
            FaceName::Top => 0,
            FaceName::Left => 9,
            FaceName::Front => 18,
            FaceName::Right => 27,
            FaceName::Back => 36,
            FaceName::Bottom => 45,
        };
        self.facelets[base + 4]
    }

    /// The four cross edges for whichever colour currently sits on the
    /// bottom face.
    pub fn bottom_cross_edges(&self) -> (r: [Edge; 4])
        requires
            self.wf(),
        ensures
            forall|k: int| 0 <= k < 4 ==> r@[k] == cross_edge(self@[49], k),
    {
        match self.face_colour(FaceName::Bottom) {
            Colour::White => [
                Edge(Colour::White, Colour::Red),
                Edge(Colour::White, Colour::Blue),
                Edge(Colour::White, Colour::Orange),
                Edge(Colour::White, Colour::Green),
            ],
            Colour::Red => [
                Edge(Colour::White, Colour::Red),
                Edge(Colour::Red, Colour::Blue),
                Edge(Colour::Red, Colour::Green),
                Edge(Colour::Red, Colour::Yellow),
            ],
            Colour::Blue => [
                Edge(Colour::White, Colour::Blue),
                Edge(Colour::Red, Colour::Blue),
                Edge(Colour::Blue, Colour::Orange),
                Edge(Colour::Blue, Colour::Yellow),
            ],
            Colour::Orange => [
                Edge(Colour::White, Colour::Orange),
                Edge(Colour::Blue, Colour::Orange),
                Edge(Colour::Orange, Colour::Green),
                Edge(Colour::Orange, Colour::Yellow),
            ],
            Colour::Green => [
                Edge(Colour::White, Colour::Green),
                Edge(Colour::Red, Colour::Green),
                Edge(Colour::Orange, Colour::Green),
                Edge(Colour::Green, Colour::Yellow),
            ],
            Colour::Yellow => [
                Edge(Colour::Red, Colour::Yellow),
                Edge(Colour::Blue, Colour::Yellow),
                Edge(Colour::Orange, Colour::Yellow),
                Edge(Colour::Green, Colour::Yellow),
            ],
        }
    }

    /// The twelve edge pieces now on the cube, each as its canonical colour
    /// pair with the slot it occupies.
    pub fn edges(&self) -> (r: Vec<(Edge, u8)>)
        requires
            self.wf(),
        ensures
            r@.len() == 12,
            forall|k: int|
                0 <= k < 12 ==> (#[trigger] r@[k]).1 as int == edge_slot(k) && r@[k].0
                    == edge_at(self@, edge_slot(k)),
    {
        let mut v: Vec<(Edge, u8)> = Vec::new();
        v.push((Edge::canonical(self.facelets[1], self.facelets[37]), 1));
        v.push((Edge::canonical(self.facelets[3], self.facelets[10]), 3));
        v.push((Edge::canonical(self.facelets[5], self.facelets[28]), 5));
        v.push((Edge::canonical(self.facelets[7], self.facelets[19]), 7));
        v.push((Edge::canonical(self.facelets[12], self.facelets[41]), 9));
        v.push((Edge::canonical(self.facelets[32], self.facelets[39]), 11));
        v.push((Edge::canonical(self.facelets[14], self.facelets[21]), 15));
        v.push((Edge::canonical(self.facelets[23], self.facelets[30]), 17));
        v.push((Edge::canonical(self.facelets[43], self.facelets[52]), 19));
        v.push((Edge::canonical(self.facelets[16], self.facelets[48]), 21));
        v.push((Edge::canonical(self.facelets[34], self.facelets[50]), 23));
        v.push((Edge::canonical(self.facelets[25], self.facelets[46]), 25));
        v
    }

    /// The slot of the first edge pair, in scan order, that matches the given
    /// edge. Every valid cube carries each of its edges somewhere, which the
    /// precondition records.
    pub fn find_edge(&self, edge: Edge) -> (r: u8)
        requires
            self.wf(),
            has_edge(self@, edge),
        ensures
            is_edge_slot(r as int),
            edge_at(self@, r as int) == edge,
            exists|j: int|
                0 <= j < 12 && r as int == edge_slot(j) && (forall|k: int|
                    0 <= k < j ==> edge_at(self@, edge_slot(k)) != edge),
    {
        let all = self.edges();
        let mut k: usize = 0;
        while k < 12
            invariant
                self.wf(),
                all@.len() == 12,
                forall|k2: int|
                    0 <= k2 < 12 ==> (#[trigger] all@[k2]).1 as int == edge_slot(k2) && all@[k2].0
                        == edge_at(self@, edge_slot(k2)),
                k <= 12,
                forall|k2: int| 0 <= k2 < k ==> edge_at(self@, edge_slot(k2)) != edge,
            decreases 12 - k,
        {
            let (e, p) = all[k];
            if e == edge {
                proof {
                    assert(is_edge_slot(edge_slot(k as int)));
                }
                return p;
            }
            k += 1;
        }
        proof {
            assert(edge_at(self@, edge_slot(0)) != edge);
            assert(edge_at(self@, edge_slot(1)) != edge);
            assert(edge_at(self@, edge_slot(2)) != edge);
            assert(edge_at(self@, edge_slot(3)) != edge);
            assert(edge_at(self@, edge_slot(4)) != edge);
            assert(edge_at(self@, edge_slot(5)) != edge);
            assert(edge_at(self@, edge_slot(6)) != edge);
            assert(edge_at(self@, edge_slot(7)) != edge);
            assert(edge_at(self@, edge_slot(8)) != edge);
            assert(edge_at(self@, edge_slot(9)) != edge);
            assert(edge_at(self@, edge_slot(10)) != edge);
            assert(edge_at(self@, edge_slot(11)) != edge);
            assert(false);
        }
        unreached()
    }

    /// Applies one quarter turn in place.
    pub fn make_move(&mut self, action: Move)
        requires
            old(self).wf(),
        ensures
            final(self).wf(),
            final(self)@ == apply_move(old(self)@, action),
    {
        let mut next: Vec<Colour> = Vec::new();
        let mut i: usize = 0;
        while i < 54
            invariant
                self.wf(),
                self@ == old(self)@,
                i <= 54,
                next@.len() == i as int,
                forall|j: int| 0 <= j < i ==> next@[j] == old(self)@[move_src(action, j)],
            decreases 54 - i,
        {
            next.push(self.facelets[source_index(action, i)]);
            i += 1;
        }
        self.facelets = next;
        proof {
            assert(self@ =~= apply_move(old(self)@, action));
        }
    }
}

impl PartialEq for Cube {
    /// Two cubes are equal when every facelet matches.
    fn eq(&self, other: &Cube) -> (r: bool) {
        if self.facelets.len() != other.facelets.len() {
            return false;
        }
        let mut i: usize = 0;
        while i < self.facelets.len()
            invariant
                i <= self.facelets.len(),
                self.facelets.len() == other.facelets.len(),
                forall|j: int| 0 <= j < i ==> self@[j] == other@[j],
            decreases self.facelets.len() - i,
        {
            if self.facelets[i] != other.facelets[i] {
                return false;
            }
            i += 1;
        }
        proof {
            assert(self@ =~= other@);
        }
        true
    }
}

impl vstd::std_specs::cmp::PartialEqSpecImpl for Cube {
    open spec fn obeys_eq_spec() -> bool {
        true
    }

    open spec fn eq_spec(&self, other: &Cube) -> bool {
        self@ == other@
    }
}

impl Eq for Cube {

}

} // verus!
