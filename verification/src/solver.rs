use vstd::prelude::*;
use crate::colour::{Colour, Edge};
use crate::cube::{
    centres_solved, cross_edge, edge_at, edge_sticker_a, edge_sticker_b, edges_unique, has_edge,
    is_edge_slot, Cube, FaceName,
};
use crate::moves::{apply_move, reverse_move, Move};
use crate::tracker::{advance, lemma_move_edges, update_pos_after_move};
use vstd::pervasive::unreached;

verus! {

/// The facelet layout after a whole sequence of moves, first move first.
pub open spec fn apply_seq(c: Seq<Colour>, ms: Seq<Move>) -> Seq<Colour>
    decreases ms.len(),
{
    if ms.len() <= 0 {
        c
    } else {
        apply_seq(apply_move(c, ms[0]), ms.drop_first())
    }
}

/// Appending one move to a sequence applies it after the rest.
pub proof fn lemma_apply_seq_push(c: Seq<Colour>, ms: Seq<Move>, m: Move)
    ensures
        apply_seq(c, ms.push(m)) == apply_move(apply_seq(c, ms), m),
    decreases ms.len(),
{
    if ms.len() == 0 {
        assert(ms.push(m)[0] == m);
        assert(ms.push(m).drop_first() =~= Seq::<Move>::empty());
        assert(apply_seq(apply_move(c, m), Seq::<Move>::empty()) == apply_move(c, m));
        assert(apply_seq(c, ms) == c);
    } else {
        assert(ms.push(m)[0] == ms[0]);
        assert(ms.push(m).drop_first() =~= ms.drop_first().push(m));
        lemma_apply_seq_push(apply_move(c, ms[0]), ms.drop_first(), m);
        assert(apply_seq(c, ms.push(m)) == apply_seq(
            apply_move(c, ms[0]),
            ms.drop_first().push(m),
        ));
        assert(apply_seq(c, ms) == apply_seq(apply_move(c, ms[0]), ms.drop_first()));
    }
}

/// A concatenated move sequence applies its two halves one after the other.
pub proof fn lemma_apply_seq_append(c: Seq<Colour>, a: Seq<Move>, b: Seq<Move>)
    ensures
        apply_seq(c, a + b) == apply_seq(apply_seq(c, a), b),
    decreases a.len(),
{
    if a.len() == 0 {
        assert(a + b =~= b);
        assert(apply_seq(c, a) == c);
    } else {
        assert((a + b)[0] == a[0]);
        assert((a + b).drop_first() =~= a.drop_first() + b);
        lemma_apply_seq_append(apply_move(c, a[0]), a.drop_first(), b);
        assert(apply_seq(c, a + b) == apply_seq(apply_move(c, a[0]), a.drop_first() + b));
        assert(apply_seq(c, a) == apply_seq(apply_move(c, a[0]), a.drop_first()));
    }
}

/// One of the four edges of the white cross.
pub open spec fn is_cross_edge(e: Edge) -> bool {
    e == Edge(Colour::White, Colour::Red) || e == Edge(Colour::White, Colour::Blue) || e == Edge(
        Colour::White,
        Colour::Orange,
    ) || e == Edge(Colour::White, Colour::Green)
}

/// The slot a white cross edge occupies on the reference solved cube.
pub open spec fn cross_target(e: Edge) -> int {
    if e == Edge(Colour::White, Colour::Red) {
        23
    } else if e == Edge(Colour::White, Colour::Blue) {
        25
    } else if e == Edge(Colour::White, Colour::Orange) {
        21
    } else {
        19
    }
}

/// The bottom cross is complete: each of the four white cross edges sits in
/// the slot it occupies on the reference solved cube, with the cross colour
/// on its bottom-face sticker and its other colour on the side face whose
/// centre it matches.
pub open spec fn cross_solved(c: Seq<Colour>) -> bool {
    &&& c[43] == Colour::Green && c[52] == Colour::White
    &&& c[16] == Colour::Orange && c[48] == Colour::White
    &&& c[34] == Colour::Red && c[50] == Colour::White
    &&& c[25] == Colour::Blue && c[46] == Colour::White
}

/// The extraction protocol for a piece at slot s: a middle-layer piece is
/// lifted by one fixed quarter turn, a bottom-layer piece by a half turn;
/// then one top turn moves it off the turned column, and the lifting move's
/// inverse, once or twice, restores that column. A top-layer piece needs no
/// extraction.
pub open spec fn extraction_moves(s: int) -> Seq<Move> {
    if s == 9 {
        seq![Move::L, Move::U, Move::LP]
    } else if s == 11 {
        seq![Move::RP, Move::U, Move::R]
    } else if s == 15 {
        seq![Move::LP, Move::U, Move::L]
    } else if s == 17 {
        seq![Move::R, Move::U, Move::RP]
    } else if s == 19 {
        seq![Move::B, Move::B, Move::U, Move::BP, Move::BP]
    } else if s == 21 {
        seq![Move::L, Move::L, Move::U, Move::LP, Move::LP]
    } else if s == 23 {
        seq![Move::R, Move::R, Move::U, Move::RP, Move::RP]
    } else if s == 25 {
        seq![Move::F, Move::F, Move::U, Move::FP, Move::FP]
    } else {
        Seq::empty()
    }
}

/// The top-layer slot where the extraction protocol leaves a piece.
pub open spec fn raised_slot(s: int) -> int {
    if s == 9 || s == 15 || s == 21 {
        1
    } else if s == 11 || s == 17 || s == 23 {
        7
    } else if s == 19 {
        5
    } else if s == 25 {
        3
    } else {
        s
    }
}

/// The top-layer slot that stands over a side column: 0 back, 1 right,
/// 2 front, 3 left.
pub open spec fn col_slot(col: int) -> int {
    if col == 0 {
        1
    } else if col == 1 {
        5
    } else if col == 2 {
        7
    } else {
        3
    }
}

/// The side column a top-layer edge slot stands over.
pub open spec fn col_of_top_slot(s: int) -> int {
    if s == 1 {
        0
    } else if s == 5 {
        1
    } else if s == 7 {
        2
    } else {
        3
    }
}

/// A three-step top rotation is folded to a single step the other way; the
/// top layer has only four rotational positions.
pub open spec fn fold_turns(d: int) -> int {
    if d == 3 {
        -1
    } else if d == -3 {
        1
    } else {
        d
    }
}

/// The top turns that carry a piece from top slot s over the given column:
/// the folded signed distance many turns, counter-clockwise when negative.
pub open spec fn top_turns(s: int, col: int) -> Seq<Move> {
    let d = fold_turns(col - col_of_top_slot(s));
    if d == 1 {
        seq![Move::U]
    } else if d == 2 {
        seq![Move::U, Move::U]
    } else if d == -1 {
        seq![Move::UP]
    } else if d == -2 {
        seq![Move::UP, Move::UP]
    } else {
        Seq::empty()
    }
}

/// The quarter turn of the side face standing at a column.
pub open spec fn face_move(col: int) -> Move {
    if col == 0 {
        Move::B
    } else if col == 1 {
        Move::R
    } else if col == 2 {
        Move::F
    } else {
        Move::L
    }
}

/// The column of the side face a white cross edge belongs to.
pub open spec fn col_of_edge(e: Edge) -> int {
    if e == Edge(Colour::White, Colour::Green) {
        0
    } else if e == Edge(Colour::White, Colour::Red) {
        1
    } else if e == Edge(Colour::White, Colour::Blue) {
        2
    } else {
        3
    }
}

/// The complete move protocol that places the cross edge found at slot s:
/// extraction to the top layer, then, if the cross colour faces up, top
/// turns to the destination column and a half turn of the destination face;
/// otherwise top turns to the destination's left neighbour, a lift of that
/// neighbour, the destination face's inverse turn to pull the piece down
/// into the exposed slot, and the neighbour's restoring turn.
pub open spec fn cross_moves(c: Seq<Colour>, s: int, e: Edge) -> Seq<Move> {
    let mid = apply_seq(c, extraction_moves(s));
    let up = mid[raised_slot(s)] == Colour::White;
    let f = col_of_edge(e);
    if up {
        extraction_moves(s) + top_turns(raised_slot(s), f) + seq![face_move(f), face_move(f)]
    } else {
        let h = (f + 1) % 4;
        extraction_moves(s) + top_turns(raised_slot(s), h) + seq![
            face_move(h),
            reverse_move(face_move(f)),
            reverse_move(face_move(h)),
        ]
    }
}

/// The solving state: the cube being worked on and the ordered log of the
/// moves applied to it, which doubles as the returned solution trace and as
/// an undo log during extraction.
struct Solver {
    cube: Cube,
    move_stack: Vec<Move>,
    initial: Ghost<Seq<Colour>>,
}

impl Solver {
    /// The cube is always the initial layout taken through the logged moves.
    spec fn wf(self) -> bool {
        &&& self.cube.wf()
        &&& self.initial@.len() == 54
        &&& self.cube@ == apply_seq(self.initial@, self.move_stack@)
    }

    /// Applies one turn to the cube and logs it.
    fn make_move(&mut self, action: Move)
        requires
            old(self).wf(),
        ensures
            final(self).wf(),
            final(self).initial == old(self).initial,
            final(self).move_stack@ == old(self).move_stack@.push(action),
            final(self).cube@ == apply_move(old(self).cube@, action),
            centres_solved(final(self).cube@) <==> centres_solved(old(self).cube@),
            forall|s: int| is_edge_slot(s) ==> is_edge_slot(#[trigger] advance(action, s)),
            forall|s: int|
                is_edge_slot(s) ==> advance(reverse_move(action), #[trigger] advance(action, s))
                    == s,
            forall|s: int|
                is_edge_slot(s) ==> #[trigger] edge_at(final(self).cube@, s) == edge_at(
                    old(self).cube@,
                    advance(reverse_move(action), s),
                ),
            forall|e: Edge| #[trigger]
                has_edge(old(self).cube@, e) ==> has_edge(final(self).cube@, e),
            edges_unique(old(self).cube@) ==> edges_unique(final(self).cube@),
    {
        proof {
            lemma_move_edges(self.cube@, action);
            lemma_move_edges(self.cube@, reverse_move(action));
            lemma_apply_seq_push(self.initial@, self.move_stack@, action);
        }
        let ghost c0 = self.cube@;
        self.cube.make_move(action);
        self.move_stack.push(action);
        proof {
            let c1 = self.cube@;
            assert(c1[4] == c0[4]);
            assert(c1[13] == c0[13]);
            assert(c1[22] == c0[22]);
            assert(c1[31] == c0[31]);
            assert(c1[40] == c0[40]);
            assert(c1[49] == c0[49]);
            assert forall|e: Edge| #[trigger] has_edge(c0, e) implies has_edge(c1, e) by {
                let s = choose|s: int| is_edge_slot(s) && edge_at(c0, s) == e;
                let s2 = advance(action, s);
                assert(is_edge_slot(s2));
                assert(advance(reverse_move(action), s2) == s);
                assert(edge_at(c1, s2) == e);
            }
            if edges_unique(c0) {
                assert forall|s1: int, s2: int|
                    is_edge_slot(s1) && is_edge_slot(s2) && s1 != s2 implies edge_at(c1, s1)
                    != edge_at(c1, s2) by {
                    let p1 = advance(reverse_move(action), s1);
                    let p2 = advance(reverse_move(action), s2);
                    assert(is_edge_slot(p1) && is_edge_slot(p2));
                    assert(advance(action, p1) == s1 && advance(action, p2) == s2);
                    assert(p1 != p2);
                    assert(edge_at(c1, s1) == edge_at(c0, p1));
                    assert(edge_at(c1, s2) == edge_at(c0, p2));
                }
            }
        }
    }

    /// Brings the edge at `source` into the top layer by applying exactly
    /// `extraction_moves(source)`: the fixed lifting turn (or half turn from
    /// the bottom layer), one top turn, and the lifting move's inverse
    /// replayed from the undo log, once for a middle-layer piece and twice
    /// for a bottom-layer one.
    #[verifier::rlimit(100)]
    fn raise_to_top(&mut self, source: u8, edge: Edge) -> (r: u8)
        requires
            old(self).wf(),
            is_edge_slot(source as int),
            edge_at(old(self).cube@, source as int) == edge,
        ensures
            final(self).wf(),
            final(self).initial == old(self).initial,
            final(self).move_stack@ == old(self).move_stack@ + extraction_moves(source as int),
            final(self).cube@ == apply_seq(old(self).cube@, extraction_moves(source as int)),
            r as int == raised_slot(source as int),
            r == 1 || r == 3 || r == 5 || r == 7,
            edge_at(final(self).cube@, r as int) == edge,
            centres_solved(final(self).cube@) <==> centres_solved(old(self).cube@),
            forall|e2: Edge| #[trigger]
                has_edge(old(self).cube@, e2) ==> has_edge(final(self).cube@, e2),
            edges_unique(old(self).cube@) ==> edges_unique(final(self).cube@),
            forall|t: int|
                (t == 19 || t == 21 || t == 23 || t == 25) && t != source as int ==> final(self).cube@[edge_sticker_a(t)] == old(self).cube@[edge_sticker_a(t)] && final(self).cube@[edge_sticker_b(t)] == old(self).cube@[edge_sticker_b(t)],
    {
        let ghost s0 = source as int;
        let mut source = source;
        let cur_layer = source / 9;
        if cur_layer == 1 {
            match source {
                9 => {
                    self.make_move(Move::L);
                    update_pos_after_move(&mut source, Move::L);
                },
                11 => {
                    self.make_move(Move::RP);
                    update_pos_after_move(&mut source, Move::RP);
                },
                15 => {
                    self.make_move(Move::LP);
                    update_pos_after_move(&mut source, Move::LP);
                },
                17 => {
                    self.make_move(Move::R);
                    update_pos_after_move(&mut source, Move::R);
                },
                _ => {
                    proof {
                        assert(false);
                    }
                },
            }
            self.make_move(Move::U);
            update_pos_after_move(&mut source, Move::U);
            let m = self.move_stack[self.move_stack.len() - 2];
            let mrev = m.reverse();
            self.make_move(mrev);
            update_pos_after_move(&mut source, mrev);
        } else if cur_layer == 2 {
            match source {
                19 => {
                    self.make_move(Move::B);
                    update_pos_after_move(&mut source, Move::B);
                    self.make_move(Move::B);
                    update_pos_after_move(&mut source, Move::B);
                },
                21 => {
                    self.make_move(Move::L);
                    update_pos_after_move(&mut source, Move::L);
                    self.make_move(Move::L);
                    update_pos_after_move(&mut source, Move::L);
                },
                23 => {
                    self.make_move(Move::R);
                    update_pos_after_move(&mut source, Move::R);
                    self.make_move(Move::R);
                    update_pos_after_move(&mut source, Move::R);
                },
                25 => {
                    self.make_move(Move::F);
                    update_pos_after_move(&mut source, Move::F);
                    self.make_move(Move::F);
                    update_pos_after_move(&mut source, Move::F);
                },
                _ => {
                    proof {
                        assert(false);
                    }
                },
            }
            self.make_move(Move::U);
            update_pos_after_move(&mut source, Move::U);
            let m = self.move_stack[self.move_stack.len() - 2];
            let mrev = m.reverse();
            self.make_move(mrev);
            update_pos_after_move(&mut source, mrev);
            self.make_move(mrev);
            update_pos_after_move(&mut source, mrev);
        }
        proof {
            assert(self.move_stack@ =~= old(self).move_stack@ + extraction_moves(s0));
            lemma_apply_seq_append(self.initial@, old(self).move_stack@, extraction_moves(s0));
        }
        source
    }

    /// Turns the top layer by exactly `top_turns(source, col)` so the
    /// tracked edge stands over the given side column: the signed column
    /// distance, with a three-step rotation folded to a single step the
    /// other way. Only the top layer moves, so no bottom-layer sticker
    /// changes, and the piece keeps its two sticker colours in place.
    #[verifier::rlimit(100)]
    fn align_top(&mut self, source: u8, edge: Edge, col: i32) -> (r: u8)
        requires
            old(self).wf(),
            source == 1 || source == 3 || source == 5 || source == 7,
            edge_at(old(self).cube@, source as int) == edge,
            0 <= col < 4,
        ensures
            final(self).wf(),
            final(self).initial == old(self).initial,
            final(self).move_stack@ == old(self).move_stack@ + top_turns(
                source as int,
                col as int,
            ),
            final(self).cube@ == apply_seq(
                old(self).cube@,
                top_turns(source as int, col as int),
            ),
            r as int == col_slot(col as int),
            edge_at(final(self).cube@, r as int) == edge,
            final(self).cube@[r as int] == old(self).cube@[source as int],
            final(self).cube@[edge_sticker_b(r as int)] == old(self).cube@[edge_sticker_b(
                source as int,
            )],
            centres_solved(final(self).cube@) <==> centres_solved(old(self).cube@),
            forall|e2: Edge| #[trigger]
                has_edge(old(self).cube@, e2) ==> has_edge(final(self).cube@, e2),
            edges_unique(old(self).cube@) ==> edges_unique(final(self).cube@),
            forall|t: int|
                t == 19 || t == 21 || t == 23 || t == 25 ==> final(self).cube@[edge_sticker_a(t)]
                    == old(self).cube@[edge_sticker_a(t)] && final(self).cube@[edge_sticker_b(t)]
                    == old(self).cube@[edge_sticker_b(t)],
    {
        let ghost s0 = source as int;
        let mut source = source;
        let cur_col: i32 = match source {
            1 => 0,
            3 => 3,
            5 => 1,
            7 => 2,
            _ => {
                proof {
                    assert(false);
                }
                unreached()
            },
        };
        let mut num_moves: i32 = col - cur_col;
        if num_moves == 3 {
            num_moves = -1;
        } else if num_moves == -3 {
            num_moves = 1;
        }
        if num_moves == 1 {
            self.make_move(Move::U);
            update_pos_after_move(&mut source, Move::U);
        } else if num_moves == 2 {
            self.make_move(Move::U);
            update_pos_after_move(&mut source, Move::U);
            self.make_move(Move::U);
            update_pos_after_move(&mut source, Move::U);
        } else if num_moves == -1 {
            self.make_move(Move::UP);
            update_pos_after_move(&mut source, Move::UP);
        } else if num_moves == -2 {
            self.make_move(Move::UP);
            update_pos_after_move(&mut source, Move::UP);
            self.make_move(Move::UP);
            update_pos_after_move(&mut source, Move::UP);
        }
        proof {
            assert(self.move_stack@ =~= old(self).move_stack@ + top_turns(s0, col as int));
            lemma_apply_seq_append(
                self.initial@,
                old(self).move_stack@,
                top_turns(s0, col as int),
            );
        }
        source
    }

    /// Seats an edge whose cross colour faces up: a half turn of the
    /// destination face carries the piece from the top slot over that face
    /// into its bottom-layer slot, cross colour down.
    #[verifier::rlimit(100)]
    fn seat_facing_up(&mut self, source: u8, edge: Edge, target_col: i32)
        requires
            old(self).wf(),
            centres_solved(old(self).cube@),
            is_cross_edge(edge),
            target_col as int == col_of_edge(edge),
            source as int == col_slot(col_of_edge(edge)),
            old(self).cube@[source as int] == Colour::White,
            old(self).cube@[edge_sticker_b(source as int)] == edge.1,
        ensures
            final(self).wf(),
            final(self).initial == old(self).initial,
            final(self).move_stack@ == old(self).move_stack@ + seq![
                face_move(col_of_edge(edge)),
                face_move(col_of_edge(edge)),
            ],
            centres_solved(final(self).cube@),
            forall|e2: Edge| #[trigger]
                has_edge(old(self).cube@, e2) ==> has_edge(final(self).cube@, e2),
            edges_unique(old(self).cube@) ==> edges_unique(final(self).cube@),
            final(self).cube@[edge_sticker_a(cross_target(edge))] == edge.1,
            final(self).cube@[edge_sticker_b(cross_target(edge))] == Colour::White,
            forall|t: int|
                (t == 19 || t == 21 || t == 23 || t == 25) && t != cross_target(edge)
                    ==> final(self).cube@[edge_sticker_a(t)] == old(self).cube@[edge_sticker_a(t)]
                    && final(self).cube@[edge_sticker_b(t)] == old(self).cube@[edge_sticker_b(t)],
    {
        let mut source = source;
        let target_face_move = match target_col {
            0 => Move::B,
            1 => Move::R,
            2 => Move::F,
            _ => Move::L,
        };
        self.make_move(target_face_move);
        update_pos_after_move(&mut source, target_face_move);
        self.make_move(target_face_move);
        update_pos_after_move(&mut source, target_face_move);
        assert(source as int == cross_target(edge));
        proof {
            assert(self.move_stack@ =~= old(self).move_stack@ + seq![
                face_move(col_of_edge(edge)),
                face_move(col_of_edge(edge)),
            ]);
        }
    }

    /// Seats an edge whose cross colour faces out: the piece stands over the
    /// destination's left neighbour; lifting that neighbour carries it into
    /// the middle layer, the destination face's inverse turn pulls it down
    /// into the exposed bottom slot, cross colour down, and the neighbour's
    /// restoring turn puts everything else back.
    #[verifier::rlimit(100)]
    fn seat_facing_out(&mut self, source: u8, edge: Edge, target_col: i32)
        requires
            old(self).wf(),
            centres_solved(old(self).cube@),
            is_cross_edge(edge),
            target_col as int == col_of_edge(edge),
            source as int == col_slot((col_of_edge(edge) + 1) % 4),
            old(self).cube@[source as int] == edge.1,
            old(self).cube@[edge_sticker_b(source as int)] == Colour::White,
        ensures
            final(self).wf(),
            final(self).initial == old(self).initial,
            final(self).move_stack@ == old(self).move_stack@ + seq![
                face_move((col_of_edge(edge) + 1) % 4),
                reverse_move(face_move(col_of_edge(edge))),
                reverse_move(face_move((col_of_edge(edge) + 1) % 4)),
            ],
            centres_solved(final(self).cube@),
            forall|e2: Edge| #[trigger]
                has_edge(old(self).cube@, e2) ==> has_edge(final(self).cube@, e2),
            edges_unique(old(self).cube@) ==> edges_unique(final(self).cube@),
            final(self).cube@[edge_sticker_a(cross_target(edge))] == edge.1,
            final(self).cube@[edge_sticker_b(cross_target(edge))] == Colour::White,
            forall|t: int|
                (t == 19 || t == 21 || t == 23 || t == 25) && t != cross_target(edge)
                    ==> final(self).cube@[edge_sticker_a(t)] == old(self).cube@[edge_sticker_a(t)]
                    && final(self).cube@[edge_sticker_b(t)] == old(self).cube@[edge_sticker_b(t)],
    {
        let mut source = source;
        let insert_col: i32 = (target_col + 1) % 4;
        let side_move = match insert_col {
            0 => Move::B,
            1 => Move::R,
            2 => Move::F,
            _ => Move::L,
        };
        let target_face_move = match target_col {
            0 => Move::B,
            1 => Move::R,
            2 => Move::F,
            _ => Move::L,
        };
        self.make_move(side_move);
        update_pos_after_move(&mut source, side_move);
        let fp = target_face_move.reverse();
        self.make_move(fp);
        update_pos_after_move(&mut source, fp);
        let sp = side_move.reverse();
        self.make_move(sp);
        update_pos_after_move(&mut source, sp);
        assert(source as int == cross_target(edge));
        proof {
            assert(self.move_stack@ =~= old(self).move_stack@ + seq![
                face_move((col_of_edge(edge) + 1) % 4),
                reverse_move(face_move(col_of_edge(edge))),
                reverse_move(face_move((col_of_edge(edge) + 1) % 4)),
            ]);
        }
    }

    /// Places one cross edge by applying exactly
    /// `cross_moves(cube, source, edge)`: extraction to the top layer, top
    /// turns over a side column, and the seating turns of the facing-up or
    /// facing-out branch. Afterwards the edge sits in its reference slot
    /// with the cross colour on the bottom face and its other colour on the
    /// matching side face.
    #[verifier::rlimit(100)]
    fn move_bottom_cross_edge(&mut self, source: u8, edge: Edge)
        requires
            old(self).wf(),
            centres_solved(old(self).cube@),
            is_cross_edge(edge),
            is_edge_slot(source as int),
            edge_at(old(self).cube@, source as int) == edge,
        ensures
            final(self).wf(),
            final(self).initial == old(self).initial,
            old(self).move_stack@.is_prefix_of(final(self).move_stack@),
            final(self).move_stack@ == old(self).move_stack@ + cross_moves(
                old(self).cube@,
                source as int,
                edge,
            ),
            final(self).move_stack@.len() > old(self).move_stack@.len(),
            final(self).cube@ == apply_seq(
                old(self).cube@,
                cross_moves(old(self).cube@, source as int, edge),
            ),
            centres_solved(final(self).cube@),
            forall|e2: Edge| #[trigger]
                has_edge(old(self).cube@, e2) ==> has_edge(final(self).cube@, e2),
            edges_unique(old(self).cube@) ==> edges_unique(final(self).cube@),
            final(self).cube@[edge_sticker_a(cross_target(edge))] == edge.1,
            final(self).cube@[edge_sticker_b(cross_target(edge))] == Colour::White,
            forall|t: int|
                (t == 19 || t == 21 || t == 23 || t == 25) && t != cross_target(edge) && t
                    != source as int ==> final(self).cube@[edge_sticker_a(t)] == old(self).cube@[edge_sticker_a(t)] && final(self).cube@[edge_sticker_b(t)] == old(self).cube@[edge_sticker_b(t)],
    {
        let ghost c0 = old(self).cube@;
        let ghost s0 = source as int;
        let source = self.raise_to_top(source, edge);
        let ghost mid = self.cube@;

        let top_face_pos = source % 9;
        let bottom_colour = self.cube.face_colour(FaceName::Bottom);
        let non_bottom_colour = if edge.0 == bottom_colour {
            edge.1
        } else {
            edge.0
        };
        let target_col: i32 = if non_bottom_colour == self.cube.face_colour(FaceName::Back) {
            0
        } else if non_bottom_colour == self.cube.face_colour(FaceName::Right) {
            1
        } else if non_bottom_colour == self.cube.face_colour(FaceName::Front) {
            2
        } else if non_bottom_colour == self.cube.face_colour(FaceName::Left) {
            3
        } else {
            proof {
                assert(false);
            }
            unreached()
        };
        proof {
            assert(target_col as int == col_of_edge(edge));
            assert(mid[source as int] == apply_seq(c0, extraction_moves(s0))[raised_slot(s0)]);
        }

        if self.cube.facelet(top_face_pos as usize) == bottom_colour {
            // The cross colour faces up: stand the piece over its
            // destination face and seat it with a half turn of that face.
            let aligned = self.align_top(source, edge, target_col);
            self.seat_facing_up(aligned, edge, target_col);
            proof {
                assert(self.move_stack@ =~= old(self).move_stack@ + cross_moves(c0, s0, edge));
            }
        } else {
            // The cross colour faces out: stand the piece over the left
            // neighbour of its destination face, then insert from there.
            let insert_col: i32 = (target_col + 1) % 4;
            let aligned = self.align_top(source, edge, insert_col);
            self.seat_facing_out(aligned, edge, target_col);
            proof {
                assert(self.move_stack@ =~= old(self).move_stack@ + cross_moves(c0, s0, edge));
            }
        }
        proof {
            assert(old(self).move_stack@.is_prefix_of(self.move_stack@)) by {
                assert(self.move_stack@.subrange(0, old(self).move_stack@.len() as int)
                    =~= old(self).move_stack@);
            }
            lemma_apply_seq_append(self.initial@, old(self).move_stack@, cross_moves(c0, s0, edge));
        }
    }

    /// Solves the bottom cross: for each cross edge of the current bottom
    /// colour, looks up where it stands and where the reference solved cube
    /// keeps it, and places it there unless it is already seated with the
    /// cross colour facing down.
    fn solve_bottom_cross(&mut self)
        requires
            old(self).wf(),
            centres_solved(old(self).cube@),
            edges_unique(old(self).cube@),
            forall|k: int|
                0 <= k < 4 ==> has_edge(old(self).cube@, #[trigger] cross_edge(Colour::White, k)),
        ensures
            final(self).wf(),
            final(self).initial == old(self).initial,
            old(self).move_stack@.is_prefix_of(final(self).move_stack@),
            cross_solved(final(self).cube@),
            centres_solved(final(self).cube@),
            cross_solved(old(self).cube@) ==> final(self).move_stack@ == old(self).move_stack@,
            !cross_solved(old(self).cube@) ==> final(self).move_stack@.len() > old(self).move_stack@.len(),
    {
        let targets = self.cube.bottom_cross_edges();
        let mut k: usize = 0;
        while k < 4
            invariant
                old(self).wf(),
                self.wf(),
                self.initial == old(self).initial,
                centres_solved(self.cube@),
                edges_unique(self.cube@),
                forall|j: int|
                    0 <= j < 4 ==> has_edge(self.cube@, #[trigger] cross_edge(Colour::White, j)),
                k <= 4,
                targets@.len() == 4,
                forall|j: int| 0 <= j < 4 ==> targets@[j] == cross_edge(Colour::White, j),
                forall|j: int|
                    0 <= j < k ==> self.cube@[edge_sticker_a(
                        cross_target(#[trigger] cross_edge(Colour::White, j)),
                    )] == cross_edge(Colour::White, j).1 && self.cube@[edge_sticker_b(
                        cross_target(cross_edge(Colour::White, j)),
                    )] == Colour::White,
                old(self).move_stack@.is_prefix_of(self.move_stack@),
                old(self).move_stack@.len() <= self.move_stack@.len(),
                self.move_stack@.len() == old(self).move_stack@.len() ==> self.move_stack@ == old(self).move_stack@,
                cross_solved(old(self).cube@) ==> self.move_stack@ == old(self).move_stack@,
            decreases 4 - k,
        {
            let target_edge = targets[k];
            proof {
                assert(target_edge == cross_edge(Colour::White, k as int));
                assert(target_edge.1 != Colour::White);
            }
            let cur_pos = self.cube.find_edge(target_edge);
            let solved_reference = Cube::solved();
            proof {
                crate::cube::lemma_solved_edges();
                let sl = crate::cube::solved_layout();
                if target_edge == Edge(Colour::White, Colour::Red) {
                    assert(is_edge_slot(23) && edge_at(sl, 23) == target_edge);
                } else if target_edge == Edge(Colour::White, Colour::Blue) {
                    assert(is_edge_slot(25) && edge_at(sl, 25) == target_edge);
                } else if target_edge == Edge(Colour::White, Colour::Orange) {
                    assert(is_edge_slot(21) && edge_at(sl, 21) == target_edge);
                } else {
                    assert(target_edge == Edge(Colour::White, Colour::Green));
                    assert(is_edge_slot(19) && edge_at(sl, 19) == target_edge);
                }
                assert(has_edge(sl, target_edge));
            }
            let target_pos = solved_reference.find_edge(target_edge);
            proof {
                assert(target_pos as int == cross_target(target_edge));
                if cross_solved(old(self).cube@) {
                    // Nothing has moved yet, so the cross is still complete:
                    // the unique matching slot is the target itself and the
                    // cross colour already faces down there.
                    assert(self.cube@ == old(self).cube@);
                    assert(is_edge_slot(cross_target(target_edge)));
                    assert(edge_at(self.cube@, cross_target(target_edge)) == target_edge);
                    assert(cur_pos as int == cross_target(target_edge));
                    assert(self.cube@[edge_sticker_b(cross_target(target_edge))]
                        == Colour::White);
                }
            }
            let bottom_sticker: usize = match target_pos {
                19 => 52,
                21 => 48,
                23 => 50,
                _ => 46,
            };
            let oriented = self.cube.facelet(bottom_sticker)
                == self.cube.face_colour(FaceName::Bottom);
            if cur_pos != target_pos || !oriented {
                proof {
                    // no already-seated edge sits where the one being placed
                    // was found
                    assert forall|j: int|
                        0 <= j < k implies cross_target(
                        #[trigger] cross_edge(Colour::White, j),
                    ) != cur_pos as int || cur_pos == target_pos by {
                        let t = cross_target(cross_edge(Colour::White, j));
                        assert(edge_at(self.cube@, t) == cross_edge(Colour::White, j));
                    }
                }
                self.move_bottom_cross_edge(cur_pos, target_edge);
                proof {
                    assert(old(self).move_stack@.is_prefix_of(self.move_stack@)) by {
                        assert(self.move_stack@.subrange(
                            0,
                            old(self).move_stack@.len() as int,
                        ) =~= old(self).move_stack@);
                    }
                }
            } else {
                proof {
                    // already seated: the matching slot is the target and
                    // the cross colour faces down, so the side sticker shows
                    // the edge's other colour
                    assert(self.cube@[edge_sticker_b(cross_target(target_edge))]
                        == Colour::White);
                    assert(self.cube@[edge_sticker_a(cross_target(target_edge))]
                        == target_edge.1);
                }
            }
            k += 1;
        }
        proof {
            assert(self.cube@[edge_sticker_a(cross_target(cross_edge(Colour::White, 0)))]
                == cross_edge(Colour::White, 0).1 && self.cube@[edge_sticker_b(
                cross_target(cross_edge(Colour::White, 0)),
            )] == Colour::White);
            assert(self.cube@[edge_sticker_a(cross_target(cross_edge(Colour::White, 1)))]
                == cross_edge(Colour::White, 1).1 && self.cube@[edge_sticker_b(
                cross_target(cross_edge(Colour::White, 1)),
            )] == Colour::White);
            assert(self.cube@[edge_sticker_a(cross_target(cross_edge(Colour::White, 2)))]
                == cross_edge(Colour::White, 2).1 && self.cube@[edge_sticker_b(
                cross_target(cross_edge(Colour::White, 2)),
            )] == Colour::White);
            assert(self.cube@[edge_sticker_a(cross_target(cross_edge(Colour::White, 3)))]
                == cross_edge(Colour::White, 3).1 && self.cube@[edge_sticker_b(
                cross_target(cross_edge(Colour::White, 3)),
            )] == Colour::White);
        }
    }
}

/// Runs the bottom-cross stage on the given cube and returns the move trace:
/// applying the returned moves to the given layout completes the white
/// cross, centres included, and the trace is empty exactly when the cross
/// was already complete.
///
/// The solver reads each edge's destination from the fixed solved reference
/// cube, so those reference slots form a bottom cross only when the live
/// centres show the reference scheme; since no face turn ever moves a
/// centre, a cube with any other centre arrangement has the reference slots
/// scattered across its layers and no bottom cross to complete at them. The
/// precondition states that domain; within it, the bottom face's centre is
/// the cross colour, as the cross-edge lookup requires.
pub fn solve(cube: Cube) -> (r: Vec<Move>)
    requires
        cube.wf(),
        centres_solved(cube@),
        edges_unique(cube@),
        forall|k: int| 0 <= k < 4 ==> has_edge(cube@, #[trigger] cross_edge(Colour::White, k)),
    ensures
        cross_solved(apply_seq(cube@, r@)),
        centres_solved(apply_seq(cube@, r@)),
        cross_solved(cube@) ==> r@ == Seq::<Move>::empty(),
        !cross_solved(cube@) ==> r@.len() > 0,
{
    let ghost c0 = cube@;
    let mut solver = Solver { cube, move_stack: Vec::new(), initial: Ghost(c0) };
    proof {
        assert(solver.wf());
    }
    solver.solve_bottom_cross();
    proof {
        assert(solver.cube@ == apply_seq(c0, solver.move_stack@));
        if cross_solved(c0) {
            assert(solver.move_stack@ =~= Seq::<Move>::empty());
        }
    }
    solver.move_stack
}

} // verus!
