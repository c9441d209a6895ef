use vstd::prelude::*;
use crate::colour::{lemma_canonical_edge_symmetric_all, Colour};
use crate::cube::{edge_at, is_edge_slot};
use crate::moves::{apply_move, reverse_move, Move};

verus! {

// The tracker works on cubie slots rather than single stickers: slots 0 to 8
// are the top layer read as the top face's own grid, 9 to 17 the middle
// layer and 18 to 26 the bottom layer, both read from above with the back
// row first; positions 27 and up never move. A face turn cycles the eight
// slots of its layer ring; `advance` gives the slot a piece travels to, so a
// single piece can be followed through a move without re-scanning the cube.

/// The slot the piece at slot p travels to under one face turn.
pub open spec fn advance(action: Move, p: int) -> int {
    match action {
        Move::F => if p == 6 { 8 } else if p == 7 { 17 } else if p == 8 { 26 } else if p == 15 { 7 } else if p == 17 { 25 } else if p == 24 { 6 } else if p == 25 { 15 } else if p == 26 { 24 } else { p },
        Move::B => if p == 0 { 18 } else if p == 1 { 9 } else if p == 2 { 0 } else if p == 9 { 19 } else if p == 11 { 1 } else if p == 18 { 20 } else if p == 19 { 11 } else if p == 20 { 2 } else { p },
        Move::U => if p == 0 { 2 } else if p == 1 { 5 } else if p == 2 { 8 } else if p == 3 { 1 } else if p == 5 { 7 } else if p == 6 { 0 } else if p == 7 { 3 } else if p == 8 { 6 } else { p },
        Move::D => if p == 18 { 24 } else if p == 19 { 21 } else if p == 20 { 18 } else if p == 21 { 25 } else if p == 23 { 19 } else if p == 24 { 26 } else if p == 25 { 23 } else if p == 26 { 20 } else { p },
        Move::L => if p == 0 { 6 } else if p == 3 { 15 } else if p == 6 { 24 } else if p == 9 { 3 } else if p == 15 { 21 } else if p == 18 { 0 } else if p == 21 { 9 } else if p == 24 { 18 } else { p },
        Move::R => if p == 2 { 20 } else if p == 5 { 11 } else if p == 8 { 2 } else if p == 11 { 23 } else if p == 17 { 5 } else if p == 20 { 26 } else if p == 23 { 17 } else if p == 26 { 8 } else { p },
        Move::FP => if p == 6 { 24 } else if p == 7 { 15 } else if p == 8 { 6 } else if p == 15 { 25 } else if p == 17 { 7 } else if p == 24 { 26 } else if p == 25 { 17 } else if p == 26 { 8 } else { p },
        Move::BP => if p == 0 { 2 } else if p == 1 { 11 } else if p == 2 { 20 } else if p == 9 { 1 } else if p == 11 { 19 } else if p == 18 { 0 } else if p == 19 { 9 } else if p == 20 { 18 } else { p },
        Move::UP => if p == 0 { 6 } else if p == 1 { 3 } else if p == 2 { 0 } else if p == 3 { 7 } else if p == 5 { 1 } else if p == 6 { 8 } else if p == 7 { 5 } else if p == 8 { 2 } else { p },
        Move::DP => if p == 18 { 20 } else if p == 19 { 23 } else if p == 20 { 26 } else if p == 21 { 19 } else if p == 23 { 25 } else if p == 24 { 18 } else if p == 25 { 21 } else if p == 26 { 24 } else { p },
        Move::LP => if p == 0 { 18 } else if p == 3 { 9 } else if p == 6 { 0 } else if p == 9 { 21 } else if p == 15 { 3 } else if p == 18 { 24 } else if p == 21 { 15 } else if p == 24 { 6 } else { p },
        Move::RP => if p == 2 { 8 } else if p == 5 { 17 } else if p == 8 { 26 } else if p == 11 { 5 } else if p == 17 { 23 } else if p == 20 { 2 } else if p == 23 { 11 } else if p == 26 { 20 } else { p },
    }
}

/// Follows one piece through a move: rewrites the slot in place to where
/// the turn carries it, by a per-move lookup with no scan of the cube.
pub fn update_pos_after_move(pos: &mut u8, action: Move)
    requires
        *old(pos) < 54,
    ensures
        *final(pos) < 54,
        *final(pos) as int == advance(action, *old(pos) as int),
{
    *pos = match action {
        Move::F => match *pos {
                6 => 8,
                7 => 17,
                8 => 26,
                15 => 7,
                17 => 25,
                24 => 6,
                25 => 15,
                26 => 24,
                _ => *pos,
            },
        Move::B => match *pos {
                0 => 18,
                1 => 9,
                2 => 0,
                9 => 19,
                11 => 1,
                18 => 20,
                19 => 11,
                20 => 2,
                _ => *pos,
            },
        Move::U => match *pos {
                0 => 2,
                1 => 5,
                2 => 8,
                3 => 1,
                5 => 7,
                6 => 0,
                7 => 3,
                8 => 6,
                _ => *pos,
            },
        Move::D => match *pos {
                18 => 24,
                19 => 21,
                20 => 18,
                21 => 25,
                23 => 19,
                24 => 26,
                25 => 23,
                26 => 20,
                _ => *pos,
            },
        Move::L => match *pos {
                0 => 6,
                3 => 15,
                6 => 24,
                9 => 3,
                15 => 21,
                18 => 0,
                21 => 9,
                24 => 18,
                _ => *pos,
            },
        Move::R => match *pos {
                2 => 20,
                5 => 11,
                8 => 2,
                11 => 23,
                17 => 5,
                20 => 26,
                23 => 17,
                26 => 8,
                _ => *pos,
            },
        Move::FP => match *pos {
                6 => 24,
                7 => 15,
                8 => 6,
                15 => 25,
                17 => 7,
                24 => 26,
                25 => 17,
                26 => 8,
                _ => *pos,
            },
        Move::BP => match *pos {
                0 => 2,
                1 => 11,
                2 => 20,
                9 => 1,
                11 => 19,
                18 => 0,
                19 => 9,
                20 => 18,
                _ => *pos,
            },
        Move::UP => match *pos {
                0 => 6,
                1 => 3,
                2 => 0,
                3 => 7,
                5 => 1,
                6 => 8,
                7 => 5,
                8 => 2,
                _ => *pos,
            },
        Move::DP => match *pos {
                18 => 20,
                19 => 23,
                20 => 26,
                21 => 19,
                23 => 25,
                24 => 18,
                25 => 21,
                26 => 24,
                _ => *pos,
            },
        Move::LP => match *pos {
                0 => 18,
                3 => 9,
                6 => 0,
                9 => 21,
                15 => 3,
                18 => 24,
                21 => 15,
                24 => 6,
                _ => *pos,
            },
        Move::RP => match *pos {
                2 => 8,
                5 => 17,
                8 => 26,
                11 => 5,
                17 => 23,
                20 => 2,
                23 => 11,
                26 => 20,
                _ => *pos,
            },
    };
}

/// Tracker and bulk move agree on edges: the colour pair at an edge slot
/// before a move is the colour pair at the advanced slot afterwards, and
/// advancing by a move and then by its inverse leads back.
pub proof fn lemma_move_edges(c: Seq<Colour>, action: Move)
    requires
        c.len() == 54,
    ensures
        forall|s: int| is_edge_slot(s) ==> is_edge_slot(#[trigger] advance(action, s)),
        forall|s: int|
            is_edge_slot(s) ==> advance(reverse_move(action), #[trigger] advance(action, s)) == s,
        forall|s: int|
            is_edge_slot(s) ==> #[trigger] edge_at(apply_move(c, action), s) == edge_at(
                c,
                advance(reverse_move(action), s),
            ),
{
    lemma_canonical_edge_symmetric_all();
}

} // verus!
