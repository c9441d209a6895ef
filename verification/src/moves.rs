use vstd::prelude::*;
use crate::colour::Colour;

verus! {

/// A quarter turn of one face: clockwise (F, B, U, D, L, R) or
/// counter-clockwise (FP, BP, UP, DP, LP, RP).
#[derive(Clone, Copy, PartialEq, Eq, Structural, Debug)]
pub enum Move {
    F,
    B,
    U,
    D,
    L,
    R,
    FP,
    BP,
    UP,
    DP,
    LP,
    RP,
}

/// The inverse turn: the counter-clockwise turn of the same face, and back.
pub open spec fn reverse_move(action: Move) -> Move {
    match action {
        Move::F => Move::FP,
        Move::B => Move::BP,
        Move::U => Move::UP,
        Move::D => Move::DP,
        Move::L => Move::LP,
        Move::R => Move::RP,
        Move::FP => Move::F,
        Move::BP => Move::B,
        Move::UP => Move::U,
        Move::DP => Move::D,
        Move::LP => Move::L,
        Move::RP => Move::R,
    }
}

impl Move {
    /// Every move has a unique inverse; reversing twice gives the move back.
    pub fn reverse(&self) -> (r: Move)
        ensures
            r == reverse_move(*self),
            reverse_move(r) == *self,
    {
        match self {
            Move::F => Move::FP,
            Move::B => Move::BP,
            Move::U => Move::UP,
            Move::D => Move::DP,
            Move::L => Move::LP,
            Move::R => Move::RP,
            Move::FP => Move::F,
            Move::BP => Move::B,
            Move::UP => Move::U,
            Move::DP => Move::D,
            Move::LP => Move::L,
            Move::RP => Move::R,
        }
    }
}

// Each move permutes the 54 facelet positions. The linear layout concatenates
// the faces in the order top, left, front, right, back, bottom, nine cells
// each, row-major. For each move, `src_x(i)` is the position whose colour
// lands at position i when the move is applied. Each table covers both the
// four three-cell side strips that cycle around the turned face and the 90
// degree rotation of the turned face's own eight border cells; its centre
// and every position off the turned layer keep their colour.

pub open spec fn src_f(i: int) -> int {
    if i == 6 { 17
    } else if i == 7 { 14
    } else if i == 8 { 11
    } else if i == 11 { 45
    } else if i == 14 { 46
    } else if i == 17 { 47
    } else if i == 18 { 24
    } else if i == 19 { 21
    } else if i == 20 { 18
    } else if i == 21 { 25
    } else if i == 23 { 19
    } else if i == 24 { 26
    } else if i == 25 { 23
    } else if i == 26 { 20
    } else if i == 27 { 6
    } else if i == 30 { 7
    } else if i == 33 { 8
    } else if i == 45 { 33
    } else if i == 46 { 30
    } else if i == 47 { 27
    } else { i }
}

pub open spec fn src_b(i: int) -> int {
    if i == 0 { 29
    } else if i == 1 { 32
    } else if i == 2 { 35
    } else if i == 9 { 2
    } else if i == 12 { 1
    } else if i == 15 { 0
    } else if i == 29 { 53
    } else if i == 32 { 52
    } else if i == 35 { 51
    } else if i == 36 { 42
    } else if i == 37 { 39
    } else if i == 38 { 36
    } else if i == 39 { 43
    } else if i == 41 { 37
    } else if i == 42 { 44
    } else if i == 43 { 41
    } else if i == 44 { 38
    } else if i == 51 { 9
    } else if i == 52 { 12
    } else if i == 53 { 15
    } else { i }
}

pub open spec fn src_u(i: int) -> int {
    if i == 0 { 6
    } else if i == 1 { 3
    } else if i == 2 { 0
    } else if i == 3 { 7
    } else if i == 5 { 1
    } else if i == 6 { 8
    } else if i == 7 { 5
    } else if i == 8 { 2
    } else if i == 9 { 18
    } else if i == 10 { 19
    } else if i == 11 { 20
    } else if i == 18 { 27
    } else if i == 19 { 28
    } else if i == 20 { 29
    } else if i == 27 { 36
    } else if i == 28 { 37
    } else if i == 29 { 38
    } else if i == 36 { 9
    } else if i == 37 { 10
    } else if i == 38 { 11
    } else { i }
}

pub open spec fn src_d(i: int) -> int {
    if i == 15 { 42
    } else if i == 16 { 43
    } else if i == 17 { 44
    } else if i == 24 { 15
    } else if i == 25 { 16
    } else if i == 26 { 17
    } else if i == 33 { 24
    } else if i == 34 { 25
    } else if i == 35 { 26
    } else if i == 42 { 33
    } else if i == 43 { 34
    } else if i == 44 { 35
    } else if i == 45 { 51
    } else if i == 46 { 48
    } else if i == 47 { 45
    } else if i == 48 { 52
    } else if i == 50 { 46
    } else if i == 51 { 53
    } else if i == 52 { 50
    } else if i == 53 { 47
    } else { i }
}

pub open spec fn src_l(i: int) -> int {
    if i == 0 { 44
    } else if i == 3 { 41
    } else if i == 6 { 38
    } else if i == 9 { 15
    } else if i == 10 { 12
    } else if i == 11 { 9
    } else if i == 12 { 16
    } else if i == 14 { 10
    } else if i == 15 { 17
    } else if i == 16 { 14
    } else if i == 17 { 11
    } else if i == 18 { 0
    } else if i == 21 { 3
    } else if i == 24 { 6
    } else if i == 38 { 51
    } else if i == 41 { 48
    } else if i == 44 { 45
    } else if i == 45 { 18
    } else if i == 48 { 21
    } else if i == 51 { 24
    } else { i }
}

pub open spec fn src_r(i: int) -> int {
    if i == 2 { 20
    } else if i == 5 { 23
    } else if i == 8 { 26
    } else if i == 20 { 47
    } else if i == 23 { 50
    } else if i == 26 { 53
    } else if i == 27 { 33
    } else if i == 28 { 30
    } else if i == 29 { 27
    } else if i == 30 { 34
    } else if i == 32 { 28
    } else if i == 33 { 35
    } else if i == 34 { 32
    } else if i == 35 { 29
    } else if i == 36 { 8
    } else if i == 39 { 5
    } else if i == 42 { 2
    } else if i == 47 { 42
    } else if i == 50 { 39
    } else if i == 53 { 36
    } else { i }
}

pub open spec fn src_fp(i: int) -> int {
    if i == 6 { 27
    } else if i == 7 { 30
    } else if i == 8 { 33
    } else if i == 11 { 8
    } else if i == 14 { 7
    } else if i == 17 { 6
    } else if i == 18 { 20
    } else if i == 19 { 23
    } else if i == 20 { 26
    } else if i == 21 { 19
    } else if i == 23 { 25
    } else if i == 24 { 18
    } else if i == 25 { 21
    } else if i == 26 { 24
    } else if i == 27 { 47
    } else if i == 30 { 46
    } else if i == 33 { 45
    } else if i == 45 { 11
    } else if i == 46 { 14
    } else if i == 47 { 17
    } else { i }
}

pub open spec fn src_bp(i: int) -> int {
    if i == 0 { 15
    } else if i == 1 { 12
    } else if i == 2 { 9
    } else if i == 9 { 51
    } else if i == 12 { 52
    } else if i == 15 { 53
    } else if i == 29 { 0
    } else if i == 32 { 1
    } else if i == 35 { 2
    } else if i == 36 { 38
    } else if i == 37 { 41
    } else if i == 38 { 44
    } else if i == 39 { 37
    } else if i == 41 { 43
    } else if i == 42 { 36
    } else if i == 43 { 39
    } else if i == 44 { 42
    } else if i == 51 { 35
    } else if i == 52 { 32
    } else if i == 53 { 29
    } else { i }
}

pub open spec fn src_up(i: int) -> int {
    if i == 0 { 2
    } else if i == 1 { 5
    } else if i == 2 { 8
    } else if i == 3 { 1
    } else if i == 5 { 7
    } else if i == 6 { 0
    } else if i == 7 { 3
    } else if i == 8 { 6
    } else if i == 9 { 36
    } else if i == 10 { 37
    } else if i == 11 { 38
    } else if i == 18 { 9
    } else if i == 19 { 10
    } else if i == 20 { 11
    } else if i == 27 { 18
    } else if i == 28 { 19
    } else if i == 29 { 20
    } else if i == 36 { 27
    } else if i == 37 { 28
    } else if i == 38 { 29
    } else { i }
}

pub open spec fn src_dp(i: int) -> int {
    if i == 15 { 24
    } else if i == 16 { 25
    } else if i == 17 { 26
    } else if i == 24 { 33
    } else if i == 25 { 34
    } else if i == 26 { 35
    } else if i == 33 { 42
    } else if i == 34 { 43
    } else if i == 35 { 44
    } else if i == 42 { 15
    } else if i == 43 { 16
    } else if i == 44 { 17
    } else if i == 45 { 47
    } else if i == 46 { 50
    } else if i == 47 { 53
    } else if i == 48 { 46
    } else if i == 50 { 52
    } else if i == 51 { 45
    } else if i == 52 { 48
    } else if i == 53 { 51
    } else { i }
}

pub open spec fn src_lp(i: int) -> int {
    if i == 0 { 18
    } else if i == 3 { 21
    } else if i == 6 { 24
    } else if i == 9 { 11
    } else if i == 10 { 14
    } else if i == 11 { 17
    } else if i == 12 { 10
    } else if i == 14 { 16
    } else if i == 15 { 9
    } else if i == 16 { 12
    } else if i == 17 { 15
    } else if i == 18 { 45
    } else if i == 21 { 48
    } else if i == 24 { 51
    } else if i == 38 { 6
    } else if i == 41 { 3
    } else if i == 44 { 0
    } else if i == 45 { 44
    } else if i == 48 { 41
    } else if i == 51 { 38
    } else { i }
}

pub open spec fn src_rp(i: int) -> int {
    if i == 2 { 42
    } else if i == 5 { 39
    } else if i == 8 { 36
    } else if i == 20 { 2
    } else if i == 23 { 5
    } else if i == 26 { 8
    } else if i == 27 { 29
    } else if i == 28 { 32
    } else if i == 29 { 35
    } else if i == 30 { 28
    } else if i == 32 { 34
    } else if i == 33 { 27
    } else if i == 34 { 30
    } else if i == 35 { 33
    } else if i == 36 { 53
    } else if i == 39 { 50
    } else if i == 42 { 47
    } else if i == 47 { 20
    } else if i == 50 { 23
    } else if i == 53 { 26
    } else { i }
}

pub open spec fn move_src(action: Move, i: int) -> int {
    match action {
        Move::F => src_f(i),
        Move::B => src_b(i),
        Move::U => src_u(i),
        Move::D => src_d(i),
        Move::L => src_l(i),
        Move::R => src_r(i),
        Move::FP => src_fp(i),
        Move::BP => src_bp(i),
        Move::UP => src_up(i),
        Move::DP => src_dp(i),
        Move::LP => src_lp(i),
        Move::RP => src_rp(i),
    }
}

/// The facelet layout after one move: position i shows the colour that
/// stood at `move_src(action, i)` before.
pub open spec fn apply_move(c: Seq<Colour>, action: Move) -> Seq<Colour> {
    Seq::new(54, |i: int| c[move_src(action, i)])
}

/// Exec lookup of the source position of the sticker that lands at i.
pub(crate) fn source_index(action: Move, i: usize) -> (r: usize)
    requires
        i < 54,
    ensures
        r < 54,
        r as int == move_src(action, i as int),
{
    match action {
        Move::F => match i {
                6 => 17,
                7 => 14,
                8 => 11,
                11 => 45,
                14 => 46,
                17 => 47,
                18 => 24,
                19 => 21,
                20 => 18,
                21 => 25,
                23 => 19,
                24 => 26,
                25 => 23,
                26 => 20,
                27 => 6,
                30 => 7,
                33 => 8,
                45 => 33,
                46 => 30,
                47 => 27,
                _ => i,
            },
        Move::B => match i {
                0 => 29,
                1 => 32,
                2 => 35,
                9 => 2,
                12 => 1,
                15 => 0,
                29 => 53,
                32 => 52,
                35 => 51,
                36 => 42,
                37 => 39,
                38 => 36,
                39 => 43,
                41 => 37,
                42 => 44,
                43 => 41,
                44 => 38,
                51 => 9,
                52 => 12,
                53 => 15,
                _ => i,
            },
        Move::U => match i {
                0 => 6,
                1 => 3,
                2 => 0,
                3 => 7,
                5 => 1,
                6 => 8,
                7 => 5,
                8 => 2,
                9 => 18,
                10 => 19,
                11 => 20,
                18 => 27,
                19 => 28,
                20 => 29,
                27 => 36,
                28 => 37,
                29 => 38,
                36 => 9,
                37 => 10,
                38 => 11,
                _ => i,
            },
        Move::D => match i {
                15 => 42,
                16 => 43,
                17 => 44,
                24 => 15,
                25 => 16,
                26 => 17,
                33 => 24,
                34 => 25,
                35 => 26,
                42 => 33,
                43 => 34,
                44 => 35,
                45 => 51,
                46 => 48,
                47 => 45,
                48 => 52,
                50 => 46,
                51 => 53,
                52 => 50,
                53 => 47,
                _ => i,
            },
        Move::L => match i {
                0 => 44,
                3 => 41,
                6 => 38,
                9 => 15,
                10 => 12,
                11 => 9,
                12 => 16,
                14 => 10,
                15 => 17,
                16 => 14,
                17 => 11,
                18 => 0,
                21 => 3,
                24 => 6,
                38 => 51,
                41 => 48,
                44 => 45,
                45 => 18,
                48 => 21,
                51 => 24,
                _ => i,
            },
        Move::R => match i {
                2 => 20,
                5 => 23,
                8 => 26,
                20 => 47,
                23 => 50,
                26 => 53,
                27 => 33,
                28 => 30,
                29 => 27,
                30 => 34,
                32 => 28,
                33 => 35,
                34 => 32,
                35 => 29,
                36 => 8,
                39 => 5,
                42 => 2,
                47 => 42,
                50 => 39,
                53 => 36,
                _ => i,
            },
        Move::FP => match i {
                6 => 27,
                7 => 30,
                8 => 33,
                11 => 8,
                14 => 7,
                17 => 6,
                18 => 20,
                19 => 23,
                20 => 26,
                21 => 19,
                23 => 25,
                24 => 18,
                25 => 21,
                26 => 24,
                27 => 47,
                30 => 46,
                33 => 45,
                45 => 11,
                46 => 14,
                47 => 17,
                _ => i,
            },
        Move::BP => match i {
                0 => 15,
                1 => 12,
                2 => 9,
                9 => 51,
                12 => 52,
                15 => 53,
                29 => 0,
                32 => 1,
                35 => 2,
                36 => 38,
                37 => 41,
                38 => 44,
                39 => 37,
                41 => 43,
                42 => 36,
                43 => 39,
                44 => 42,
                51 => 35,
                52 => 32,
                53 => 29,
                _ => i,
            },
        Move::UP => match i {
                0 => 2,
                1 => 5,
                2 => 8,
                3 => 1,
                5 => 7,
                6 => 0,
                7 => 3,
                8 => 6,
                9 => 36,
                10 => 37,
                11 => 38,
                18 => 9,
                19 => 10,
                20 => 11,
                27 => 18,
                28 => 19,
                29 => 20,
                36 => 27,
                37 => 28,
                38 => 29,
                _ => i,
            },
        Move::DP => match i {
                15 => 24,
                16 => 25,
                17 => 26,
                24 => 33,
                25 => 34,
                26 => 35,
                33 => 42,
                34 => 43,
                35 => 44,
                42 => 15,
                43 => 16,
                44 => 17,
                45 => 47,
                46 => 50,
                47 => 53,
                48 => 46,
                50 => 52,
                51 => 45,
                52 => 48,
                53 => 51,
                _ => i,
            },
        Move::LP => match i {
                0 => 18,
                3 => 21,
                6 => 24,
                9 => 11,
                10 => 14,
                11 => 17,
                12 => 10,
                14 => 16,
                15 => 9,
                16 => 12,
                17 => 15,
                18 => 45,
                21 => 48,
                24 => 51,
                38 => 6,
                41 => 3,
                44 => 0,
                45 => 44,
                48 => 41,
                51 => 38,
                _ => i,
            },
        Move::RP => match i {
                2 => 42,
                5 => 39,
                8 => 36,
                20 => 2,
                23 => 5,
                26 => 8,
                27 => 29,
                28 => 32,
                29 => 35,
                30 => 28,
                32 => 34,
                33 => 27,
                34 => 30,
                35 => 33,
                36 => 53,
                39 => 50,
                42 => 47,
                47 => 20,
                50 => 23,
                53 => 26,
                _ => i,
            },
    }
}


} // verus!
