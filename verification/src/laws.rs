use vstd::prelude::*;
use crate::colour::Colour;
use crate::moves::{apply_move, move_src, reverse_move, Move};
use crate::tracker::advance;
use vstd::multiset::Multiset;

verus! {

/// Every move maps the 54 positions into the 54 positions.
proof fn lemma_move_src_range(action: Move)
    ensures
        forall|i: int| 0 <= i < 54 ==> 0 <= #[trigger] move_src(action, i) < 54,
{
}

/// A move and its inverse give mutually inverse position maps.
proof fn lemma_move_src_inverse(action: Move)
    ensures
        forall|i: int|
            0 <= i < 54 ==> move_src(action, #[trigger] move_src(reverse_move(action), i)) == i,
        forall|i: int|
            0 <= i < 54 ==> move_src(reverse_move(action), #[trigger] move_src(action, i)) == i,
{
}

/// Round trip: applying a move and then its inverse returns any layout
/// exactly to where it was.
pub proof fn lemma_round_trip(c: Seq<Colour>, action: Move)
    requires
        c.len() == 54,
    ensures
        apply_move(apply_move(c, action), reverse_move(action)) == c,
{
    lemma_move_src_range(action);
    lemma_move_src_range(reverse_move(action));
    lemma_move_src_inverse(action);
    assert forall|i: int|
        0 <= i < 54 implies apply_move(apply_move(c, action), reverse_move(action))[i] == c[i] by {
        let j = move_src(reverse_move(action), i);
        assert(apply_move(apply_move(c, action), reverse_move(action))[i] == apply_move(
            c,
            action,
        )[j]);
        assert(apply_move(c, action)[j] == c[move_src(action, j)]);
    }
    assert(apply_move(apply_move(c, action), reverse_move(action)) =~= c);
}

/// Every quarter turn has order four as a position map.
proof fn lemma_move_src_order_four(action: Move)
    ensures
        forall|i: int|
            0 <= i < 54 ==> move_src(
                action,
                move_src(action, move_src(action, #[trigger] move_src(action, i))),
            ) == i,
{
}

/// Order four: applying the same quarter turn four times returns any layout
/// exactly to where it was.
pub proof fn lemma_order_four(c: Seq<Colour>, action: Move)
    requires
        c.len() == 54,
    ensures
        apply_move(apply_move(apply_move(apply_move(c, action), action), action), action) == c,
{
    lemma_move_src_range(action);
    lemma_move_src_order_four(action);
    let c1 = apply_move(c, action);
    let c2 = apply_move(c1, action);
    let c3 = apply_move(c2, action);
    let c4 = apply_move(c3, action);
    assert forall|i: int| 0 <= i < 54 implies c4[i] == c[i] by {
        let j1 = move_src(action, i);
        let j2 = move_src(action, j1);
        let j3 = move_src(action, j2);
        assert(c4[i] == c3[j1]);
        assert(c3[j1] == c2[j2]);
        assert(c2[j2] == c1[j3]);
        assert(c1[j3] == c[move_src(action, j3)]);
    }
    assert(c4 =~= c);
}

/// A position map that hits each of the first n positions exactly once.
spec fn is_perm_map(p: Seq<int>, n: int) -> bool {
    &&& p.len() == n
    &&& forall|i: int| 0 <= i < n ==> 0 <= #[trigger] p[i] < n
    &&& forall|i: int, j: int| 0 <= i < j < n ==> p[i] != p[j]
}

/// Reading a sequence through a permutation of its positions keeps the
/// multiset of its entries.
proof fn lemma_rearrange_multiset(a: Seq<Colour>, p: Seq<int>)
    requires
        is_perm_map(p, a.len() as int),
    ensures
        Seq::new(a.len(), |i: int| a[p[i]]).to_multiset() == a.to_multiset(),
    decreases a.len(),
{
    broadcast use vstd::seq_lib::group_to_multiset_ensures;
    broadcast use vstd::multiset::group_multiset_axioms;

    let n = a.len() as int;
    let b = Seq::new(a.len(), |i: int| a[p[i]]);
    if n == 0 {
        assert forall|x: Colour| a.to_multiset().count(x) == b.to_multiset().count(x) by {
            assert(!a.contains(x));
            assert(!b.contains(x));
        }
        assert(a.to_multiset() =~= b.to_multiset());
    } else {
        let j = p[n - 1];
        let a1 = a.remove(j);
        let p1 = Seq::new((n - 1) as nat, |i: int| if p[i] < j { p[i] } else { p[i] - 1 });
        assert forall|i: int, i2: int| 0 <= i < i2 < n - 1 implies p1[i] != p1[i2] by {
            assert(p[i] != p[i2]);
            assert(p[i] != j && p[i2] != j);
        }
        assert(is_perm_map(p1, n - 1));
        let b1 = Seq::new((n - 1) as nat, |i: int| a1[p1[i]]);
        assert forall|i: int| 0 <= i < n - 1 implies b1[i] == b[i] by {
            assert(p[i] != j);
            if p[i] < j {
                assert(a1[p1[i]] == a[p[i]]);
            } else {
                assert(a1[p[i] - 1] == a[p[i]]);
            }
        }
        lemma_rearrange_multiset(a1, p1);
        assert(b1 =~= b.drop_last());
        assert(b =~= b.drop_last().push(b[n - 1]));
        assert(b.to_multiset() == b.drop_last().to_multiset().insert(b[n - 1]));
        assert(b[n - 1] == a[j]);
        assert(a1.to_multiset() == a.to_multiset().remove(a[j]));
        assert(a.contains(a[j]));
        assert(a.to_multiset().count(a[j]) > 0);
        assert(a.to_multiset().remove(a[j]).insert(a[j]) =~= a.to_multiset());
    }
}

/// Permutation invariant: no move creates, destroys or duplicates a colour;
/// the multiset of the 54 facelet colours is unchanged.
pub proof fn lemma_move_multiset(c: Seq<Colour>, action: Move)
    requires
        c.len() == 54,
    ensures
        apply_move(c, action).to_multiset() == c.to_multiset(),
{
    lemma_move_src_range(action);
    lemma_move_src_inverse(action);
    let p = Seq::new(54, |i: int| move_src(action, i));
    assert forall|i: int, j: int| 0 <= i < j < 54 implies p[i] != p[j] by {
        assert(move_src(reverse_move(action), move_src(action, i)) == i);
        assert(move_src(reverse_move(action), move_src(action, j)) == j);
    }
    assert(is_perm_map(p, 54));
    lemma_rearrange_multiset(c, p);
    assert(Seq::new(c.len(), |i: int| c[p[i]]) =~= apply_move(c, action));
}

/// The colours now showing on the stickers of one cubie slot. Corner slots
/// carry three stickers, edge slots two, centre slots one and the hidden
/// core none.
pub open spec fn cell_colours(c: Seq<Colour>, p: int) -> Multiset<Colour> {
    if p == 0 {
        Multiset::empty().insert(c[0]).insert(c[9]).insert(c[38])
    } else if p == 1 {
        Multiset::empty().insert(c[1]).insert(c[37])
    } else if p == 2 {
        Multiset::empty().insert(c[2]).insert(c[29]).insert(c[36])
    } else if p == 3 {
        Multiset::empty().insert(c[3]).insert(c[10])
    } else if p == 4 {
        Multiset::empty().insert(c[4])
    } else if p == 5 {
        Multiset::empty().insert(c[5]).insert(c[28])
    } else if p == 6 {
        Multiset::empty().insert(c[6]).insert(c[11]).insert(c[18])
    } else if p == 7 {
        Multiset::empty().insert(c[7]).insert(c[19])
    } else if p == 8 {
        Multiset::empty().insert(c[8]).insert(c[20]).insert(c[27])
    } else if p == 9 {
        Multiset::empty().insert(c[12]).insert(c[41])
    } else if p == 10 {
        Multiset::empty().insert(c[40])
    } else if p == 11 {
        Multiset::empty().insert(c[32]).insert(c[39])
    } else if p == 12 {
        Multiset::empty().insert(c[13])
    } else if p == 13 {
        Multiset::empty()
    } else if p == 14 {
        Multiset::empty().insert(c[31])
    } else if p == 15 {
        Multiset::empty().insert(c[14]).insert(c[21])
    } else if p == 16 {
        Multiset::empty().insert(c[22])
    } else if p == 17 {
        Multiset::empty().insert(c[23]).insert(c[30])
    } else if p == 18 {
        Multiset::empty().insert(c[15]).insert(c[44]).insert(c[51])
    } else if p == 19 {
        Multiset::empty().insert(c[43]).insert(c[52])
    } else if p == 20 {
        Multiset::empty().insert(c[35]).insert(c[42]).insert(c[53])
    } else if p == 21 {
        Multiset::empty().insert(c[16]).insert(c[48])
    } else if p == 22 {
        Multiset::empty().insert(c[49])
    } else if p == 23 {
        Multiset::empty().insert(c[34]).insert(c[50])
    } else if p == 24 {
        Multiset::empty().insert(c[17]).insert(c[24]).insert(c[45])
    } else if p == 25 {
        Multiset::empty().insert(c[25]).insert(c[46])
    } else if p == 26 {
        Multiset::empty().insert(c[26]).insert(c[33]).insert(c[47])
    } else {
        Multiset::empty()
    }
}

#[verifier::rlimit(100)]
proof fn lemma_cells_f(c: Seq<Colour>)
    requires
        c.len() == 54,
    ensures
        forall|p: int|
            0 <= p < 27 ==> #[trigger] cell_colours(apply_move(c, Move::F), advance(Move::F, p))
                == cell_colours(c, p),
{
    broadcast use vstd::multiset::group_multiset_axioms;

    assert forall|p: int|
        0 <= p < 27 implies #[trigger] cell_colours(apply_move(c, Move::F), advance(Move::F, p))
        == cell_colours(c, p) by {
        assert(cell_colours(apply_move(c, Move::F), advance(Move::F, p)) =~= cell_colours(c, p));
    }
}

#[verifier::rlimit(100)]
proof fn lemma_cells_b(c: Seq<Colour>)
    requires
        c.len() == 54,
    ensures
        forall|p: int|
            0 <= p < 27 ==> #[trigger] cell_colours(apply_move(c, Move::B), advance(Move::B, p))
                == cell_colours(c, p),
{
    broadcast use vstd::multiset::group_multiset_axioms;

    assert forall|p: int|
        0 <= p < 27 implies #[trigger] cell_colours(apply_move(c, Move::B), advance(Move::B, p))
        == cell_colours(c, p) by {
        assert(cell_colours(apply_move(c, Move::B), advance(Move::B, p)) =~= cell_colours(c, p));
    }
}

#[verifier::rlimit(100)]
proof fn lemma_cells_u(c: Seq<Colour>)
    requires
        c.len() == 54,
    ensures
        forall|p: int|
            0 <= p < 27 ==> #[trigger] cell_colours(apply_move(c, Move::U), advance(Move::U, p))
                == cell_colours(c, p),
{
    broadcast use vstd::multiset::group_multiset_axioms;

    assert forall|p: int|
        0 <= p < 27 implies #[trigger] cell_colours(apply_move(c, Move::U), advance(Move::U, p))
        == cell_colours(c, p) by {
        assert(cell_colours(apply_move(c, Move::U), advance(Move::U, p)) =~= cell_colours(c, p));
    }
}

#[verifier::rlimit(100)]
proof fn lemma_cells_d(c: Seq<Colour>)
    requires
        c.len() == 54,
    ensures
        forall|p: int|
            0 <= p < 27 ==> #[trigger] cell_colours(apply_move(c, Move::D), advance(Move::D, p))
                == cell_colours(c, p),
{
    broadcast use vstd::multiset::group_multiset_axioms;

    assert forall|p: int|
        0 <= p < 27 implies #[trigger] cell_colours(apply_move(c, Move::D), advance(Move::D, p))
        == cell_colours(c, p) by {
        assert(cell_colours(apply_move(c, Move::D), advance(Move::D, p)) =~= cell_colours(c, p));
    }
}

#[verifier::rlimit(100)]
proof fn lemma_cells_l(c: Seq<Colour>)
    requires
        c.len() == 54,
    ensures
        forall|p: int|
            0 <= p < 27 ==> #[trigger] cell_colours(apply_move(c, Move::L), advance(Move::L, p))
                == cell_colours(c, p),
{
    broadcast use vstd::multiset::group_multiset_axioms;

    assert forall|p: int|
        0 <= p < 27 implies #[trigger] cell_colours(apply_move(c, Move::L), advance(Move::L, p))
        == cell_colours(c, p) by {
        assert(cell_colours(apply_move(c, Move::L), advance(Move::L, p)) =~= cell_colours(c, p));
    }
}

#[verifier::rlimit(100)]
proof fn lemma_cells_r(c: Seq<Colour>)
    requires
        c.len() == 54,
    ensures
        forall|p: int|
            0 <= p < 27 ==> #[trigger] cell_colours(apply_move(c, Move::R), advance(Move::R, p))
                == cell_colours(c, p),
{
    broadcast use vstd::multiset::group_multiset_axioms;

    assert forall|p: int|
        0 <= p < 27 implies #[trigger] cell_colours(apply_move(c, Move::R), advance(Move::R, p))
        == cell_colours(c, p) by {
        assert(cell_colours(apply_move(c, Move::R), advance(Move::R, p)) =~= cell_colours(c, p));
    }
}

#[verifier::rlimit(100)]
proof fn lemma_cells_fp(c: Seq<Colour>)
    requires
        c.len() == 54,
    ensures
        forall|p: int|
            0 <= p < 27 ==> #[trigger] cell_colours(apply_move(c, Move::FP), advance(Move::FP, p))
                == cell_colours(c, p),
{
    broadcast use vstd::multiset::group_multiset_axioms;

    assert forall|p: int|
        0 <= p < 27 implies #[trigger] cell_colours(apply_move(c, Move::FP), advance(Move::FP, p))
        == cell_colours(c, p) by {
        assert(cell_colours(apply_move(c, Move::FP), advance(Move::FP, p)) =~= cell_colours(c, p));
    }
}

#[verifier::rlimit(100)]
proof fn lemma_cells_bp(c: Seq<Colour>)
    requires
        c.len() == 54,
    ensures
        forall|p: int|
            0 <= p < 27 ==> #[trigger] cell_colours(apply_move(c, Move::BP), advance(Move::BP, p))
                == cell_colours(c, p),
{
    broadcast use vstd::multiset::group_multiset_axioms;

    assert forall|p: int|
        0 <= p < 27 implies #[trigger] cell_colours(apply_move(c, Move::BP), advance(Move::BP, p))
        == cell_colours(c, p) by {
        assert(cell_colours(apply_move(c, Move::BP), advance(Move::BP, p)) =~= cell_colours(c, p));
    }
}

#[verifier::rlimit(100)]
proof fn lemma_cells_up(c: Seq<Colour>)
    requires
        c.len() == 54,
    ensures
        forall|p: int|
            0 <= p < 27 ==> #[trigger] cell_colours(apply_move(c, Move::UP), advance(Move::UP, p))
                == cell_colours(c, p),
{
    broadcast use vstd::multiset::group_multiset_axioms;

    assert forall|p: int|
        0 <= p < 27 implies #[trigger] cell_colours(apply_move(c, Move::UP), advance(Move::UP, p))
        == cell_colours(c, p) by {
        assert(cell_colours(apply_move(c, Move::UP), advance(Move::UP, p)) =~= cell_colours(c, p));
    }
}

#[verifier::rlimit(100)]
proof fn lemma_cells_dp(c: Seq<Colour>)
    requires
        c.len() == 54,
    ensures
        forall|p: int|
            0 <= p < 27 ==> #[trigger] cell_colours(apply_move(c, Move::DP), advance(Move::DP, p))
                == cell_colours(c, p),
{
    broadcast use vstd::multiset::group_multiset_axioms;

    assert forall|p: int|
        0 <= p < 27 implies #[trigger] cell_colours(apply_move(c, Move::DP), advance(Move::DP, p))
        == cell_colours(c, p) by {
        assert(cell_colours(apply_move(c, Move::DP), advance(Move::DP, p)) =~= cell_colours(c, p));
    }
}

#[verifier::rlimit(100)]
proof fn lemma_cells_lp(c: Seq<Colour>)
    requires
        c.len() == 54,
    ensures
        forall|p: int|
            0 <= p < 27 ==> #[trigger] cell_colours(apply_move(c, Move::LP), advance(Move::LP, p))
                == cell_colours(c, p),
{
    broadcast use vstd::multiset::group_multiset_axioms;

    assert forall|p: int|
        0 <= p < 27 implies #[trigger] cell_colours(apply_move(c, Move::LP), advance(Move::LP, p))
        == cell_colours(c, p) by {
        assert(cell_colours(apply_move(c, Move::LP), advance(Move::LP, p)) =~= cell_colours(c, p));
    }
}

#[verifier::rlimit(100)]
proof fn lemma_cells_rp(c: Seq<Colour>)
    requires
        c.len() == 54,
    ensures
        forall|p: int|
            0 <= p < 27 ==> #[trigger] cell_colours(apply_move(c, Move::RP), advance(Move::RP, p))
                == cell_colours(c, p),
{
    broadcast use vstd::multiset::group_multiset_axioms;

    assert forall|p: int|
        0 <= p < 27 implies #[trigger] cell_colours(apply_move(c, Move::RP), advance(Move::RP, p))
        == cell_colours(c, p) by {
        assert(cell_colours(apply_move(c, Move::RP), advance(Move::RP, p)) =~= cell_colours(c, p));
    }
}

/// Tracker and bulk application agree: whatever colours sit on a cubie slot
/// before a move sit on the advanced slot afterwards, for every slot and
/// every move.
pub proof fn lemma_tracker_agrees(c: Seq<Colour>, action: Move, p: int)
    requires
        c.len() == 54,
        0 <= p < 27,
    ensures
        cell_colours(apply_move(c, action), advance(action, p)) == cell_colours(c, p),
{
    match action {
        Move::F => lemma_cells_f(c),
        Move::B => lemma_cells_b(c),
        Move::U => lemma_cells_u(c),
        Move::D => lemma_cells_d(c),
        Move::L => lemma_cells_l(c),
        Move::R => lemma_cells_r(c),
        Move::FP => lemma_cells_fp(c),
        Move::BP => lemma_cells_bp(c),
        Move::UP => lemma_cells_up(c),
        Move::DP => lemma_cells_dp(c),
        Move::LP => lemma_cells_lp(c),
        Move::RP => lemma_cells_rp(c),
    }
}

} // verus!
