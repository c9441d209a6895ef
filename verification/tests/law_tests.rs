use solver::tracker::update_pos_after_move;
use solver::Colour;
use solver::Cube;
use solver::Move;

fn all_moves() -> [Move; 12] {
    [
        Move::F,
        Move::B,
        Move::U,
        Move::D,
        Move::L,
        Move::R,
        Move::FP,
        Move::BP,
        Move::UP,
        Move::DP,
        Move::LP,
        Move::RP,
    ]
}

fn all_colours() -> [Colour; 6] {
    [
        Colour::White,
        Colour::Red,
        Colour::Blue,
        Colour::Orange,
        Colour::Green,
        Colour::Yellow,
    ]
}

/// A fixed scrambled cube, reached from the solved cube by moves.
fn scrambled() -> Cube {
    let mut cube = Cube::solved();
    let sequence = [
        Move::R,
        Move::FP,
        Move::U,
        Move::F,
        Move::RP,
        Move::D,
        Move::B,
        Move::LP,
        Move::U,
        Move::L,
    ];
    for m in sequence {
        cube.make_move(m);
    }
    cube
}

#[test]
fn round_trip_for_every_move() {
    for m in all_moves() {
        let mut cube = scrambled();
        cube.make_move(m);
        cube.make_move(m.reverse());
        assert!(cube == scrambled());
    }
}

#[test]
fn order_four_for_every_move() {
    for m in all_moves() {
        let mut cube = scrambled();
        cube.make_move(m);
        cube.make_move(m);
        cube.make_move(m);
        cube.make_move(m);
        assert!(cube == scrambled());
    }
}

fn colour_counts(cube: &Cube) -> [usize; 6] {
    let mut counts: [usize; 6] = [0; 6];
    let mut i: usize = 0;
    while i < 54 {
        let c = cube.facelet(i);
        let mut k: usize = 0;
        while k < 6 {
            if c == all_colours()[k] {
                counts[k] += 1;
            }
            k += 1;
        }
        i += 1;
    }
    counts
}

#[test]
fn moves_preserve_the_multiset_of_colours() {
    for m in all_moves() {
        let mut cube = scrambled();
        let before = colour_counts(&cube);
        cube.make_move(m);
        let after = colour_counts(&cube);
        assert_eq!(before, after);
        assert_eq!(after.iter().sum::<usize>(), 54);
    }
}

#[test]
fn tracker_agrees_with_move_application_on_every_edge() {
    for m in all_moves() {
        let mut cube = scrambled();
        let before = cube.edges();
        cube.make_move(m);
        for (edge, pos) in before {
            let mut followed = pos;
            update_pos_after_move(&mut followed, m);
            assert_eq!(cube.find_edge(edge), followed);
        }
    }
}

#[test]
fn tracker_leaves_centres_and_core_in_place() {
    for m in all_moves() {
        for pos in [4u8, 10, 12, 13, 14, 16, 22] {
            let mut followed = pos;
            update_pos_after_move(&mut followed, m);
            assert_eq!(followed, pos);
        }
    }
}

#[test]
fn reverse_is_an_involution() {
    for m in all_moves() {
        assert_eq!(m.reverse().reverse(), m);
        assert_ne!(m.reverse(), m);
    }
}
