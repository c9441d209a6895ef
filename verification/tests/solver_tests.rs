use solver::solve;
use solver::Colour;
use solver::Cube;
use solver::Edge;
use solver::FaceName;
use solver::Move;

/// The four white cross edges with the slots they occupy on a solved cube.
fn cross_targets() -> [(Edge, u8); 4] {
    [
        (Edge(Colour::White, Colour::Green), 19),
        (Edge(Colour::White, Colour::Orange), 21),
        (Edge(Colour::White, Colour::Red), 23),
        (Edge(Colour::White, Colour::Blue), 25),
    ]
}

fn assert_cross_solved(cube: &Cube) {
    for (edge, slot) in cross_targets() {
        assert_eq!(cube.find_edge(edge), slot);
    }
    // the cross colour faces down on all four edges
    assert_eq!(cube.facelet(52), Colour::White);
    assert_eq!(cube.facelet(48), Colour::White);
    assert_eq!(cube.facelet(50), Colour::White);
    assert_eq!(cube.facelet(46), Colour::White);
    // and each side sticker matches its side face's centre
    assert_eq!(cube.facelet(43), Colour::Green);
    assert_eq!(cube.facelet(16), Colour::Orange);
    assert_eq!(cube.facelet(34), Colour::Red);
    assert_eq!(cube.facelet(25), Colour::Blue);
}

fn apply_all(cube: &mut Cube, moves: &[Move]) {
    for m in moves {
        cube.make_move(*m);
    }
}

#[test]
fn solved_cube_carries_the_twelve_canonical_edges() {
    let cube = Cube::solved();
    let edges = cube.edges();
    assert_eq!(edges.len(), 12);
    let mut i: usize = 0;
    while i < 12 {
        let mut j: usize = 0;
        while j < 12 {
            if i != j {
                assert_ne!(edges[i].0, edges[j].0);
            }
            j += 1;
        }
        // every edge is stored lower-ranked colour first and is found where
        // the enumeration reports it
        assert_eq!(cube.find_edge(edges[i].0), edges[i].1);
        i += 1;
    }
}

#[test]
fn centres_identify_the_faces() {
    let cube = Cube::solved();
    assert_eq!(cube.face_colour(FaceName::Top), Colour::Yellow);
    assert_eq!(cube.face_colour(FaceName::Left), Colour::Orange);
    assert_eq!(cube.face_colour(FaceName::Front), Colour::Blue);
    assert_eq!(cube.face_colour(FaceName::Right), Colour::Red);
    assert_eq!(cube.face_colour(FaceName::Back), Colour::Green);
    assert_eq!(cube.face_colour(FaceName::Bottom), Colour::White);
}

#[test]
fn cross_edges_follow_the_bottom_centre() {
    let cube = Cube::solved();
    let edges = cube.bottom_cross_edges();
    assert_eq!(
        edges,
        [
            Edge(Colour::White, Colour::Red),
            Edge(Colour::White, Colour::Blue),
            Edge(Colour::White, Colour::Orange),
            Edge(Colour::White, Colour::Green),
        ]
    );
}

#[test]
fn solve_on_a_complete_cross_returns_no_moves() {
    let moves = solve(Cube::solved());
    assert!(moves.is_empty());
}

/// A cube solved everywhere except that one cross edge sits in the middle
/// layer, exchanged with the edge that belongs there.
fn cross_edge_in_middle_layer() -> Cube {
    let mut facelets = [Colour::White; 54];
    let mut i: usize = 0;
    while i < 54 {
        facelets[i] = if i < 9 {
            Colour::Yellow
        } else if i < 18 {
            Colour::Orange
        } else if i < 27 {
            Colour::Blue
        } else if i < 36 {
            Colour::Red
        } else if i < 45 {
            Colour::Green
        } else {
            Colour::White
        };
        i += 1;
    }
    // Exchange the white-blue edge (front-bottom) with the blue-red edge
    // (front-right): positions 25/46 hold the front-bottom stickers and
    // 23/30 the front-right ones.
    facelets[23] = Colour::Blue;
    facelets[30] = Colour::White;
    facelets[25] = Colour::Red;
    facelets[46] = Colour::Blue;
    Cube::make_cube(facelets)
}

/// A cube solved everywhere except that the front-bottom cross edge sits in
/// its own slot the wrong way round: white facing out, blue facing down.
fn cross_edge_flipped_in_place() -> Cube {
    let mut facelets = [Colour::White; 54];
    let mut i: usize = 0;
    while i < 54 {
        facelets[i] = if i < 9 {
            Colour::Yellow
        } else if i < 18 {
            Colour::Orange
        } else if i < 27 {
            Colour::Blue
        } else if i < 36 {
            Colour::Red
        } else if i < 45 {
            Colour::Green
        } else {
            Colour::White
        };
        i += 1;
    }
    facelets[25] = Colour::White;
    facelets[46] = Colour::Blue;
    Cube::make_cube(facelets)
}

#[test]
fn solve_reseats_a_flipped_cross_edge() {
    let cube = cross_edge_flipped_in_place();
    // the edge already occupies its slot, but the wrong way round
    assert_eq!(cube.find_edge(Edge(Colour::White, Colour::Blue)), 25);
    assert_eq!(cube.facelet(46), Colour::Blue);
    let moves = solve(cube);
    assert!(!moves.is_empty());
    let mut replay = cross_edge_flipped_in_place();
    apply_all(&mut replay, &moves);
    assert_cross_solved(&replay);
}

#[test]
fn solve_places_a_middle_layer_cross_edge() {
    let cube = cross_edge_in_middle_layer();
    // the displaced edge really sits in the middle layer
    assert_eq!(cube.find_edge(Edge(Colour::White, Colour::Blue)), 17);
    let moves = solve(cube);
    assert!(!moves.is_empty());
    let mut replay = cross_edge_in_middle_layer();
    apply_all(&mut replay, &moves);
    assert_eq!(replay.find_edge(Edge(Colour::White, Colour::Blue)), 25);
    assert_cross_solved(&replay);
}

#[test]
fn solve_completes_the_cross_after_a_short_scramble() {
    let scramble = [Move::R, Move::FP, Move::U, Move::F, Move::RP];
    let mut cube = Cube::solved();
    apply_all(&mut cube, &scramble);
    let moves = solve(cube);
    assert!(!moves.is_empty());
    let mut replay = Cube::solved();
    apply_all(&mut replay, &scramble);
    apply_all(&mut replay, &moves);
    assert_cross_solved(&replay);
}

#[test]
fn solve_completes_the_cross_after_a_long_scramble() {
    let scramble = [
        Move::D,
        Move::B,
        Move::LP,
        Move::U,
        Move::L,
        Move::F,
        Move::F,
        Move::DP,
        Move::RP,
        Move::B,
        Move::B,
        Move::U,
        Move::LP,
        Move::D,
        Move::R,
        Move::FP,
    ];
    let mut cube = Cube::solved();
    apply_all(&mut cube, &scramble);
    let moves = solve(cube);
    let mut replay = Cube::solved();
    apply_all(&mut replay, &scramble);
    apply_all(&mut replay, &moves);
    assert_cross_solved(&replay);
}
