use solver::Colour;
use solver::Colour::Blue as B;
use solver::Colour::Green as G;
use solver::Colour::Orange as O;
use solver::Colour::Red as R;
use solver::Colour::White as W;
use solver::Colour::Yellow as Y;
use solver::Cube;
use solver::Move;

/// Builds a cube from 54 colours written in the unfolded-net reading order:
/// the top face, then the three rows across left, front, right and back,
/// then the bottom face.
fn cube_from_net(c: [Colour; 54]) -> Cube {
    Cube::make_cube([
        c[0], c[1], c[2], c[3], c[4], c[5], c[6], c[7], c[8],
        c[9], c[10], c[11], c[21], c[22], c[23], c[33], c[34], c[35],
        c[12], c[13], c[14], c[24], c[25], c[26], c[36], c[37], c[38],
        c[15], c[16], c[17], c[27], c[28], c[29], c[39], c[40], c[41],
        c[18], c[19], c[20], c[30], c[31], c[32], c[42], c[43], c[44],
        c[45], c[46], c[47], c[48], c[49], c[50], c[51], c[52], c[53],
    ])
}

fn test_move(m: Move, output: [Colour; 54]) {
    let mut input = Cube::solved();
    input.make_move(m);
    let output = cube_from_net(output);
    assert!(input == output);
}

#[test]
fn test_front() {
    let output = [
              /*Top*/
              Y, Y, Y,
              Y, Y, Y,
              O, O, O,
    /*Left    Front     Right     Back*/
    O, O, W,  B, B, B,  Y, R, R,  G, G, G,
    O, O, W,  B, B, B,  Y, R, R,  G, G, G,
    O, O, W,  B, B, B,  Y, R, R,  G, G, G,
              /*Bottom*/
              R, R, R,
              W, W, W,
              W, W, W,
    ];
    test_move(Move::F, output);
}

#[test]
fn test_back() {
    let output = [
              /*Top*/
              R, R, R,
              Y, Y, Y,
              Y, Y, Y,
    /*Left    Front     Right     Back*/
    Y, O, O,  B, B, B,  R, R, W,  G, G, G,
    Y, O, O,  B, B, B,  R, R, W,  G, G, G,
    Y, O, O,  B, B, B,  R, R, W,  G, G, G,
              /*Bottom*/
              W, W, W,
              W, W, W,
              O, O, O,
    ];
    test_move(Move::B, output);
}

#[test]
fn test_up() {
    let output = [
              /*Top*/
              Y, Y, Y,
              Y, Y, Y,
              Y, Y, Y,
    /*Left    Front     Right     Back*/
    B, B, B,  R, R, R,  G, G, G,  O, O, O,
    O, O, O,  B, B, B,  R, R, R,  G, G, G,
    O, O, O,  B, B, B,  R, R, R,  G, G, G,
              /*Bottom*/
              W, W, W,
              W, W, W,
              W, W, W,
    ];
    test_move(Move::U, output);
}

#[test]
fn test_down() {
    let output = [
              /*Top*/
              Y, Y, Y,
              Y, Y, Y,
              Y, Y, Y,
    /*Left    Front     Right     Back*/
    O, O, O,  B, B, B,  R, R, R,  G, G, G,
    O, O, O,  B, B, B,  R, R, R,  G, G, G,
    G, G, G,  O, O, O,  B, B, B,  R, R, R,
              /*Bottom*/
              W, W, W,
              W, W, W,
              W, W, W,
    ];
    test_move(Move::D, output);
}

#[test]
fn test_left() {
    let output = [
              /*Top*/
              G, Y, Y,
              G, Y, Y,
              G, Y, Y,
    /*Left    Front     Right     Back*/
    O, O, O,  Y, B, B,  R, R, R,  G, G, W,
    O, O, O,  Y, B, B,  R, R, R,  G, G, W,
    O, O, O,  Y, B, B,  R, R, R,  G, G, W,
              /*Bottom*/
              B, W, W,
              B, W, W,
              B, W, W,
    ];
    test_move(Move::L, output);
}

#[test]
fn test_right() {
    let output = [
              /*Top*/
              Y, Y, B,
              Y, Y, B,
              Y, Y, B,
    /*Left    Front     Right     Back*/
    O, O, O,  B, B, W,  R, R, R,  Y, G, G,
    O, O, O,  B, B, W,  R, R, R,  Y, G, G,
    O, O, O,  B, B, W,  R, R, R,  Y, G, G,
              /*Bottom*/
              W, W, G,
              W, W, G,
              W, W, G,
    ];
    test_move(Move::R, output);
}

#[test]
fn test_front_prime() {
    let output = [
              /*Top*/
              Y, Y, Y,
              Y, Y, Y,
              R, R, R,
    /*Left    Front     Right     Back*/
    O, O, Y,  B, B, B,  W, R, R,  G, G, G,
    O, O, Y,  B, B, B,  W, R, R,  G, G, G,
    O, O, Y,  B, B, B,  W, R, R,  G, G, G,
              /*Bottom*/
              O, O, O,
              W, W, W,
              W, W, W,
    ];
    test_move(Move::FP, output);
}

#[test]
fn test_back_prime() {
    let output = [
              /*Top*/
              O, O, O,
              Y, Y, Y,
              Y, Y, Y,
    /*Left    Front     Right     Back*/
    W, O, O,  B, B, B,  R, R, Y,  G, G, G,
    W, O, O,  B, B, B,  R, R, Y,  G, G, G,
    W, O, O,  B, B, B,  R, R, Y,  G, G, G,
              /*Bottom*/
              W, W, W,
              W, W, W,
              R, R, R,
    ];
    test_move(Move::BP, output);
}

#[test]
fn test_up_prime() {
    let output = [
              /*Top*/
              Y, Y, Y,
              Y, Y, Y,
              Y, Y, Y,
    /*Left    Front     Right     Back*/
    G, G, G,  O, O, O,  B, B, B,  R, R, R,
    O, O, O,  B, B, B,  R, R, R,  G, G, G,
    O, O, O,  B, B, B,  R, R, R,  G, G, G,
              /*Bottom*/
              W, W, W,
              W, W, W,
              W, W, W,
    ];
    test_move(Move::UP, output);
}

#[test]
fn test_down_prime() {
    let output = [
              /*Top*/
              Y, Y, Y,
              Y, Y, Y,
              Y, Y, Y,
    /*Left    Front     Right     Back*/
    O, O, O,  B, B, B,  R, R, R,  G, G, G,
    O, O, O,  B, B, B,  R, R, R,  G, G, G,
    B, B, B,  R, R, R,  G, G, G,  O, O, O,
              /*Bottom*/
              W, W, W,
              W, W, W,
              W, W, W,
    ];
    test_move(Move::DP, output);
}

#[test]
fn test_left_prime() {
    let output = [
              /*Top*/
              B, Y, Y,
              B, Y, Y,
              B, Y, Y,
    /*Left    Front     Right     Back*/
    O, O, O,  W, B, B,  R, R, R,  G, G, Y,
    O, O, O,  W, B, B,  R, R, R,  G, G, Y,
    O, O, O,  W, B, B,  R, R, R,  G, G, Y,
              /*Bottom*/
              G, W, W,
              G, W, W,
              G, W, W,
    ];
    test_move(Move::LP, output);
}

#[test]
fn test_right_prime() {
    let output = [
              /*Top*/
              Y, Y, G,
              Y, Y, G,
              Y, Y, G,
    /*Left    Front     Right     Back*/
    O, O, O,  B, B, Y,  R, R, R,  W, G, G,
    O, O, O,  B, B, Y,  R, R, R,  W, G, G,
    O, O, O,  B, B, Y,  R, R, R,  W, G, G,
              /*Bottom*/
              W, W, B,
              W, W, B,
              W, W, B,
    ];
    test_move(Move::RP, output);
}

#[test]
fn right_turn_matches_documented_layout_and_reverses() {
    // From the solved cube, one R turn moves the former front-face right
    // column onto the top face's right column.
    let output = [
                  /*Top*/
                  Y, Y, B,
                  Y, Y, B,
                  Y, Y, B,
        /*Left    Front     Right     Back*/
        O, O, O,  B, B, W,  R, R, R,  Y, G, G,
        O, O, O,  B, B, W,  R, R, R,  Y, G, G,
        O, O, O,  B, B, W,  R, R, R,  Y, G, G,
                  /*Bottom*/
                  W, W, G,
                  W, W, G,
                  W, W, G,
    ];
    let mut cube = Cube::solved();
    cube.make_move(Move::R);
    assert!(cube == cube_from_net(output));
    cube.make_move(Move::RP);
    assert!(cube == Cube::solved());
}

#[test]
fn double_turns_match_regression_fixture_and_cycle_back() {
    let output = [
                  /*Top*/
                  Y, W, Y,
                  W, Y, W,
                  Y, W, Y,
        /*Left    Front     Right     Back*/
        R, O, R,  G, B, G,  O, R, O,  B, G, B,
        R, O, R,  G, B, G,  O, R, O,  B, G, B,
        R, O, R,  G, B, G,  O, R, O,  B, G, B,
                  /*Bottom*/
                  W, Y, W,
                  Y, W, Y,
                  W, Y, W,
    ];
    let sequence = [
        Move::R,
        Move::R,
        Move::L,
        Move::L,
        Move::F,
        Move::F,
        Move::B,
        Move::B,
    ];
    let mut cube = Cube::solved();
    for m in sequence {
        cube.make_move(m);
    }
    assert!(cube == cube_from_net(output));
    // Each move has order four and each appears twice, so repeating the
    // eight moves returns to the solved cube.
    for m in sequence {
        cube.make_move(m);
    }
    assert!(cube == Cube::solved());
}
