use evaluator::aggregator::EvaluationResult;
use evaluator::notation::{BoardMove, Role, Square};
use evaluator::question::{
    convert_variations, keep_for_training, role_char, side_relative, Color, Move, MoveError, Moves,
    Players, Question, CUTOFF,
};
use evaluator::variation::RawVariation;

const START: &str = "rnbqkbnr/pppppppp/8/8/8/8/PPPPPPPP/RNBQKBNR w KQkq - 0 1";
const AFTER_E4: &str = "rnbqkbnr/pppppppp/8/8/4P3/8/PPPP1PPP/RNBQKBNR b KQkq - 0 1";

fn board(text: &str) -> BoardMove {
    let c: Vec<char> = text.chars().collect();
    BoardMove {
        from: Square { file: c[0] as u8 - b'a', rank: c[1] as u8 - b'1' },
        to: Square { file: c[2] as u8 - b'a', rank: c[3] as u8 - b'1' },
        promotion: None,
    }
}

fn scored(rank: u16, cp: i32, first: &str) -> RawVariation {
    RawVariation {
        evaluated_as_mate: false,
        variation_number: rank,
        cp,
        uci_move: Some(board(first)),
    }
}

fn mate(rank: u16) -> RawVariation {
    RawVariation { evaluated_as_mate: true, variation_number: rank, cp: 0, uci_move: None }
}

fn san(text: &str, evaluation: i64) -> Move {
    Move { move_: text.to_string(), evaluation }
}

#[test]
fn test_serializable_san() {
    let m = Move::from_variation(&scored(1, 0, "b1c3"), START).unwrap();
    assert_eq!(serde_json::to_string(&m.move_).unwrap(), r#""Nc3""#);
}

#[test]
fn a_negative_score_with_black_to_move_is_a_positive_evaluation() {
    assert_eq!(side_relative(-150, Color::Black), 150);
    let m = Move::from_variation(&scored(1, -150, "e7e5"), AFTER_E4).unwrap();
    assert_eq!(m.move_, "e5");
    assert_eq!(m.evaluation, 150);
    assert_eq!(m.evaluation as f32 / 100.0, 1.5);
}

#[test]
fn a_score_with_white_to_move_is_kept() {
    assert_eq!(side_relative(-150, Color::White), -150);
    assert_eq!(side_relative(35, Color::White), 35);
    assert_eq!(side_relative(35, Color::Black), -35);
    let m = Move::from_variation(&scored(1, 35, "e2e4"), START).unwrap();
    assert_eq!(m, san("e4", 35));
}

#[test]
fn the_extremes_of_a_score_do_not_overflow() {
    assert_eq!(side_relative(i32::MIN, Color::Black), 2147483648);
    assert_eq!(side_relative(i32::MAX, Color::Black), -2147483647);
    assert_eq!(side_relative(i32::MIN, Color::White), -2147483648);
}

#[test]
fn assemble_puts_the_parts_together() {
    assert_eq!(Move::assemble("Qxf7#".to_string(), -20, Color::Black), san("Qxf7#", 20));
}

#[test]
fn a_board_string_that_is_no_position_is_an_error() {
    let v = scored(1, 10, "e2e4");
    assert_eq!(Move::from_variation(&v, "not a board"), Err(MoveError::Position));
    assert_eq!(Move::from_variation(&v, ""), Err(MoveError::Position));
    assert_eq!(
        Move::from_variation(&v, "8/8/8/8/8/8/8/8 w - - 0 1"),
        Err(MoveError::Position)
    );
}

#[test]
fn a_move_that_is_not_legal_is_an_error() {
    assert_eq!(Move::from_variation(&scored(1, 10, "e2e5"), START), Err(MoveError::IllegalMove));
    assert_eq!(Move::from_variation(&scored(1, 10, "e7e5"), START), Err(MoveError::IllegalMove));
    assert_eq!(Move::from_variation(&mate(1), START), Err(MoveError::IllegalMove));
    let off_board = RawVariation {
        evaluated_as_mate: false,
        variation_number: 1,
        cp: 10,
        uci_move: Some(BoardMove {
            from: Square { file: 8, rank: 1 },
            to: Square { file: 4, rank: 3 },
            promotion: None,
        }),
    };
    assert_eq!(Move::from_variation(&off_board, START), Err(MoveError::IllegalMove));
}

#[test]
fn a_promotion_is_written_with_its_piece() {
    let fen = "8/P6k/8/8/8/8/8/K7 w - - 0 1";
    let v = RawVariation {
        evaluated_as_mate: false,
        variation_number: 1,
        cp: 900,
        uci_move: Some(BoardMove {
            from: Square { file: 0, rank: 6 },
            to: Square { file: 0, rank: 7 },
            promotion: Some(Role::Queen),
        }),
    };
    assert_eq!(Move::from_variation(&v, fen), Ok(san("a8=Q", 900)));
    assert_eq!(role_char(Role::Queen), 'q');
    assert_eq!(role_char(Role::Knight), 'n');
    assert_eq!(role_char(Role::Rook), 'r');
    assert_eq!(role_char(Role::Bishop), 'b');
    assert_eq!(role_char(Role::King), 'k');
    assert_eq!(role_char(Role::Pawn), 'p');
}

#[test]
fn results_with_a_mate_or_a_lopsided_score_are_not_kept() {
    assert_eq!(CUTOFF, 2000);
    let fine = EvaluationResult {
        slots: vec![Some(scored(1, 2000, "e2e4")), None, Some(scored(3, -2000, "d2d4"))],
    };
    assert!(keep_for_training(&fine));
    let high = EvaluationResult { slots: vec![Some(scored(1, 10, "e2e4")), Some(scored(2, 2001, "d2d4"))] };
    assert!(!keep_for_training(&high));
    let low = EvaluationResult { slots: vec![None, None, Some(scored(3, -2001, "d2d4"))] };
    assert!(!keep_for_training(&low));
    let lowest = EvaluationResult { slots: vec![Some(scored(1, i32::MIN, "d2d4"))] };
    assert!(!keep_for_training(&lowest));
    let mated = EvaluationResult { slots: vec![Some(scored(1, 10, "e2e4")), Some(mate(2))] };
    assert!(!keep_for_training(&mated));
    assert!(keep_for_training(&EvaluationResult { slots: vec![None, None, None] }));
    assert!(keep_for_training(&EvaluationResult { slots: Vec::new() }));
}

#[test]
fn a_result_becomes_the_moves_of_a_row() {
    let result = EvaluationResult {
        slots: vec![
            Some(scored(1, 38, "e2e4")),
            Some(scored(2, 31, "d2d4")),
            Some(scored(3, 25, "g1f3")),
        ],
    };
    assert_eq!(
        convert_variations(START, &result),
        Ok(Some(Moves {
            one: san("e4", 38),
            two: Some(san("d4", 31)),
            three: Some(san("Nf3", 25)),
        }))
    );
    let sparse = EvaluationResult { slots: vec![Some(scored(1, -38, "e7e5")), None] };
    assert_eq!(
        convert_variations(AFTER_E4, &sparse),
        Ok(Some(Moves { one: san("e5", 38), two: None, three: None }))
    );
}

#[test]
fn a_result_to_skip_becomes_no_row() {
    let empty_first = EvaluationResult { slots: vec![None, Some(scored(2, 31, "d2d4")), None] };
    assert_eq!(convert_variations(START, &empty_first), Ok(None));
    let nothing = EvaluationResult { slots: vec![None, None, None] };
    assert_eq!(convert_variations(START, &nothing), Ok(None));
    assert_eq!(convert_variations(START, &EvaluationResult { slots: Vec::new() }), Ok(None));
    let mated = EvaluationResult { slots: vec![Some(mate(1)), None, None] };
    assert_eq!(convert_variations(START, &mated), Ok(None));
    let lopsided = EvaluationResult { slots: vec![Some(scored(1, 2500, "e2e4")), None, None] };
    assert_eq!(convert_variations(START, &lopsided), Ok(None));
    assert_eq!(convert_variations("not a board", &lopsided), Ok(None));
}

#[test]
fn a_result_that_cannot_be_converted_is_an_error() {
    let result = EvaluationResult {
        slots: vec![Some(scored(1, 38, "e2e4")), Some(scored(2, 31, "d2d5")), None],
    };
    assert_eq!(convert_variations(START, &result), Err(MoveError::IllegalMove));
    assert_eq!(convert_variations("not a board", &result), Err(MoveError::Position));
    let third = EvaluationResult {
        slots: vec![Some(scored(1, 38, "e2e4")), None, Some(scored(3, 1, "a1a8"))],
    };
    assert_eq!(convert_variations(START, &third), Err(MoveError::IllegalMove));
}

#[test]
fn players_start_without_names() {
    let players = Players::default();
    assert_eq!(players, Players { white: String::new(), black: String::new() });
}

#[test]
fn a_row_holds_what_it_was_given() {
    let row = Question {
        fen: START.to_string(),
        players: Players { white: "A".to_string(), black: "B".to_string() },
        moves: Moves { one: san("e4", 38), two: None, three: None },
        pgn: "[White \"A\"]".to_string(),
        turn_number: 15,
    };
    assert_eq!(row.clone(), row);
    assert_eq!(row.players.white, "A");
    assert_eq!(row.turn_number, 15);
}
