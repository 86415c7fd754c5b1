use evaluator::question::Players;
use evaluator::sampling::{
    candidates, choose_from_game, choose_positions, complete_record, cut_records,
    distinct_positions, draw_positions, enough_officers, picks_of, Game, Officers, Pick,
    MINIMUM_OFFICERS, START_FROM_INDEX,
};
use evaluator::visitor::PositionsVisitor;
use rand::rngs::SmallRng;
use rand::SeedableRng;
use shakmaty::fen::Fen;
use shakmaty::san::SanPlus;
use shakmaty::{CastlingMode, Chess};

const SPANISH: [&str; 20] = [
    "e4", "e5", "Nf3", "Nc6", "Bb5", "a6", "Ba4", "Nf6", "O-O", "Be7", "Re1", "b5", "Bb3", "d6",
    "c3", "O-O", "h3", "Nb8", "d4", "Nbd7",
];

fn played(moves: &[&str]) -> Vec<Chess> {
    let mut visitor = PositionsVisitor::new();
    for m in moves {
        visitor.san(&SanPlus::from_ascii(m.as_bytes()).unwrap());
    }
    visitor.end_game().unwrap().0
}

fn repeated(fen: &str, times: usize) -> Vec<Chess> {
    let position: Chess = Fen::from_ascii(fen.as_bytes())
        .unwrap()
        .into_position(CastlingMode::Standard)
        .unwrap();
    vec![position; times]
}

fn game(positions: Vec<Chess>) -> Game {
    Game { positions, players: Players::default(), pgn: String::new() }
}

#[test]
fn the_rules_of_choice_are_fixed() {
    assert_eq!(START_FROM_INDEX, 7 * 2 + 1);
    assert_eq!(MINIMUM_OFFICERS, 4);
}

#[test]
fn officers_are_counted_together() {
    let few = Officers { rooks_and_queens: 1, knights: 0, bishops: 0, kings: 2 };
    assert!(!enough_officers(&few));
    let enough = Officers { rooks_and_queens: 1, knights: 1, bishops: 0, kings: 2 };
    assert!(enough_officers(&enough));
    let many = Officers { rooks_and_queens: 64, knights: 64, bishops: 64, kings: 64 };
    assert!(enough_officers(&many));
}

#[test]
fn candidates_start_after_seven_moves() {
    assert_eq!(candidates(&played(&SPANISH)), vec![15, 16, 17, 18, 19, 20]);
    assert_eq!(candidates(&played(&SPANISH[..15])), vec![15]);
    assert_eq!(candidates(&played(&SPANISH[..14])), Vec::<usize>::new());
    assert_eq!(candidates(&Vec::new()), Vec::<usize>::new());
}

#[test]
fn candidates_need_officers_on_the_board() {
    let bare = repeated("8/P6k/8/8/8/8/8/K7 w - - 0 1", 20);
    assert_eq!(candidates(&bare), Vec::<usize>::new());
    let three = repeated("8/P6k/8/8/8/8/8/KR6 w - - 0 1", 20);
    assert_eq!(candidates(&three), Vec::<usize>::new());
    let four = repeated("7k/7r/8/8/8/8/8/KR6 w - - 0 1", 18);
    assert_eq!(candidates(&four), vec![15, 16, 17]);
}

#[test]
fn two_positions_are_drawn_from_each_game_that_has_one() {
    let games = vec![
        game(played(&SPANISH)),
        game(played(&SPANISH[..6])),
        game(repeated("8/P6k/8/8/8/8/8/K7 w - - 0 1", 30)),
        game(played(&SPANISH[..15])),
    ];
    let mut seen = std::collections::HashSet::new();
    for seed in 0..50 {
        let mut generator = SmallRng::seed_from_u64(seed);
        let picks = draw_positions(&mut generator, &games);
        seen.insert(picks[0].turn_number);
        seen.insert(picks[1].turn_number);
        assert_eq!(picks.len(), 4);
        assert_eq!(picks[0].game, 0);
        assert_eq!(picks[1].game, 0);
        assert!((15..=20).contains(&picks[0].turn_number));
        assert!((15..=20).contains(&picks[1].turn_number));
        assert_eq!(picks[2], Pick { game: 3, turn_number: 15 });
        assert_eq!(picks[3], Pick { game: 3, turn_number: 15 });
    }
    assert!(seen.len() > 1);
}

#[test]
fn no_games_give_no_positions() {
    let mut generator = SmallRng::seed_from_u64(1);
    assert_eq!(draw_positions(&mut generator, &Vec::new()), Vec::<Pick>::new());
    assert_eq!(choose_positions(&mut generator, &Vec::new()), Vec::<Pick>::new());
    assert_eq!(
        choose_positions(&mut generator, &vec![game(played(&SPANISH[..3]))]),
        Vec::<Pick>::new()
    );
}

#[test]
fn a_cut_record_gets_its_bracket_back() {
    assert_eq!(complete_record("Event \"x\"]\n\n1. e4 *".to_string()), "[Event \"x\"]\n\n1. e4 *");
    assert_eq!(complete_record("[Event \"x\"]\n\n1. e4 *".to_string()), "[Event \"x\"]\n\n1. e4 *");
    assert_eq!(complete_record(String::new()), "[");
}

#[test]
fn two_draws_make_two_picks() {
    let found = vec![15, 17, 20];
    assert_eq!(
        picks_of(4, &found, 2, 0),
        vec![Pick { game: 4, turn_number: 20 }, Pick { game: 4, turn_number: 15 }]
    );
    assert_eq!(
        picks_of(0, &found, 1, 1),
        vec![Pick { game: 0, turn_number: 17 }, Pick { game: 0, turn_number: 17 }]
    );
}

#[test]
fn one_game_gives_two_picks_or_none() {
    let mut generator = SmallRng::seed_from_u64(3);
    let picks = choose_from_game(&mut generator, 7, &played(&SPANISH));
    assert_eq!(picks.len(), 2);
    for pick in &picks {
        assert_eq!(pick.game, 7);
        assert!((15..=20).contains(&pick.turn_number));
    }
    assert_eq!(choose_from_game(&mut generator, 7, &played(&SPANISH[..5])), Vec::<Pick>::new());
}

#[test]
fn equal_positions_are_kept_once() {
    let games = vec![game(played(&SPANISH)), game(played(&SPANISH[..15]))];
    let picks = vec![
        Pick { game: 0, turn_number: 15 },
        Pick { game: 0, turn_number: 16 },
        Pick { game: 0, turn_number: 15 },
        Pick { game: 1, turn_number: 15 },
        Pick { game: 0, turn_number: 17 },
        Pick { game: 1, turn_number: 3 },
        Pick { game: 0, turn_number: 3 },
    ];
    assert_eq!(
        distinct_positions(&games, &picks),
        vec![
            Pick { game: 0, turn_number: 15 },
            Pick { game: 0, turn_number: 16 },
            Pick { game: 0, turn_number: 17 },
            Pick { game: 1, turn_number: 3 },
        ]
    );
    assert_eq!(distinct_positions(&games, &Vec::new()), Vec::<Pick>::new());
}

#[test]
fn no_two_chosen_positions_are_equal() {
    let games = vec![
        game(played(&SPANISH)),
        game(played(&SPANISH[..6])),
        game(played(&SPANISH[..16])),
        game(played(&SPANISH[..15])),
        game(played(&SPANISH)),
    ];
    let mut fewer = false;
    for seed in 0..200 {
        let mut generator = SmallRng::seed_from_u64(seed);
        let picks = choose_positions(&mut generator, &games);
        assert!(!picks.is_empty());
        assert!(picks.len() <= 8);
        fewer = fewer || picks.len() < 8;
        for (a, first) in picks.iter().enumerate() {
            assert!((15..games[first.game].positions.len()).contains(&first.turn_number));
            assert!(picks.iter().filter(|p| p.game == first.game).count() <= 2);
            for second in &picks[a + 1..] {
                assert!(first.game <= second.game);
                assert!(
                    games[first.game].positions[first.turn_number]
                        != games[second.game].positions[second.turn_number]
                );
            }
        }
    }
    assert!(fewer);
}

#[test]
fn a_file_is_cut_where_a_blank_line_is_followed_by_a_bracket() {
    let texts = [
        "",
        "[Event \"a\"]\n\n1. e4 e5 *",
        "[Event \"a\"]\n\n1. e4 e5 *\n\n[Event \"b\"]\n\n1. d4 *\n\n[Event \"c\"]\n\n*\n",
        "\n\n[",
        "\n\n[\n\n[",
        "a\n\n\n[b\n\n[",
        "\n\n",
        "[White \"Kejžar\"]\n\n1. e4 *\n\n[White \"Größe\"]\n\n1. d4 *",
        "x\n[\n\nx[",
    ];
    for text in texts {
        let expected: Vec<String> = text.split("\n\n[").map(String::from).collect();
        assert_eq!(cut_records(text), expected);
    }
    assert_eq!(
        cut_records("[A]\n\n1. e4 *\n\n[B]\n\n1. d4 *"),
        vec!["[A]\n\n1. e4 *".to_string(), "B]\n\n1. d4 *".to_string()]
    );
}
