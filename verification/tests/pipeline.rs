use evaluator::codec::encode;
use evaluator::notation::EngineError;
use evaluator::pipeline::{Action, Batch};
use evaluator::stockfish::Stockfish;

const START: &str = "rnbqkbnr/pppppppp/8/8/8/8/PPPPPPPP/RNBQKBNR w KQkq - 0 1";
const AFTER_E4: &str = "rnbqkbnr/pppppppp/8/8/4P3/8/PPPP1PPP/RNBQKBNR b KQkq - 0 1";
const AFTER_E4_E5: &str = "rnbqkbnr/pppp1ppp/8/4p3/4P3/8/PPPP1PPP/RNBQKBNR w KQkq - 0 2";

fn sent(action: Action) -> Vec<String> {
    match action {
        Action::Send(commands) => commands.iter().map(encode).collect(),
        other => panic!("not a send: {:?}", other),
    }
}

#[test]
fn results_come_in_the_order_of_the_positions() {
    let positions = vec![START.to_string(), AFTER_E4.to_string(), AFTER_E4_E5.to_string()];
    let mut batch = Batch::new(Stockfish::new(10), positions.clone());
    let responses: [&[&str]; 3] = [
        &[
            "info depth 1 seldepth 1 multipv 1 score cp 1 pv a2a3",
            "info depth 2 seldepth 2 multipv 1 score cp 11 pv e2e4",
            "info depth 2 seldepth 2 multipv 2 score cp 10 pv d2d4",
            "info depth 2 seldepth 2 multipv 3 score cp 9 pv g1f3",
            "bestmove e2e4",
        ],
        &["bestmove e7e5"],
        &[
            "info depth 2 seldepth 2 multipv 1 score cp 33 pv g1f3",
            "info depth 2 currmove g1f3 currmovenumber 1",
            "info depth 3 seldepth 4 multipv 1 score cp 31 pv g1f3",
            "info depth 3 seldepth 4 multipv 2 score cp 30 pv b1c3",
            "info depth 3 seldepth 4 multipv 3 score cp 29 pv f1c4",
            "info depth 4 seldepth 4 multipv 1 score cp 32 pv g1f3",
            "bestmove g1f3 ponder b8c6",
        ],
    ];
    for (i, response) in responses.iter().enumerate() {
        assert_eq!(batch.completed(), i);
        assert_eq!(
            sent(batch.next_action()),
            vec![format!("position fen {}\n", positions[i]), "go depth 10 \n".to_string()]
        );
        for line in response.iter() {
            assert_eq!(batch.next_action(), Action::Read);
            batch.on_line(Some(line));
        }
    }
    assert_eq!(batch.next_action(), Action::Finish);
    assert_eq!(batch.failure(), None);
    let results = batch.into_results().unwrap();
    assert_eq!(results.len(), 3);
    let scores: Vec<Vec<Option<i32>>> = results
        .iter()
        .map(|r| r.slots.iter().map(|s| s.map(|v| v.cp)).collect())
        .collect();
    assert_eq!(
        scores,
        vec![
            vec![Some(11), Some(10), Some(9)],
            vec![None, None, None],
            vec![Some(32), Some(30), Some(29)],
        ]
    );
}

#[test]
fn an_empty_batch_is_finished_at_once() {
    let mut batch = Batch::new(Stockfish::new(10), Vec::new());
    assert_eq!(batch.next_action(), Action::Finish);
    assert_eq!(batch.into_results(), Some(Vec::new()));
}

#[test]
fn a_closed_stream_aborts_the_rest_of_the_batch() {
    let positions = vec![START.to_string(), AFTER_E4.to_string(), AFTER_E4_E5.to_string()];
    let mut batch = Batch::new(Stockfish::new(10), positions);
    sent(batch.next_action());
    batch.on_line(Some("info depth 2 seldepth 2 multipv 1 score cp 11 pv e2e4"));
    batch.on_line(Some("bestmove e2e4"));
    sent(batch.next_action());
    batch.on_line(Some("info depth 2 seldepth 2 multipv 1 score cp -11 pv e7e5"));
    batch.on_line(None);
    assert_eq!(batch.failure(), Some(EngineError::EngineStreamClosed));
    assert_eq!(batch.completed(), 1);
    assert_eq!(batch.next_action(), Action::Abort(EngineError::EngineStreamClosed));
    batch.on_line(Some("bestmove e7e5"));
    assert_eq!(batch.next_action(), Action::Abort(EngineError::EngineStreamClosed));
    assert_eq!(batch.completed(), 1);
    assert_eq!(batch.into_results(), None);
}

#[test]
fn an_unfinished_batch_has_no_results_to_give() {
    let positions = vec![START.to_string(), AFTER_E4.to_string()];
    let mut batch = Batch::new(Stockfish::new(10), positions);
    sent(batch.next_action());
    batch.on_line(Some("bestmove e2e4"));
    assert_eq!(batch.completed(), 1);
    assert_eq!(batch.into_results(), None);
}

#[test]
fn no_request_is_sent_while_one_is_in_flight() {
    let positions = vec![START.to_string(), AFTER_E4.to_string()];
    let mut batch = Batch::new(Stockfish::new(10), positions);
    sent(batch.next_action());
    assert_eq!(batch.next_action(), Action::Read);
    assert_eq!(batch.next_action(), Action::Read);
    batch.on_line(Some("info depth 2 seldepth 2 multipv 1 score cp 11 pv e2e4"));
    assert_eq!(batch.next_action(), Action::Read);
    batch.on_line(Some("bestmove e2e4"));
    assert_eq!(sent(batch.next_action())[0], format!("position fen {}\n", AFTER_E4));
}

#[test]
fn shutdown_ends_the_batch_with_the_quit_command() {
    let positions = vec![START.to_string(), AFTER_E4.to_string()];
    let mut batch = Batch::new(Stockfish::new(10), positions);
    sent(batch.next_action());
    batch.on_line(Some("bestmove e2e4"));
    assert_eq!(encode(&batch.shutdown()), "quit\n");
    assert_eq!(batch.next_action(), Action::Abort(EngineError::EngineStreamClosed));
    assert_eq!(batch.completed(), 1);
}
