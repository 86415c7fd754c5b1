//! Choosing the positions of a game that become training rows.
//!
//! A position can be chosen from the seventh full move on, and only while
//! enough officers are on the board. Which of those are chosen is left to
//! chance: `rand` draws, and `shakmaty` counts the pieces.

use vstd::prelude::*;
use vstd::string::*;
use rand::distributions::{Distribution, Uniform};
use rand::rngs::SmallRng;
use shakmaty::{Chess, Position};
use crate::codec::char_at;
use crate::pipeline::texts_of;
use crate::question::Players;

verus! {

#[verifier::external_type_specification]
#[verifier::external_body]
pub struct ExSmallRng(SmallRng);

/// The place in a game of the first position that can be chosen: the one
/// after seven full moves.
pub const START_FROM_INDEX: usize = 15;

/// The number of officers that must be on the board.
pub const MINIMUM_OFFICERS: usize = 4;

/// The pieces of a position other than its pawns, both sides together.
#[derive(Clone, Copy, PartialEq, Eq, Structural, Debug)]
pub struct Officers {
    pub rooks_and_queens: usize,
    pub knights: usize,
    pub bishops: usize,
    pub kings: usize,
}

/// A game: its positions from the first to the last, who played it, and its
/// record.
pub struct Game {
    pub positions: Vec<Chess>,
    pub players: Players,
    pub pgn: String,
}

/// A chosen position: the place of its game in the list and its own place
/// in the game.
#[derive(Clone, Copy, PartialEq, Eq, Structural, Debug)]
pub struct Pick {
    pub game: usize,
    pub turn_number: usize,
}

/// What `shakmaty`'s board counts for a position.
pub uninterp spec fn officers(position: Chess) -> Officers;

/// Whether `shakmaty`'s `==` holds two positions to be one and the same.
pub uninterp spec fn same_position(a: Chess, b: Chess) -> bool;

/// The number of officers on the board.
pub open spec fn total(o: Officers) -> int {
    o.rooks_and_queens + o.knights + o.bishops + o.kings
}

/// The position at place `i` of a game can be chosen.
pub open spec fn candidate(positions: Seq<Chess>, i: int) -> bool {
    START_FROM_INDEX <= i < positions.len() && total(officers(positions[i])) >= MINIMUM_OFFICERS
}

/// A game has a position that can be chosen.
pub open spec fn has_candidate(positions: Seq<Chess>) -> bool {
    exists|i: int| candidate(positions, i)
}

/// Counts the squares of four of `shakmaty`'s bitboards: rooks and queens,
/// knights, bishops, kings. The contract names the counts.
#[verifier::external_body]
fn count_officers(position: &Chess) -> (o: Officers)
    ensures
        o == officers(*position),
{
    let board = position.board();
    Officers {
        rooks_and_queens: board.rooks_and_queens().count(),
        knights: board.knights().count(),
        bishops: board.bishops().count(),
        kings: board.kings().count(),
    }
}

/// Compares two positions with `shakmaty`'s `==` for `Chess`. The contract
/// names the answer.
#[verifier::external_body]
fn positions_equal(a: &Chess, b: &Chess) -> (same: bool)
    ensures
        same == same_position(*a, *b),
{
    a == b
}

/// Samples `rand`'s `Uniform::new(low, high)` once. The contract says that
/// the number lies in the half-open range, and leaves out the empty range,
/// on which `Uniform::new` panics.
#[verifier::external_body]
fn draw(generator: &mut SmallRng, low: usize, high: usize) -> (i: usize)
    requires
        low < high,
    ensures
        low <= i < high,
{
    Uniform::new(low, high).sample(generator)
}

/// Tests whether enough officers are on the board.
pub fn enough_officers(o: &Officers) -> (enough: bool)
    ensures
        enough == (total(*o) >= MINIMUM_OFFICERS),
{
    let sum: u128 = o.rooks_and_queens as u128 + o.knights as u128 + o.bishops as u128
        + o.kings as u128;
    sum >= MINIMUM_OFFICERS as u128
}

/// A record ends at `i`: two ends of line and the bracket that opens the
/// next record stand there.
pub open spec fn separator_at(s: Seq<char>, i: int) -> bool {
    0 <= i && i + 3 <= s.len() && s[i] == '\n' && s[i + 1] == '\n' && s[i + 2] == '['
}

/// The records of the text from `from` on, with the text up to `i` already
/// searched for the end of the record that begins at `from`.
pub open spec fn records_from(s: Seq<char>, from: int, i: int) -> Seq<Seq<char>>
    decreases s.len() - i,
{
    if i >= s.len() {
        seq![s.subrange(from, s.len() as int)]
    } else if separator_at(s, i) {
        seq![s.subrange(from, i)] + records_from(s, i + 3, i + 3)
    } else {
        records_from(s, from, i + 1)
    }
}

/// The records of a text: the pieces between the places where two ends of
/// line are followed by an opening bracket, from left to right. The two ends
/// of line and the bracket belong to no record.
pub open spec fn records_of(s: Seq<char>) -> Seq<Seq<char>> {
    records_from(s, 0, 0)
}

/// The piece of the text between two places.
fn piece(text: &str, ascii: bool, from: usize, to: usize) -> (r: String)
    requires
        from <= to <= text@.len(),
        ascii ==> is_ascii(text),
    ensures
        r@ == text@.subrange(from as int, to as int),
{
    if ascii {
        String::from_str(text.substring_ascii(from, to))
    } else {
        String::from_str(text.substring_char(from, to))
    }
}

/// Cuts the text of a file of games into the records of its games. A text
/// that is not ASCII throughout is walked character by character.
pub fn cut_records(text: &str) -> (records: Vec<String>)
    ensures
        texts_of(records@) == records_of(text@),
{
    let n = text.unicode_len();
    let ascii = text.is_ascii();
    let mut records: Vec<String> = Vec::new();
    let mut from: usize = 0;
    let mut i: usize = 0;
    proof {
        assert(texts_of(records@) + records_from(text@, 0, 0) =~= records_of(text@));
    }
    while i < n
        invariant
            from <= i <= n,
            n == text@.len(),
            ascii ==> is_ascii(text),
            records_of(text@) == texts_of(records@) + records_from(text@, from as int, i as int),
        decreases n - i,
    {
        if n - i >= 3 && char_at(text, ascii, i) == '\n' && char_at(text, ascii, i + 1) == '\n'
            && char_at(text, ascii, i + 2) == '[' {
            let ghost before = texts_of(records@);
            let cut = piece(text, ascii, from, i);
            records.push(cut);
            proof {
                assert(separator_at(text@, i as int));
                assert(texts_of(records@) =~= before + seq![text@.subrange(from as int, i as int)]);
                assert(before + (seq![text@.subrange(from as int, i as int)] + records_from(
                    text@,
                    i + 3,
                    i + 3,
                )) =~= texts_of(records@) + records_from(text@, i + 3, i + 3));
            }
            from = i + 3;
            i = i + 3;
        } else {
            proof {
                assert(!separator_at(text@, i as int));
            }
            i += 1;
        }
    }
    let ghost before = texts_of(records@);
    let last = piece(text, ascii, from, n);
    records.push(last);
    proof {
        assert(texts_of(records@) =~= before + seq![text@.subrange(from as int, n as int)]);
    }
    records
}

/// The record of a game as it stood in its file, where the records were cut
/// apart before the bracket that opens each but the first.
pub open spec fn whole_record(cut: Seq<char>) -> Seq<char> {
    if cut.len() > 0 && cut[0] == '[' {
        cut
    } else {
        seq!['['] + cut
    }
}

/// Gives a record that was cut out of its file its opening bracket back.
pub fn complete_record(cut: String) -> (pgn: String)
    ensures
        pgn@ == whole_record(cut@),
{
    let text = cut.as_str();
    if text.unicode_len() > 0 && text.get_char(0) == '[' {
        cut
    } else {
        proof {
            reveal_strlit("[");
            assert("["@ =~= seq!['[']);
        }
        String::from_str("[").concat(cut.as_str())
    }
}

/// The places of the positions of a game that can be chosen, in ascending
/// order.
pub fn candidates(positions: &Vec<Chess>) -> (found: Vec<usize>)
    ensures
        forall|k: int| 0 <= k < found.len() ==> candidate(positions@, #[trigger] found[k] as int),
        forall|i: int| candidate(positions@, i) ==> found@.contains(i as usize),
        forall|a: int, b: int| 0 <= a < b < found.len() ==> found[a] < found[b],
{
    let mut found: Vec<usize> = Vec::new();
    let mut i: usize = START_FROM_INDEX;
    while i < positions.len()
        invariant
            START_FROM_INDEX <= i,
            forall|k: int|
                0 <= k < found.len() ==> candidate(positions@, #[trigger] found[k] as int)
                    && found[k] < i,
            forall|j: int| j < i && candidate(positions@, j) ==> found@.contains(j as usize),
            forall|a: int, b: int| 0 <= a < b < found.len() ==> found[a] < found[b],
        decreases positions.len() - i,
    {
        let o = count_officers(&positions[i]);
        if enough_officers(&o) {
            let ghost before = found@;
            found.push(i);
            assert forall|j: int| j < i + 1 && candidate(positions@, j) implies found@.contains(
                j as usize,
            ) by {
                if j < i {
                    let k = choose|k: int| 0 <= k < before.len() && before[k] == j as usize;
                    assert(found@[k] == j as usize);
                } else {
                    assert(found@[found.len() - 1] == j as usize);
                }
            }
        }
        i += 1;
    }
    found
}

/// The two picks of a game that two draws make: each draw is a place in the
/// list of the positions that can be chosen.
pub fn picks_of(game: usize, found: &Vec<usize>, first: usize, second: usize) -> (picks: Vec<
    Pick,
>)
    requires
        first < found.len(),
        second < found.len(),
    ensures
        picks@ == seq![
            Pick { game, turn_number: found[first as int] },
            Pick { game, turn_number: found[second as int] },
        ],
{
    let mut picks: Vec<Pick> = Vec::new();
    picks.push(Pick { game, turn_number: found[first] });
    picks.push(Pick { game, turn_number: found[second] });
    assert(picks@ =~= seq![
        Pick { game, turn_number: found[first as int] },
        Pick { game, turn_number: found[second as int] },
    ]);
    picks
}

/// Chooses two of the positions of one game that can be chosen, each by a
/// draw of its own, so that the two may be one and the same. A game without
/// such a position gives none.
pub fn choose_from_game(generator: &mut SmallRng, game: usize, positions: &Vec<Chess>) -> (picks:
    Vec<Pick>)
    ensures
        has_candidate(positions@) ==> picks.len() == 2,
        !has_candidate(positions@) ==> picks.len() == 0,
        forall|k: int|
            0 <= k < picks.len() ==> (#[trigger] picks[k]).game == game && candidate(
                positions@,
                picks[k].turn_number as int,
            ),
{
    let found = candidates(positions);
    if found.len() > 0 {
        assert(candidate(positions@, found[0] as int));
        let first = draw(generator, 0, found.len());
        let second = draw(generator, 0, found.len());
        picks_of(game, &found, first, second)
    } else {
        assert forall|i: int| !candidate(positions@, i) by {
            if candidate(positions@, i) {
                assert(found@.contains(i as usize));
            }
        }
        Vec::new()
    }
}

/// The number of games among the first `upto` that have a position to
/// choose.
pub open spec fn playable(games: Seq<Game>, upto: int) -> nat
    decreases upto,
{
    if upto <= 0 {
        0
    } else {
        playable(games, upto - 1) + if has_candidate(games[upto - 1].positions@) {
            1nat
        } else {
            0nat
        }
    }
}

/// The pick names a position of one of the games.
pub open spec fn in_range(games: Seq<Game>, p: Pick) -> bool {
    p.game < games.len() && p.turn_number < games[p.game as int].positions@.len()
}

/// The position that a pick names.
pub open spec fn position_at(games: Seq<Game>, p: Pick) -> Chess {
    games[p.game as int].positions@[p.turn_number as int]
}

/// The picks stand in the order of their games.
pub open spec fn in_game_order(picks: Seq<Pick>) -> bool {
    forall|a: int, b: int|
        #![trigger picks[a], picks[b]]
        0 <= a <= b < picks.len() ==> picks[a].game <= picks[b].game
}

/// No game has more than two picks, given that the picks stand in the
/// order of their games: a pick and the next but one are of different games.
pub open spec fn two_per_game(picks: Seq<Pick>) -> bool {
    forall|a: int, b: int|
        #![trigger picks[a], picks[b]]
        0 <= a && a + 2 <= b < picks.len() ==> picks[a].game < picks[b].game
}

/// One of the picks names a position equal to the one that `p` names.
pub open spec fn seen(games: Seq<Game>, kept: Seq<Pick>, p: Pick) -> bool {
    exists|k: int|
        0 <= k < kept.len() && same_position(
            position_at(games, #[trigger] kept[k]),
            position_at(games, p),
        )
}

/// The picks without those that name a position equal to that of an earlier
/// pick that was kept.
pub open spec fn distinct(games: Seq<Game>, picks: Seq<Pick>) -> Seq<Pick>
    decreases picks.len(),
{
    if picks.len() == 0 {
        Seq::empty()
    } else {
        let before = distinct(games, picks.drop_last());
        if seen(games, before, picks.last()) {
            before
        } else {
            before.push(picks.last())
        }
    }
}

/// A fair drawing from the games: two picks for each game that has a
/// position to choose and none for any other, each pick a position that can
/// be chosen, the picks in the order of their games.
pub open spec fn is_drawing(games: Seq<Game>, drawn: Seq<Pick>) -> bool {
    &&& drawn.len() == 2 * playable(games, games.len() as int)
    &&& forall|k: int|
        0 <= k < drawn.len() ==> (#[trigger] drawn[k]).game < games.len() && candidate(
            games[drawn[k].game as int].positions@,
            drawn[k].turn_number as int,
        )
    &&& in_game_order(drawn)
    &&& two_per_game(drawn)
}

/// The first pick is always kept: where anything was drawn, something is
/// chosen.
pub proof fn first_pick_is_kept(games: Seq<Game>, picks: Seq<Pick>)
    requires
        picks.len() > 0,
    ensures
        distinct(games, picks).len() > 0,
        distinct(games, picks)[0] == picks[0],
    decreases picks.len(),
{
    if picks.len() > 1 {
        first_pick_is_kept(games, picks.drop_last());
    } else {
        assert(distinct(games, picks.drop_last()) =~= Seq::<Pick>::empty());
    }
}

/// Draws positions from the games, game by game, with the given generator:
/// two draws from each game that has a position to choose, none from any
/// other. The picks stand in pairs, each pair from one game and the pairs in
/// the order of the games.
pub fn draw_positions(generator: &mut SmallRng, games: &Vec<Game>) -> (picks: Vec<Pick>)
    ensures
        is_drawing(games@, picks@),
        picks.len() == 2 * playable(games@, games.len() as int),
        in_game_order(picks@),
        two_per_game(picks@),
        forall|k: int|
            0 <= k < picks.len() ==> (#[trigger] picks[k]).game < games.len() && candidate(
                games[picks[k].game as int].positions@,
                picks[k].turn_number as int,
            ),
        forall|k: int|
            0 <= k && 2 * k + 1 < picks.len() ==> picks[2 * k].game == (#[trigger] picks[2 * k
                + 1]).game,
        forall|k: int|
            0 <= k && 2 * k + 2 < picks.len() ==> (#[trigger] picks[2 * k + 1]).game < picks[2 * k
                + 2].game,
{
    let mut picks: Vec<Pick> = Vec::new();
    let mut g: usize = 0;
    while g < games.len()
        invariant
            g <= games.len(),
            picks.len() == 2 * playable(games@, g as int),
            playable(games@, g as int) <= g,
            in_game_order(picks@),
            two_per_game(picks@),
            forall|k: int|
                0 <= k < picks.len() ==> (#[trigger] picks[k]).game < g && candidate(
                    games[picks[k].game as int].positions@,
                    picks[k].turn_number as int,
                ),
            forall|k: int|
                0 <= k && 2 * k + 1 < picks.len() ==> picks[2 * k].game == (#[trigger] picks[2 * k
                    + 1]).game,
            forall|k: int|
                0 <= k && 2 * k + 2 < picks.len() ==> (#[trigger] picks[2 * k + 1]).game < picks[2
                    * k + 2].game,
        decreases games.len() - g,
    {
        let chosen = choose_from_game(generator, g, &games[g].positions);
        if chosen.len() == 2 {
            let ghost before = picks@;
            picks.push(chosen[0]);
            picks.push(chosen[1]);
            assert(picks@ =~= before.push(chosen[0]).push(chosen[1]));
            assert(in_game_order(picks@)) by {
                assert forall|a: int, b: int|
                    #![trigger picks@[a], picks@[b]]
                    0 <= a <= b < picks.len() implies picks@[a].game <= picks@[b].game by {
                    if b < before.len() {
                        assert(picks@[a] == before[a] && picks@[b] == before[b]);
                    } else if a < before.len() {
                        assert(picks@[a] == before[a]);
                    }
                }
            }
            assert(two_per_game(picks@)) by {
                assert forall|a: int, b: int|
                    #![trigger picks@[a], picks@[b]]
                    0 <= a && a + 2 <= b < picks.len() implies picks@[a].game < picks@[b].game by {
                    if b < before.len() {
                        assert(picks@[a] == before[a] && picks@[b] == before[b]);
                    } else {
                        assert(picks@[a] == before[a]);
                    }
                }
            }
            assert forall|k: int| 0 <= k && 2 * k + 1 < picks.len() implies picks[2 * k].game == (
            #[trigger] picks[2 * k + 1]).game by {
                if 2 * k + 1 < before.len() {
                    assert(picks[2 * k] == before[2 * k]);
                    assert(picks[2 * k + 1] == before[2 * k + 1]);
                }
            }
            assert forall|k: int| 0 <= k && 2 * k + 2 < picks.len() implies (#[trigger] picks[2 * k
                + 1]).game < picks[2 * k + 2].game by {
                if 2 * k + 2 < before.len() {
                    assert(picks[2 * k + 1] == before[2 * k + 1]);
                    assert(picks[2 * k + 2] == before[2 * k + 2]);
                } else {
                    assert(picks[2 * k + 1] == before[2 * k + 1]);
                    assert(before[2 * k + 1].game < g);
                }
            }
        }
        g += 1;
    }
    picks
}

/// Tests whether one of the picks kept names a position equal to the one
/// that `p` names.
fn is_seen(games: &Vec<Game>, kept: &Vec<Pick>, p: Pick) -> (r: bool)
    requires
        in_range(games@, p),
        forall|k: int| 0 <= k < kept.len() ==> in_range(games@, #[trigger] kept[k]),
    ensures
        r == seen(games@, kept@, p),
{
    let mut k: usize = 0;
    while k < kept.len()
        invariant
            k <= kept.len(),
            in_range(games@, p),
            forall|j: int| 0 <= j < kept.len() ==> in_range(games@, #[trigger] kept[j]),
            forall|j: int|
                0 <= j < k ==> !same_position(
                    position_at(games@, #[trigger] kept[j]),
                    position_at(games@, p),
                ),
        decreases kept.len() - k,
    {
        let q = kept[k];
        assert(in_range(games@, q));
        if positions_equal(
            &games[q.game].positions[q.turn_number],
            &games[p.game].positions[p.turn_number],
        ) {
            return true;
        }
        k += 1;
    }
    false
}

/// Leaves out each pick that names a position equal to that of an earlier
/// pick that was kept. What is kept stands in the order it came in, so that
/// picks in the order of their games stay so, and no game gets more picks
/// than it had.
pub fn distinct_positions(games: &Vec<Game>, picks: &Vec<Pick>) -> (kept: Vec<Pick>)
    requires
        forall|k: int| 0 <= k < picks.len() ==> in_range(games@, #[trigger] picks[k]),
    ensures
        kept@ == distinct(games@, picks@),
        forall|a: int, b: int|
            #![trigger kept[a], kept[b]]
            0 <= a < b < kept.len() ==> !same_position(
                position_at(games@, kept[a]),
                position_at(games@, kept[b]),
            ),
        forall|k: int| 0 <= k < kept.len() ==> picks@.contains(#[trigger] kept[k]),
        kept.len() <= picks.len(),
        in_game_order(picks@) ==> in_game_order(kept@),
        two_per_game(picks@) ==> two_per_game(kept@),
{
    let mut kept: Vec<Pick> = Vec::new();
    let ghost mut source: Seq<int> = Seq::empty();
    let mut i: usize = 0;
    while i < picks.len()
        invariant
            i <= picks.len(),
            forall|k: int| 0 <= k < picks.len() ==> in_range(games@, #[trigger] picks[k]),
            kept@ == distinct(games@, picks@.subrange(0, i as int)),
            source.len() == kept.len(),
            kept.len() <= i,
            forall|k: int|
                0 <= k < kept.len() ==> 0 <= #[trigger] source[k] < i && kept[k]
                    == picks[source[k]],
            forall|a: int, b: int|
                #![trigger source[a], source[b]]
                0 <= a < b < kept.len() ==> source[a] < source[b],
            forall|a: int, b: int|
                #![trigger kept[a], kept[b]]
                0 <= a < b < kept.len() ==> !same_position(
                    position_at(games@, kept[a]),
                    position_at(games@, kept[b]),
                ),
        decreases picks.len() - i,
    {
        let p = picks[i];
        proof {
            assert(picks@.subrange(0, i + 1).drop_last() =~= picks@.subrange(0, i as int));
            assert(picks@.subrange(0, i + 1).last() == p);
            assert forall|k: int| 0 <= k < kept.len() implies in_range(
                games@,
                #[trigger] kept[k],
            ) by {
                assert(kept[k] == picks[source[k]]);
            }
        }
        if !is_seen(games, &kept, p) {
            kept.push(p);
            proof {
                source = source.push(i as int);
            }
        }
        i += 1;
    }
    proof {
        assert(picks@.subrange(0, i as int) =~= picks@);
        assert forall|k: int| 0 <= k < kept.len() implies picks@.contains(
            #[trigger] kept[k],
        ) by {
            assert(picks@[source[k]] == kept[k]);
        }
        if in_game_order(picks@) {
            assert forall|a: int, b: int|
                #![trigger kept@[a], kept@[b]]
                0 <= a <= b < kept.len() implies kept@[a].game <= kept@[b].game by {
                if a < b {
                    assert(source[a] < source[b]);
                }
                assert(picks@[source[a]].game <= picks@[source[b]].game);
            }
        }
        if two_per_game(picks@) {
            assert forall|a: int, b: int|
                #![trigger kept@[a], kept@[b]]
                0 <= a && a + 2 <= b < kept.len() implies kept@[a].game < kept@[b].game by {
                assert(source[a] < source[a + 1]);
                assert(source[a + 1] < source[b]);
                assert(picks@[source[a]].game < picks@[source[b]].game);
            }
        }
    }
    kept
}

/// Chooses positions from the games by draws of the given generator: two
/// draws from each game that has a position to choose, and of the positions
/// drawn those that are equal to none drawn before. So no two of the
/// positions chosen are equal, each can be chosen, no game gives more than
/// two, and something is chosen where any game has a position to choose.
pub fn choose_positions(generator: &mut SmallRng, games: &Vec<Game>) -> (picks: Vec<Pick>)
    ensures
        exists|drawn: Seq<Pick>|
            is_drawing(games@, drawn) && picks@ == #[trigger] distinct(games@, drawn),
        picks.len() <= 2 * playable(games@, games.len() as int),
        playable(games@, games.len() as int) > 0 ==> picks.len() > 0,
        forall|k: int|
            0 <= k < picks.len() ==> (#[trigger] picks[k]).game < games.len() && candidate(
                games[picks[k].game as int].positions@,
                picks[k].turn_number as int,
            ),
        forall|a: int, b: int|
            #![trigger picks[a], picks[b]]
            0 <= a < b < picks.len() ==> !same_position(
                position_at(games@, picks[a]),
                position_at(games@, picks[b]),
            ),
        in_game_order(picks@),
        two_per_game(picks@),
{
    let drawn = draw_positions(generator, games);
    let kept = distinct_positions(games, &drawn);
    proof {
        assert(is_drawing(games@, drawn@) && kept@ == distinct(games@, drawn@));
        if drawn.len() > 0 {
            first_pick_is_kept(games@, drawn@);
        }
        assert forall|k: int| 0 <= k < kept.len() implies (#[trigger] kept[k]).game
            < games.len() && candidate(
            games[kept[k].game as int].positions@,
            kept[k].turn_number as int,
        ) by {
            assert(drawn@.contains(kept[k]));
            let j = choose|j: int| 0 <= j < drawn.len() && drawn[j] == kept[k];
            assert(drawn[j].game < games.len());
        }
    }
    kept
}

} // verus!
