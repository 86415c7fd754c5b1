//! The message codec: commands to wire text, and wire text to events.
//!
//! The grammar of the protocol belongs to `vampirc_uci`. This module hands
//! it lines and commands, and classifies what comes back.

use vstd::prelude::*;
use vstd::string::*;
use vstd::utf8::is_ascii_chars;
use vampirc_uci::{Serializable, UciFen, UciInfoAttribute, UciMessage, UciMove, UciSearchControl};
use crate::notation::{WireMove, WireSquare};
use crate::protocol::{CommandView, InfoUpdate, ProtocolCommand, ProtocolEvent};

verus! {

#[verifier::external_type_specification]
#[verifier::external_body]
pub struct ExUciInfoAttribute(UciInfoAttribute);

#[verifier::external_type_specification]
#[verifier::external_body]
pub struct ExUciMove(UciMove);

/// A parsed line, told apart as far as the evaluation cares.
#[derive(PartialEq, Eq, Debug)]
pub enum WireMessage {
    /// `uciok`.
    UciOk,
    /// An `info` line with its attributes in the order of the line.
    Info(Vec<UciInfoAttribute>),
    /// A `bestmove` line with the move it names.
    BestMove(UciMove),
    /// Any other message, and any line that is none.
    Other,
}

/// One attribute of an `info` line, told apart as far as the evaluation
/// cares.
#[derive(PartialEq, Eq, Debug)]
pub enum RawAttribute {
    /// `multipv`: the rank of the variation.
    MultiPv(u16),
    /// `score`: centipawns or a mate distance, whichever the line gave.
    Score { cp: Option<i32>, mate: Option<i8> },
    /// `pv`: the moves of the line in their order.
    Pv(Vec<UciMove>),
    /// Any other attribute.
    Other,
}

/// What `vampirc_uci::parse_one` makes of a line.
pub uninterp spec fn parsed(line: Seq<char>) -> WireMessage;

/// What a parsed attribute holds.
pub uninterp spec fn attribute_content(attribute: UciInfoAttribute) -> RawAttribute;

/// What a parsed move holds.
pub uninterp spec fn move_content(m: UciMove) -> WireMove;

/// A blank of the protocol: a space or a tab.
pub open spec fn is_blank(c: char) -> bool {
    c == ' ' || c == '\t'
}

/// An ASCII digit.
pub open spec fn is_digit(c: char) -> bool {
    48 <= c as u32 <= 57
}

/// The number that an ASCII digit stands for.
pub open spec fn digit_value(c: char) -> int {
    c as u32 - 48
}

/// The place of the last character before `i` that is no blank, or -1 where
/// there is none.
pub open spec fn last_solid(s: Seq<char>, i: int) -> int
    decreases i,
{
    if i <= 0 {
        -1
    } else if !is_blank(s[i - 1]) {
        i - 1
    } else {
        last_solid(s, i - 1)
    }
}

/// The place of the first character from `i` on that is no blank, or the
/// length of the text where there is none.
pub open spec fn first_solid(s: Seq<char>, i: int) -> int
    decreases s.len() - i,
{
    if i >= s.len() {
        s.len() as int
    } else if !is_blank(s[i]) {
        i
    } else {
        first_solid(s, i + 1)
    }
}

/// The first word of the text begins with `go`, in either case: the only
/// texts that the parser reads as a `go` message.
pub open spec fn opens_with_go(s: Seq<char>) -> bool {
    let j = first_solid(s, 0);
    j + 1 < s.len() && (s[j] == 'g' || s[j] == 'G') && (s[j + 1] == 'o' || s[j + 1] == 'O')
}

/// The two characters end one of the words after which the parser reads a
/// number into a single byte, in either case: `depth` and `seldepth` in any
/// message, `movestogo` and `mate` in a `go` message.
pub open spec fn ends_byte_word(go_message: bool, a: char, b: char) -> bool {
    ((a == 't' || a == 'T') && (b == 'h' || b == 'H')) || (go_message && (((a == 'g' || a
        == 'G') && (b == 'o' || b == 'O')) || ((a == 't' || a == 'T') && (b == 'e' || b
        == 'E'))))
}

/// Three digits stand at `i` that read above 255, and the word before them
/// ends like one that takes a byte.
pub open spec fn byte_overflow_at(s: Seq<char>, i: int) -> bool {
    &&& 1 <= i
    &&& i + 2 < s.len()
    &&& is_blank(s[i - 1])
    &&& is_digit(s[i])
    &&& is_digit(s[i + 1])
    &&& is_digit(s[i + 2])
    &&& 100 * digit_value(s[i]) + 10 * digit_value(s[i + 1]) + digit_value(s[i + 2]) > 255
    &&& last_solid(s, i) >= 1
    &&& ends_byte_word(opens_with_go(s), s[last_solid(s, i) - 1], s[last_solid(s, i)])
}

/// The text does not end in a blank.
pub open spec fn ends_solid(s: Seq<char>) -> bool {
    s.len() == 0 || !is_blank(s.last())
}

/// The text without the blanks at its end.
pub open spec fn without_trailing_blanks(s: Seq<char>) -> Seq<char>
    decreases s.len(),
{
    if s.len() > 0 && is_blank(s.last()) {
        without_trailing_blanks(s.drop_last())
    } else {
        s
    }
}

/// The parser can take the text: it does not end in a blank, after which
/// the parser cannot end a `go` message, and no number in it can overflow a
/// byte-sized field of the parser.
pub open spec fn fits_parser(s: Seq<char>) -> bool {
    ends_solid(s) && forall|i: int| 0 <= i < s.len() ==> !byte_overflow_at(s, i)
}

/// The update after one more attribute: each attribute replaces what an
/// earlier one of its kind said, and of a line of moves the first is kept.
pub open spec fn absorb_attribute(u: InfoUpdate, a: RawAttribute) -> InfoUpdate {
    match a {
        RawAttribute::MultiPv(n) => InfoUpdate { variation_index: Some(n), ..u },
        RawAttribute::Score { cp, mate } => InfoUpdate { centipawns: cp, mate: mate, ..u },
        RawAttribute::Pv(moves) => InfoUpdate {
            first_move: if moves@.len() > 0 {
                Some(move_content(moves@[0]))
            } else {
                None
            },
            ..u
        },
        RawAttribute::Other => u,
    }
}

/// The update that the attributes of one line add up to.
pub open spec fn gather(attributes: Seq<UciInfoAttribute>) -> InfoUpdate
    decreases attributes.len(),
{
    if attributes.len() == 0 {
        InfoUpdate::spec_empty()
    } else {
        absorb_attribute(gather(attributes.drop_last()), attribute_content(attributes.last()))
    }
}

/// The event that a parsed line is.
pub open spec fn event_of(m: WireMessage) -> ProtocolEvent {
    match m {
        WireMessage::UciOk => ProtocolEvent::HandshakeAck,
        WireMessage::Info(attributes) => ProtocolEvent::InfoUpdate(gather(attributes@)),
        WireMessage::BestMove(best) => ProtocolEvent::SearchComplete {
            best_move: move_content(best),
        },
        WireMessage::Other => ProtocolEvent::Unrecognized,
    }
}

/// The event that a line decodes to. The blanks at the end of the line say
/// nothing and are left off. A line with a number that the parser cannot
/// hold is unrecognized.
pub open spec fn decoded(line: Seq<char>) -> ProtocolEvent {
    let text = without_trailing_blanks(line);
    if fits_parser(text) {
        event_of(parsed(text))
    } else {
        ProtocolEvent::Unrecognized
    }
}

/// The character of a decimal digit.
pub open spec fn digit_char(d: nat) -> char {
    if d == 0 {
        '0'
    } else if d == 1 {
        '1'
    } else if d == 2 {
        '2'
    } else if d == 3 {
        '3'
    } else if d == 4 {
        '4'
    } else if d == 5 {
        '5'
    } else if d == 6 {
        '6'
    } else if d == 7 {
        '7'
    } else if d == 8 {
        '8'
    } else {
        '9'
    }
}

/// A number in decimal, without leading zeros.
pub open spec fn decimal(n: nat) -> Seq<char>
    decreases n,
{
    if n < 10 {
        seq![digit_char(n)]
    } else {
        decimal(n / 10).push(digit_char(n % 10))
    }
}

/// The text of a command on the wire, without the end of the line.
pub open spec fn wire_text(command: CommandView) -> Seq<char> {
    match command {
        CommandView::HandshakeInit => "uci"@,
        CommandView::SetOption { name, value } => "setoption name "@ + name + (if value.len()
            == 0 {
            " value <empty>"@
        } else {
            " value "@ + value
        }),
        CommandView::SetPosition { fen } => "position fen "@ + fen,
        CommandView::StartSearch { depth } => "go depth "@ + decimal(depth as nat) + " "@,
        CommandView::Quit => "quit"@,
    }
}

/// Calls `vampirc_uci::parse_one` on the line and tells the message apart.
/// The contract names the result, and leaves out the lines on which the
/// parser panics: those that end in a blank, after which it cannot end a
/// `go` message, and those on which it would fail to fit a number into a
/// byte.
#[verifier::external_body]
fn parse_line(line: &str) -> (m: WireMessage)
    requires
        fits_parser(line@),
    ensures
        m == parsed(line@),
{
    match vampirc_uci::parse_one(line) {
        UciMessage::UciOk => WireMessage::UciOk,
        UciMessage::Info(attributes) => WireMessage::Info(attributes),
        UciMessage::BestMove { best_move, .. } => WireMessage::BestMove(best_move),
        _ => WireMessage::Other,
    }
}

/// Tells the variants of `vampirc_uci::UciInfoAttribute` apart. The contract
/// names what the attribute holds.
#[verifier::external_body]
fn attribute_of(attribute: &UciInfoAttribute) -> (a: RawAttribute)
    ensures
        a == attribute_content(*attribute),
{
    match attribute {
        UciInfoAttribute::MultiPv(n) => RawAttribute::MultiPv(*n),
        UciInfoAttribute::Score { cp, mate, .. } => RawAttribute::Score { cp: *cp, mate: *mate },
        UciInfoAttribute::Pv(moves) => RawAttribute::Pv(moves.clone()),
        _ => RawAttribute::Other,
    }
}

/// Reads the fields of a `vampirc_uci::UciMove`, the promotion through
/// `UciPiece::as_char`. The contract names what the move holds.
#[verifier::external_body]
fn move_parts(m: &UciMove) -> (w: WireMove)
    ensures
        w == move_content(*m),
{
    WireMove {
        from: WireSquare { file: m.from.file, rank: m.from.rank },
        to: WireSquare { file: m.to.file, rank: m.to.rank },
        promotion: m.promotion.map(|p| p.as_char().unwrap_or('p')),
    }
}

/// Calls `vampirc_uci`'s `serialize` on the message that the command stands
/// for. The contract states the text that the serializer writes for these
/// five messages.
#[verifier::external_body]
fn serialize_command(command: &ProtocolCommand) -> (text: String)
    ensures
        text@ == wire_text(command@),
{
    let message = match command {
        ProtocolCommand::HandshakeInit => UciMessage::Uci,
        ProtocolCommand::SetOption { name, value } => UciMessage::SetOption { name: name.clone(), value: Some(value.clone()) },
        ProtocolCommand::SetPosition { fen } => UciMessage::Position { startpos: false, fen: Some(UciFen::from(fen.as_str())), moves: Vec::new() },
        ProtocolCommand::StartSearch { depth } => UciMessage::Go { time_control: None, search_control: Some(UciSearchControl::depth(*depth)) },
        ProtocolCommand::Quit => UciMessage::Quit,
    };
    message.serialize()
}

/// Encodes a command as one line, terminated by a newline.
pub fn encode(command: &ProtocolCommand) -> (line: String)
    ensures
        line@ == wire_text(command@) + seq!['\n'],
{
    let text = serialize_command(command);
    proof {
        reveal_strlit("\n");
        assert("\n"@ =~= seq!['\n']);
    }
    text.concat("\n")
}

fn blank(c: char) -> (b: bool)
    ensures
        b == is_blank(c),
{
    c == ' ' || c == '\t'
}

fn digit(c: char) -> (d: Option<u32>)
    ensures
        d is Some == is_digit(c),
        d matches Some(v) ==> v == digit_value(c) && v < 10,
{
    let code: u32 = c as u32;
    if 48 <= code && code <= 57 {
        Some(code - 48)
    } else {
        None
    }
}

fn byte_word_end(go_message: bool, a: char, b: char) -> (r: bool)
    ensures
        r == ends_byte_word(go_message, a, b),
{
    ((a == 't' || a == 'T') && (b == 'h' || b == 'H')) || (go_message && (((a == 'g' || a
        == 'G') && (b == 'o' || b == 'O')) || ((a == 't' || a == 'T') && (b == 'e' || b
        == 'E'))))
}

/// The character at a place of the line. Where the line is known to be
/// ASCII the place is found at once, else by walking the line.
pub fn char_at(line: &str, ascii: bool, i: usize) -> (c: char)
    requires
        i < line@.len(),
        ascii ==> is_ascii(line),
    ensures
        c == line@[i as int],
{
    if ascii {
        let b = line.get_ascii(i);
        assert(is_ascii_chars(line@));
        assert(line@[i as int] as u32 == b as u32) by {
            assert((line@[i as int] as nat) < 128);
        }
        b as char
    } else {
        line.get_char(i)
    }
}

/// Three digits that read above 255 stand at `i`.
fn wide_number_at(line: &str, ascii: bool, n: usize, i: usize) -> (r: bool)
    requires
        n == line@.len(),
        i < n,
        ascii ==> is_ascii(line),
    ensures
        r == (i + 2 < n && is_digit(line@[i as int]) && is_digit(line@[i + 1]) && is_digit(
            line@[i + 2],
        ) && 100 * digit_value(line@[i as int]) + 10 * digit_value(line@[i + 1]) + digit_value(
            line@[i + 2],
        ) > 255),
{
    if n - i <= 2 {
        return false;
    }
    match (
        digit(char_at(line, ascii, i)),
        digit(char_at(line, ascii, i + 1)),
        digit(char_at(line, ascii, i + 2)),
    ) {
        (Some(a), Some(b), Some(c)) => 100 * a + 10 * b + c > 255,
        _ => false,
    }
}

/// Tests whether the first word of the line begins with `go`.
fn begins_with_go(line: &str, ascii: bool, n: usize) -> (r: bool)
    requires
        n == line@.len(),
        ascii ==> is_ascii(line),
    ensures
        r == opens_with_go(line@),
{
    let mut j: usize = 0;
    loop
        invariant
            j <= n,
            n == line@.len(),
            ascii ==> is_ascii(line),
            first_solid(line@, 0) == first_solid(line@, j as int),
        decreases n - j,
    {
        if j >= n {
            return false;
        }
        let c = char_at(line, ascii, j);
        if !blank(c) {
            if n - j < 2 {
                return false;
            }
            let d = char_at(line, ascii, j + 1);
            return (c == 'g' || c == 'G') && (d == 'o' || d == 'O');
        }
        j += 1;
    }
}

/// Tests whether the parser can take the line.
pub fn within_parser_limits(line: &str) -> (ok: bool)
    ensures
        ok == fits_parser(line@),
{
    let n = line.unicode_len();
    let ascii = line.is_ascii();
    if n > 0 && blank(char_at(line, ascii, n - 1)) {
        return false;
    }
    let go_message = begins_with_go(line, ascii, n);
    let mut i: usize = 0;
    let mut solid: Option<usize> = None;
    let mut after_blank = false;
    while i < n
        invariant
            i <= n,
            n == line@.len(),
            ascii ==> is_ascii(line),
            ends_solid(line@),
            go_message == opens_with_go(line@),
            last_solid(line@, i as int) == (match solid {
                Some(j) => j as int,
                None => -1,
            }),
            solid matches Some(j) ==> j < i,
            after_blank == (i >= 1 && is_blank(line@[i - 1])),
            forall|k: int| 0 <= k < i ==> !byte_overflow_at(line@, k),
        decreases n - i,
    {
        let c = char_at(line, ascii, i);
        if after_blank && wide_number_at(line, ascii, n, i) {
            match solid {
                Some(j) => {
                    if j >= 1 && byte_word_end(
                        go_message,
                        char_at(line, ascii, j - 1),
                        char_at(line, ascii, j),
                    ) {
                        assert(byte_overflow_at(line@, i as int));
                        return false;
                    }
                },
                None => {},
            }
        }
        after_blank = blank(c);
        if !after_blank {
            solid = Some(i);
        }
        i += 1;
    }
    true
}

/// Leaves the blanks at the end of a line off.
pub fn cut_trailing_blanks(line: &str) -> (text: &str)
    ensures
        text@ == without_trailing_blanks(line@),
{
    let n = line.unicode_len();
    let ascii = line.is_ascii();
    let mut end: usize = n;
    proof {
        assert(line@.subrange(0, n as int) =~= line@);
    }
    loop
        invariant
            end <= n,
            n == line@.len(),
            ascii ==> is_ascii(line),
            without_trailing_blanks(line@) == without_trailing_blanks(
                line@.subrange(0, end as int),
            ),
        ensures
            end == 0 || !is_blank(line@[end - 1]),
        decreases end,
    {
        if end == 0 {
            break ;
        }
        if !blank(char_at(line, ascii, end - 1)) {
            break ;
        }
        proof {
            assert(line@.subrange(0, end as int).drop_last() =~= line@.subrange(
                0,
                end - 1,
            ));
        }
        end -= 1;
    }
    proof {
        let kept = line@.subrange(0, end as int);
        assert(end > 0 ==> kept.last() == line@[end - 1]);
        assert(without_trailing_blanks(kept) == kept);
    }
    if ascii {
        line.substring_ascii(0, end)
    } else {
        line.substring_char(0, end)
    }
}

/// The text of one decimal digit.
fn digit_text(d: u32) -> (t: &'static str)
    requires
        d < 10,
    ensures
        t@ == seq![digit_char(d as nat)],
{
    proof {
        reveal_strlit("0");
        reveal_strlit("1");
        reveal_strlit("2");
        reveal_strlit("3");
        reveal_strlit("4");
        reveal_strlit("5");
        reveal_strlit("6");
        reveal_strlit("7");
        reveal_strlit("8");
        reveal_strlit("9");
    }
    let t = if d == 0 {
        "0"
    } else if d == 1 {
        "1"
    } else if d == 2 {
        "2"
    } else if d == 3 {
        "3"
    } else if d == 4 {
        "4"
    } else if d == 5 {
        "5"
    } else if d == 6 {
        "6"
    } else if d == 7 {
        "7"
    } else if d == 8 {
        "8"
    } else {
        "9"
    };
    assert(t@ =~= seq![digit_char(d as nat)]);
    t
}

/// Writes a number in decimal, as an option's value goes on the wire.
pub fn decimal_string(n: u32) -> (s: String)
    ensures
        s@ == decimal(n as nat),
    decreases n,
{
    if n < 10 {
        String::from_str(digit_text(n))
    } else {
        let mut s = decimal_string(n / 10);
        s.append(digit_text(n % 10));
        assert(s@ =~= decimal((n / 10) as nat).push(digit_char((n % 10) as nat)));
        s
    }
}

/// Takes one attribute into the update.
pub fn take_attribute(u: InfoUpdate, a: &RawAttribute) -> (r: InfoUpdate)
    ensures
        r == absorb_attribute(u, *a),
{
    match a {
        RawAttribute::MultiPv(n) => InfoUpdate { variation_index: Some(*n), ..u },
        RawAttribute::Score { cp, mate } => InfoUpdate { centipawns: *cp, mate: *mate, ..u },
        RawAttribute::Pv(moves) => {
            let first_move = if moves.len() > 0 {
                Some(move_parts(&moves[0]))
            } else {
                None
            };
            InfoUpdate { first_move, ..u }
        },
        RawAttribute::Other => u,
    }
}

/// Classifies a parsed line as an event.
pub fn classify(m: &WireMessage) -> (event: ProtocolEvent)
    ensures
        event == event_of(*m),
{
    match m {
        WireMessage::UciOk => ProtocolEvent::HandshakeAck,
        WireMessage::Info(attributes) => {
            let mut u = InfoUpdate::empty();
            let mut i: usize = 0;
            while i < attributes.len()
                invariant
                    i <= attributes.len(),
                    u == gather(attributes@.subrange(0, i as int)),
                decreases attributes.len() - i,
            {
                let raw = attribute_of(&attributes[i]);
                u = take_attribute(u, &raw);
                proof {
                    assert(attributes@.subrange(0, i + 1).drop_last() =~= attributes@.subrange(
                        0,
                        i as int,
                    ));
                }
                i += 1;
            }
            proof {
                assert(attributes@.subrange(0, i as int) =~= attributes@);
            }
            ProtocolEvent::InfoUpdate(u)
        },
        WireMessage::BestMove(best) => ProtocolEvent::SearchComplete {
            best_move: move_parts(best),
        },
        WireMessage::Other => ProtocolEvent::Unrecognized,
    }
}

/// Decodes one line. Any line that is no known event is unrecognized.
pub fn decode(line: &str) -> (event: ProtocolEvent)
    ensures
        event == decoded(line@),
{
    let text = cut_trailing_blanks(line);
    if !within_parser_limits(text) {
        return ProtocolEvent::Unrecognized;
    }
    let m = parse_line(text);
    classify(&m)
}

/// Decoding is a function of the line's text: the same text gives the same
/// event, however often and wherever it is decoded.
pub proof fn decode_is_pure(first: Seq<char>, second: Seq<char>)
    requires
        first == second,
    ensures
        decoded(first) == decoded(second),
{
}

} // verus!
