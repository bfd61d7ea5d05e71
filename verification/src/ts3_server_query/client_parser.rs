//! Reads the client list of the roster.
//!
//! A line describes one client by tokens of the form `key=value` with one
//! space between them. Keys that are not known are passed over, and so is a
//! token that does not hold exactly one `=`. A number that cannot be read
//! counts as zero.

use crate::state_manager::app_state::{Client, ClientView};
use vstd::prelude::*;
use vstd::string::StrSliceExecFns;

verus! {

/// The pieces of `s` that lie between the occurrences of `sep`. There is one
/// piece more than there are separators, so the empty text has one empty
/// piece.
pub open spec fn split(s: Seq<char>, sep: char) -> Seq<Seq<char>>
    decreases s.len(),
{
    if s.len() == 0 {
        seq![Seq::empty()]
    } else {
        let before = split(s.drop_last(), sep);
        if s.last() == sep {
            before.push(Seq::empty())
        } else {
            before.update(before.len() - 1, before.last().push(s.last()))
        }
    }
}

/// Whether `c` is one of the digits `0` to `9`.
pub open spec fn is_digit(c: char) -> bool {
    '0' <= c <= '9'
}

/// The number that a digit stands for.
pub open spec fn digit_value(c: char) -> nat {
    if is_digit(c) {
        (c as int - '0' as int) as nat
    } else {
        0
    }
}

/// The number that a run of digits stands for, in base ten.
pub open spec fn decimal_value(digits: Seq<char>) -> nat
    decreases digits.len(),
{
    if digits.len() == 0 {
        0
    } else {
        decimal_value(digits.drop_last()) * 10 + digit_value(digits.last())
    }
}

/// The digits of a number's text: the text without a leading `+`.
pub open spec fn digits_of(text: Seq<char>) -> Seq<char> {
    if text.len() > 0 && text[0] == '+' {
        text.subrange(1, text.len() as int)
    } else {
        text
    }
}

/// The number that `text` is read as: an optional `+` and then one digit or
/// more, which together stand for a number up to `max`. Any other text is
/// not a number.
pub open spec fn number_of(text: Seq<char>, max: u64) -> Option<u64> {
    let digits = digits_of(text);
    if digits.len() > 0 && (forall|i: int| 0 <= i < digits.len() ==> is_digit(#[trigger] digits[i]))
        && decimal_value(digits) <= max {
        Some(decimal_value(digits) as u64)
    } else {
        None
    }
}

/// The number that `text` is read as, and zero where it is not a number.
pub open spec fn number_or_zero(text: Seq<char>, max: u64) -> u64 {
    match number_of(text, max) {
        Some(n) => n,
        None => 0,
    }
}

/// The client of whom nothing has been read yet.
pub open spec fn blank_client() -> ClientView {
    ClientView {
        id: 0,
        channel_id: 0,
        nickname: Seq::empty(),
        database_id: 0,
        unique_id: Seq::empty(),
        last_voice_data: None,
    }
}

/// The client after one token was read. A token sets a field where it holds
/// exactly one `=` and its key is one of the five that are known.
pub open spec fn apply_token(client: ClientView, token: Seq<char>) -> ClientView {
    let pair = split(token, '=');
    if pair.len() != 2 {
        client
    } else if pair[0] == "clid"@ {
        ClientView { id: number_or_zero(pair[1], 0xFFFF) as u16, ..client }
    } else if pair[0] == "cid"@ {
        ClientView { channel_id: number_or_zero(pair[1], 0xFFFF) as u16, ..client }
    } else if pair[0] == "client_nickname"@ {
        ClientView { nickname: pair[1], ..client }
    } else if pair[0] == "client_database_id"@ {
        ClientView { database_id: number_or_zero(pair[1], 0xFFFF_FFFF_FFFF_FFFF), ..client }
    } else if pair[0] == "client_unique_identifier"@ {
        ClientView { unique_id: pair[1], ..client }
    } else {
        client
    }
}

/// The client after the tokens were read one after the other, so that of two
/// tokens with the same key the later one counts.
pub open spec fn apply_tokens(client: ClientView, tokens: Seq<Seq<char>>) -> ClientView
    decreases tokens.len(),
{
    if tokens.len() == 0 {
        client
    } else {
        apply_token(apply_tokens(client, tokens.drop_last()), tokens.last())
    }
}

/// The client that a line of the list describes.
pub open spec fn client_of_line(line: Seq<char>) -> ClientView {
    apply_tokens(blank_client(), split(line, ' '))
}

/// A run of digits stands for no less than any run it starts with.
proof fn lemma_decimal_value_grows(digits: Seq<char>, upto: int)
    requires
        0 <= upto <= digits.len(),
    ensures
        decimal_value(digits.subrange(0, upto)) <= decimal_value(digits),
    decreases digits.len() - upto,
{
    if upto == digits.len() {
        assert(digits.subrange(0, upto) =~= digits);
    } else {
        lemma_decimal_value_grows(digits.drop_last(), upto);
        assert(digits.drop_last().subrange(0, upto) =~= digits.subrange(0, upto));
    }
}

/// The characters of a text, one by one.
fn chars_of(text: &str) -> (chars: Vec<char>)
    ensures
        chars@ == text@,
{
    let mut chars: Vec<char> = Vec::new();
    for c in it: text.chars()
        invariant
            it.seq() == text@,
            chars@ == it.seq().take(it.index() as int),
    {
        chars.push(c);
    }
    chars
}

/// Whether the characters from `from` up to `to` spell `name`.
fn spells(chars: &Vec<char>, from: usize, to: usize, name: &str) -> (same: bool)
    requires
        from <= to <= chars@.len(),
    ensures
        same == (chars@.subrange(from as int, to as int) == name@),
{
    let ghost part = chars@.subrange(from as int, to as int);
    let mut at: usize = from;
    for c in it: name.chars()
        invariant
            it.seq() == name@,
            from <= to <= chars@.len(),
            part == chars@.subrange(from as int, to as int),
            at == from + it.index(),
            at <= to,
            forall|k: int| 0 <= k < it.index() ==> part[k] == name@[k],
    {
        if at >= to || chars[at] != c {
            assert(part != name@) by {
                if part == name@ {
                    assert(part[at - from] == name@[at - from]);
                }
            }
            return false;
        }
        at += 1;
    }
    if at != to {
        return false;
    }
    assert(part =~= name@);
    true
}

/// Reads the characters from `from` up to `to` as a number up to `max`.
fn parse_number(chars: &Vec<char>, from: usize, to: usize, max: u64) -> (number: Option<u64>)
    requires
        from <= to <= chars@.len(),
        max >= 9,
    ensures
        number == number_of(chars@.subrange(from as int, to as int), max),
{
    let ghost text = chars@.subrange(from as int, to as int);
    let first: usize = if from < to && chars[from] == '+' {
        from + 1
    } else {
        from
    };
    let ghost digits = chars@.subrange(first as int, to as int);
    assert(digits =~= digits_of(text));
    if first == to {
        return None;
    }
    let mut value: u64 = 0;
    let mut at: usize = first;
    assert(digits.subrange(0, 0) =~= Seq::<char>::empty());
    while at < to
        invariant
            from <= first <= at <= to <= chars@.len(),
            max >= 9,
            digits == chars@.subrange(first as int, to as int),
            digits == digits_of(chars@.subrange(from as int, to as int)),
            forall|k: int| 0 <= k < at - first ==> is_digit(#[trigger] digits[k]),
            value == decimal_value(digits.subrange(0, at - first)),
            value <= max,
        decreases to - at,
    {
        let c: char = chars[at];
        assert(digits[at - first] == c);
        if !(c >= '0' && c <= '9') {
            assert(!is_digit(digits_of(chars@.subrange(from as int, to as int))[at - first]));
            return None;
        }
        let digit: u64 = (c as u32 - 0x30) as u64;
        proof {
            let longer = digits.subrange(0, at - first + 1);
            assert(longer.drop_last() =~= digits.subrange(0, at - first));
            assert(longer.last() == c);
            assert(decimal_value(longer) == value * 10 + digit);
            lemma_decimal_value_grows(digits, at - first + 1);
        }
        if value > (max - digit) / 10 {
            return None;
        }
        value = value * 10 + digit;
        at += 1;
    }
    assert(digits.subrange(0, at - first) =~= digits);
    Some(value)
}

/// Reads one token, the characters of `line` from `from` up to `to`, into
/// `client`.
fn read_token(client: Client, line: &str, chars: &Vec<char>, from: usize, to: usize) -> (updated:
    Client)
    requires
        chars@ == line@,
        from <= to <= chars@.len(),
    ensures
        updated@ == apply_token(client@, chars@.subrange(from as int, to as int)),
{
    let ghost token = chars@.subrange(from as int, to as int);
    let ghost mut done: Seq<Seq<char>> = Seq::empty();
    let mut signs: usize = 0;
    let mut sign_at: usize = from;
    let mut piece: usize = from;
    let mut at: usize = from;
    assert(token.subrange(0, 0) =~= Seq::<char>::empty());
    assert(split(token.subrange(0, 0), '=') =~= done.push(token.subrange(0, 0)));
    while at < to
        invariant
            from <= piece <= at <= to <= chars@.len(),
            token == chars@.subrange(from as int, to as int),
            split(token.subrange(0, at - from), '=') == done.push(
                token.subrange(piece - from, at - from),
            ),
            signs == done.len(),
            signs <= at - from,
            signs == 0 ==> piece == from,
            signs >= 1 ==> from <= sign_at < piece && done[0] == token.subrange(
                0,
                sign_at - from,
            ),
            signs == 1 ==> piece == sign_at + 1,
        decreases to - at,
    {
        proof {
            let longer = token.subrange(0, at - from + 1);
            assert(longer.drop_last() =~= token.subrange(0, at - from));
            assert(longer.last() == chars@[at as int]);
            let before = done.push(token.subrange(piece - from, at - from));
            if chars@[at as int] == '=' {
                assert(split(longer, '=') == before.push(Seq::empty()));
                assert(token.subrange(at + 1 - from, at + 1 - from) =~= Seq::<char>::empty());
            } else {
                assert(before.last().push(longer.last()) =~= token.subrange(
                    piece - from,
                    at - from + 1,
                ));
                assert(before.update(before.len() - 1, before.last().push(longer.last()))
                    =~= done.push(token.subrange(piece - from, at - from + 1)));
            }
        }
        if chars[at] == '=' {
            proof {
                done = done.push(token.subrange(piece - from, at - from));
            }
            if signs == 0 {
                sign_at = at;
            }
            signs += 1;
            piece = at + 1;
        }
        at += 1;
    }
    assert(token.subrange(0, to - from) =~= token);
    let ghost pair = split(token, '=');
    assert(pair.len() == signs + 1);
    if signs != 1 {
        return client;
    }
    let ghost key = pair[0];
    let ghost value = pair[1];
    assert(key =~= chars@.subrange(from as int, sign_at as int));
    assert(value =~= chars@.subrange(sign_at + 1, to as int));
    if spells(chars, from, sign_at, "clid") {
        let id = match parse_number(chars, sign_at + 1, to, 0xFFFF) {
            Some(n) => n as u16,
            None => 0,
        };
        Client { id, ..client }
    } else if spells(chars, from, sign_at, "cid") {
        let channel_id = match parse_number(chars, sign_at + 1, to, 0xFFFF) {
            Some(n) => n as u16,
            None => 0,
        };
        Client { channel_id, ..client }
    } else if spells(chars, from, sign_at, "client_nickname") {
        Client { nickname: line.substring_char(sign_at + 1, to).to_owned(), ..client }
    } else if spells(chars, from, sign_at, "client_database_id") {
        let database_id = match parse_number(chars, sign_at + 1, to, 0xFFFF_FFFF_FFFF_FFFF) {
            Some(n) => n,
            None => 0,
        };
        Client { database_id, ..client }
    } else if spells(chars, from, sign_at, "client_unique_identifier") {
        Client { unique_id: line.substring_char(sign_at + 1, to).to_owned(), ..client }
    } else {
        client
    }
}

/// Reads the client that one line of the list describes.
pub fn parse_client(line: &str) -> (client: Client)
    ensures
        client@ == client_of_line(line@),
{
    let chars = chars_of(line);
    let mut client = Client {
        id: 0,
        channel_id: 0,
        nickname: String::new(),
        database_id: 0,
        unique_id: String::new(),
        last_voice_data: None,
    };
    let ghost mut done: Seq<Seq<char>> = Seq::empty();
    let mut piece: usize = 0;
    let mut at: usize = 0;
    assert(chars@.subrange(0, 0) =~= Seq::<char>::empty());
    assert(split(chars@.subrange(0, 0), ' ') =~= done.push(chars@.subrange(0, 0)));
    while at < chars.len()
        invariant
            chars@ == line@,
            piece <= at <= chars@.len(),
            split(chars@.subrange(0, at as int), ' ') == done.push(
                chars@.subrange(piece as int, at as int),
            ),
            client@ == apply_tokens(blank_client(), done),
        decreases chars@.len() - at,
    {
        proof {
            let longer = chars@.subrange(0, at + 1);
            assert(longer.drop_last() =~= chars@.subrange(0, at as int));
            assert(longer.last() == chars@[at as int]);
            let before = done.push(chars@.subrange(piece as int, at as int));
            if chars@[at as int] == ' ' {
                assert(split(longer, ' ') == before.push(Seq::empty()));
                assert(chars@.subrange(at + 1, at + 1) =~= Seq::<char>::empty());
            } else {
                assert(before.last().push(longer.last()) =~= chars@.subrange(
                    piece as int,
                    at + 1,
                ));
                assert(before.update(before.len() - 1, before.last().push(longer.last()))
                    =~= done.push(chars@.subrange(piece as int, at + 1)));
            }
        }
        if chars[at] == ' ' {
            client = read_token(client, line, &chars, piece, at);
            proof {
                let token = chars@.subrange(piece as int, at as int);
                assert(done.push(token).drop_last() =~= done);
                done = done.push(token);
            }
            piece = at + 1;
        }
        at += 1;
    }
    assert(chars@.subrange(0, at as int) =~= chars@);
    proof {
        let token = chars@.subrange(piece as int, at as int);
        assert(done.push(token).drop_last() =~= done);
    }
    read_token(client, line, &chars, piece, at)
}

/// Reads the clients that the lines of the list describe, one for each line.
pub fn parse_clients(response: Vec<String>) -> (clients: Vec<Client>)
    ensures
        clients@.len() == response@.len(),
        forall|i: int|
            0 <= i < response@.len() ==> (#[trigger] clients@[i])@ == client_of_line(
                response@[i]@,
            ),
{
    let mut clients: Vec<Client> = Vec::new();
    let mut at: usize = 0;
    while at < response.len()
        invariant
            at <= response@.len(),
            clients@.len() == at,
            forall|i: int|
                0 <= i < at ==> (#[trigger] clients@[i])@ == client_of_line(response@[i]@),
        decreases response@.len() - at,
    {
        let client = parse_client(response[at].as_str());
        clients.push(client);
        at += 1;
    }
    clients
}

} // verus!
