//! Gateway discovery: the default gateway's address, read from the text of
//! the routing table.

use crate::address::{address_of, lemma_address_of_text, lemma_text_chars, NetworkAddress};
use crate::outcome::{Failure, Outcome, OutcomeView};
use crate::text::{
    fields, first_some, has_prefix, is_space, lemma_fields_space, lemma_fields_token,
    lemma_first_some_at, lemma_first_some_none, lines, split_fields, split_lines, starts_with,
    to_chars,
};
use vstd::prelude::*;

verus! {

/// The words with which a default-route entry begins.
pub open spec fn route_marker() -> Seq<char> {
    "default via"@
}

/// The gateway that one line of the routing table names: the address that
/// its third field denotes, where the line begins with the marker. A line
/// that does not begin with the marker, has fewer than three fields, or has
/// a third field that denotes no address names none.
pub open spec fn route_answer(line: Seq<char>) -> Option<NetworkAddress> {
    if has_prefix(line, route_marker()) && fields(line).len() >= 3 {
        address_of(fields(line)[2])
    } else {
        None
    }
}

/// What each line of the routing table names, line by line.
pub open spec fn route_answers(table: Seq<char>) -> Seq<Option<NetworkAddress>> {
    lines(table).map_values(|line: Seq<char>| route_answer(line))
}

/// The default gateway of a routing table: what the first line that names a
/// gateway names.
pub open spec fn gateway_of(table: Seq<char>) -> Option<NetworkAddress> {
    first_some(route_answers(table))
}

/// The default gateway according to the outcome of the routing-table
/// command: the default gateway of what the command wrote, however it
/// exited. Without such a gateway, and without a command that ran, the
/// gateway is not found.
pub open spec fn located_gateway(outcome: OutcomeView) -> Result<NetworkAddress, Failure> {
    match outcome {
        OutcomeView::Exited { output, .. } => match gateway_of(output) {
            Some(gateway) => Ok(gateway),
            None => Err(Failure::GatewayNotFound),
        },
        _ => Err(Failure::GatewayNotFound),
    }
}

/// The gateway that one line of the routing table names.
pub fn answer_on_line(line: &[char]) -> (r: Option<NetworkAddress>)
    ensures
        r == route_answer(line@),
{
    let marker = to_chars("default via");
    if !starts_with(line, marker.as_slice()) {
        return None;
    }
    let parts = split_fields(line);
    if parts.len() < 3 {
        return None;
    }
    assert(parts.deep_view()[2] =~= parts@[2]@);
    NetworkAddress::parse(parts[2].as_slice())
}

/// The default gateway of a routing table, if it has one.
pub fn find_gateway(table: &str) -> (r: Option<NetworkAddress>)
    ensures
        r == gateway_of(table@),
{
    let chars = to_chars(table);
    let rows = split_lines(chars.as_slice());
    let mut i: usize = 0;
    while i < rows.len()
        invariant
            i <= rows.len(),
            rows.deep_view() == lines(table@),
            forall|j: int| 0 <= j < i ==> route_answers(table@)[j] is None,
        decreases rows.len() - i,
    {
        assert(rows.deep_view()[i as int] =~= rows@[i as int]@);
        let found = answer_on_line(rows[i].as_slice());
        if found.is_some() {
            proof {
                lemma_first_some_at(route_answers(table@), i as int);
            }
            return found;
        }
        i += 1;
    }
    proof {
        lemma_first_some_none(route_answers(table@));
    }
    None
}

/// The default gateway according to the outcome of the routing-table
/// command.
pub fn locate_gateway(outcome: &Outcome) -> (r: Result<NetworkAddress, Failure>)
    ensures
        r == located_gateway(outcome@),
{
    match outcome {
        Outcome::Exited { output, .. } => match find_gateway(output.as_str()) {
            Some(gateway) => Ok(gateway),
            None => Err(Failure::GatewayNotFound),
        },
        _ => Err(Failure::GatewayNotFound),
    }
}

/// Where a line names a gateway and no line before it does, that gateway is
/// the default gateway of the table.
pub proof fn lemma_gateway_first_route(table: Seq<char>, k: int)
    requires
        0 <= k < lines(table).len(),
        route_answer(lines(table)[k]) is Some,
        forall|j: int| 0 <= j < k ==> route_answer(lines(table)[j]) is None,
    ensures
        gateway_of(table) == route_answer(lines(table)[k]),
{
    lemma_first_some_at(route_answers(table), k);
}

/// A line made of the marker, a space, the text of an address and then
/// nothing or anything that begins with whitespace names that address.
pub proof fn lemma_route_line(a: NetworkAddress, rest: Seq<char>)
    requires
        rest.len() > 0 ==> is_space(rest[0]),
    ensures
        route_answer("default via "@ + a.text() + rest) == Some(a),
{
    reveal_strlit("default via ");
    reveal_strlit("default via");
    let line = "default via "@ + a.text() + rest;
    let first = seq!['d', 'e', 'f', 'a', 'u', 'l', 't'];
    let second = seq!['v', 'i', 'a'];
    let tail = a.text() + rest;
    assert(line.subrange(0, 11) =~= route_marker());
    lemma_text_chars(a);
    lemma_fields_token(a.text(), rest);
    lemma_fields_space(' ', tail);
    lemma_fields_token(second, seq![' '] + tail);
    lemma_fields_space(' ', second + (seq![' '] + tail));
    lemma_fields_token(first, seq![' '] + (second + (seq![' '] + tail)));
    assert(line =~= first + (seq![' '] + (second + (seq![' '] + tail))));
    assert(fields(line) =~= seq![first] + (seq![second] + (seq![a.text()] + fields(rest))));
    lemma_address_of_text(a);
}

/// A table with a line made of the marker, a space and the text of an
/// address, followed by nothing or by anything that begins with whitespace,
/// has that address as its default gateway, unless a line before it names a
/// gateway.
pub proof fn lemma_gateway_of_route(table: Seq<char>, k: int, a: NetworkAddress, rest: Seq<char>)
    requires
        0 <= k < lines(table).len(),
        lines(table)[k] == "default via "@ + a.text() + rest,
        rest.len() > 0 ==> is_space(rest[0]),
        forall|j: int| 0 <= j < k ==> route_answer(lines(table)[j]) is None,
    ensures
        gateway_of(table) == Some(a),
{
    lemma_route_line(a, rest);
    lemma_gateway_first_route(table, k);
}

/// A table without a line that begins with the marker has no default
/// gateway.
pub proof fn lemma_gateway_absent(table: Seq<char>)
    requires
        forall|k: int| 0 <= k < lines(table).len() ==> !has_prefix(lines(table)[k], route_marker()),
    ensures
        gateway_of(table) is None,
{
    lemma_first_some_none(route_answers(table));
}

/// A table whose lines that begin with the marker all have fewer than three
/// fields has no default gateway.
pub proof fn lemma_gateway_short_route(table: Seq<char>)
    requires
        forall|k: int|
            0 <= k < lines(table).len() && has_prefix(#[trigger] lines(table)[k], route_marker())
                ==> fields(lines(table)[k]).len() < 3,
    ensures
        gateway_of(table) is None,
{
    lemma_first_some_none(route_answers(table));
}

/// A table has no default gateway exactly where none of its lines that
/// begin with the marker has a third field that denotes an address.
pub proof fn lemma_gateway_unreadable(table: Seq<char>)
    ensures
        gateway_of(table) is None <==> forall|k: int|
            0 <= k < lines(table).len() && has_prefix(#[trigger] lines(table)[k], route_marker())
                && fields(lines(table)[k]).len() >= 3 ==> address_of(fields(lines(table)[k])[2])
                is None,
{
    lemma_first_some_none(route_answers(table));
    if gateway_of(table) is None {
        assert forall|k: int|
            0 <= k < lines(table).len() && has_prefix(#[trigger] lines(table)[k], route_marker())
                && fields(lines(table)[k]).len() >= 3 implies address_of(
            fields(lines(table)[k])[2],
        ) is None by {
            assert(route_answers(table)[k] is None);
        }
    } else {
        let k = choose|k: int| 0 <= k < route_answers(table).len() && !(route_answers(table)[k]
            is None);
        assert(route_answer(lines(table)[k]) is Some);
    }
}

} // verus!
