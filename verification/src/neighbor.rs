//! Hardware-address resolution: the link-layer address of a host, read from
//! the text of the neighbor cache.

use crate::address::{is_digit, lemma_text_chars, NetworkAddress};
use crate::outcome::{result_text, Failure, Outcome, OutcomeView};
use crate::text::{
    contains, fields, first_some, has_substring, is_space, is_token, lemma_fields_are_tokens,
    lemma_fields_space, lemma_fields_token, lemma_first_some_at, lemma_first_some_none, lines,
    occurs_at, option_text, same_text, split_fields, split_lines, to_chars, to_text,
};
use vstd::prelude::*;

verus! {

/// The field that stands before the hardware address of a resolved entry.
pub open spec fn link_marker() -> Seq<char> {
    "lladdr"@
}

/// What one line of the neighbor cache says of the host whose address is
/// written `host`. A line that does not hold `host`, or has no field equal
/// to the marker, says nothing. Any other line answers: with the field
/// after the first marker, or with no hardware address where the marker is
/// the last field.
pub open spec fn neighbor_entry(line: Seq<char>, host: Seq<char>) -> Option<Option<Seq<char>>> {
    let parts = fields(line);
    match parts.index_of_first(link_marker()) {
        Some(at) if has_substring(line, host) => Some(
            if at + 1 < parts.len() {
                Some(parts[at + 1])
            } else {
                None
            },
        ),
        _ => None,
    }
}

/// What each line of the neighbor cache says of the host, line by line.
pub open spec fn neighbor_entries(cache: Seq<char>, host: Seq<char>) -> Seq<
    Option<Option<Seq<char>>>,
> {
    lines(cache).map_values(|line: Seq<char>| neighbor_entry(line, host))
}

/// The hardware address of a host according to the neighbor cache: the
/// answer of the first line that answers.
pub open spec fn hardware_of(cache: Seq<char>, address: NetworkAddress) -> Option<Seq<char>> {
    match first_some(neighbor_entries(cache, address.text())) {
        Some(answer) => answer,
        None => None,
    }
}

/// Whether the echo probe was sent: it was where its command ran, whatever
/// came of it.
pub open spec fn probe_sent(probe: OutcomeView) -> bool {
    probe is Exited
}

/// The hardware address of a host according to the outcome of the
/// neighbor-cache command: what the cache that the command wrote resolves,
/// however the command exited. Without such an address, and without a
/// command that ran, the hardware address is not found.
pub open spec fn resolved_hardware(cache: OutcomeView, address: NetworkAddress) -> Result<
    Seq<char>,
    Failure,
> {
    match cache {
        OutcomeView::Exited { output, .. } => match hardware_of(output, address) {
            Some(hardware) => Ok(hardware),
            None => Err(Failure::HardwareAddressNotFound),
        },
        _ => Err(Failure::HardwareAddressNotFound),
    }
}

/// What one line of the neighbor cache says of the host whose address is
/// written `host`.
pub fn entry_on_line(line: &[char], host: &[char]) -> (r: Option<Option<String>>)
    ensures
        match r {
            Some(answer) => neighbor_entry(line@, host@) == Some(option_text(answer)),
            None => neighbor_entry(line@, host@) is None,
        },
{
    let ghost parts_of_line = fields(line@);
    if !contains(line, host) {
        return None;
    }
    let marker = to_chars("lladdr");
    let parts = split_fields(line);
    let mut at: usize = 0;
    while at < parts.len()
        invariant
            at <= parts.len(),
            parts.deep_view() == parts_of_line,
            marker@ == link_marker(),
            has_substring(line@, host@),
            parts_of_line == fields(line@),
            forall|j: int| 0 <= j < at ==> parts_of_line[j] != link_marker(),
        decreases parts.len() - at,
    {
        assert(parts.deep_view()[at as int] =~= parts@[at as int]@);
        if same_text(parts[at].as_slice(), marker.as_slice()) {
            proof {
                parts_of_line.index_of_first_ensures(link_marker());
                assert(parts_of_line[at as int] == link_marker());
            }
            if parts.len() - at < 2 {
                return Some(None);
            }
            assert(parts.deep_view()[at + 1] =~= parts@[at + 1]@);
            return Some(Some(to_text(parts[at + 1].as_slice())));
        }
        at += 1;
    }
    proof {
        parts_of_line.index_of_first_ensures(link_marker());
    }
    None
}

/// The hardware address of the host at `address` according to the neighbor
/// cache, if the cache resolves it.
pub fn find_hardware_address(cache: &str, address: NetworkAddress) -> (r: Option<String>)
    ensures
        option_text(r) == hardware_of(cache@, address),
{
    let host = to_chars(address.to_text().as_str());
    let chars = to_chars(cache);
    let rows = split_lines(chars.as_slice());
    let mut i: usize = 0;
    while i < rows.len()
        invariant
            i <= rows.len(),
            host@ == address.text(),
            rows.deep_view() == lines(cache@),
            forall|j: int| 0 <= j < i ==> neighbor_entries(cache@, host@)[j] is None,
        decreases rows.len() - i,
    {
        assert(rows.deep_view()[i as int] =~= rows@[i as int]@);
        match entry_on_line(rows[i].as_slice(), host.as_slice()) {
            Some(answer) => {
                proof {
                    lemma_first_some_at(neighbor_entries(cache@, host@), i as int);
                }
                return answer;
            },
            None => {},
        }
        i += 1;
    }
    proof {
        lemma_first_some_none(neighbor_entries(cache@, host@));
    }
    None
}

/// Whether the echo probe was sent.
pub fn probe_was_sent(probe: &Outcome) -> (sent: bool)
    ensures
        sent == probe_sent(probe@),
{
    match probe {
        Outcome::Exited { .. } => true,
        _ => false,
    }
}

/// The hardware address of the host at `address` according to the outcome
/// of the neighbor-cache command.
pub fn resolve_hardware(cache: &Outcome, address: NetworkAddress) -> (r: Result<String, Failure>)
    ensures
        result_text(r) == resolved_hardware(cache@, address),
{
    match cache {
        Outcome::Exited { output, .. } => match find_hardware_address(output.as_str(), address) {
            Some(hardware) => Ok(hardware),
            None => Err(Failure::HardwareAddressNotFound),
        },
        _ => Err(Failure::HardwareAddressNotFound),
    }
}

/// Where a line answers and no line before it does, its answer is the
/// hardware address according to the cache.
pub proof fn lemma_neighbor_first_entry(cache: Seq<char>, address: NetworkAddress, k: int)
    requires
        0 <= k < lines(cache).len(),
        neighbor_entry(lines(cache)[k], address.text()) is Some,
        forall|j: int| 0 <= j < k ==> neighbor_entry(lines(cache)[j], address.text()) is None,
    ensures
        Some(hardware_of(cache, address)) == neighbor_entry(lines(cache)[k], address.text()),
{
    lemma_first_some_at(neighbor_entries(cache, address.text()), k);
}

/// A line made of the text of an address, ` dev `, a device name,
/// ` lladdr `, a hardware address and then nothing or anything that begins
/// with whitespace answers with that hardware address.
pub proof fn lemma_neighbor_line(
    a: NetworkAddress,
    device: Seq<char>,
    hardware: Seq<char>,
    rest: Seq<char>,
)
    requires
        is_token(device),
        device != link_marker(),
        is_token(hardware),
        rest.len() > 0 ==> is_space(rest[0]),
    ensures
        neighbor_entry(a.text() + " dev "@ + device + " lladdr "@ + hardware + rest, a.text())
            == Some(Some(hardware)),
{
    reveal_strlit(" dev ");
    reveal_strlit(" lladdr ");
    reveal_strlit("lladdr");
    let line = a.text() + " dev "@ + device + " lladdr "@ + hardware + rest;
    let dev = seq!['d', 'e', 'v'];
    let marker = seq!['l', 'l', 'a', 'd', 'd', 'r'];
    let space = seq![' '];
    assert(marker =~= link_marker());
    lemma_text_chars(a);
    let t5 = hardware + rest;
    let t4 = marker + (space + t5);
    let t3 = device + (space + t4);
    let t2 = dev + (space + t3);
    let t1 = a.text() + (space + t2);
    lemma_fields_token(hardware, rest);
    lemma_fields_space(' ', t5);
    lemma_fields_token(marker, space + t5);
    lemma_fields_space(' ', t4);
    lemma_fields_token(device, space + t4);
    lemma_fields_space(' ', t3);
    lemma_fields_token(dev, space + t3);
    lemma_fields_space(' ', t2);
    lemma_fields_token(a.text(), space + t2);
    assert(line =~= t1);
    let parts = fields(line);
    assert(parts =~= seq![a.text()] + (seq![dev] + (seq![device] + (seq![marker] + (seq![hardware]
        + fields(rest))))));
    assert(line.subrange(0, a.text().len() as int) =~= a.text());
    assert(occurs_at(line, a.text(), 0));
    parts.index_of_first_ensures(marker);
    assert(parts[3] == marker);
    assert(parts[0] != marker) by {
        assert(is_digit(a.text()[0]) || a.text()[0] == '.');
    }
    assert(parts[1] != marker);
}

/// A cache with a line made of the text of an address, ` dev `, a device
/// name, ` lladdr ` and a hardware address, followed by nothing or by
/// anything that begins with whitespace, resolves the address to that
/// hardware address, unless a line before it answers.
pub proof fn lemma_hardware_of_entry(
    cache: Seq<char>,
    k: int,
    a: NetworkAddress,
    device: Seq<char>,
    hardware: Seq<char>,
    rest: Seq<char>,
)
    requires
        0 <= k < lines(cache).len(),
        lines(cache)[k] == a.text() + " dev "@ + device + " lladdr "@ + hardware + rest,
        is_token(device),
        device != link_marker(),
        is_token(hardware),
        rest.len() > 0 ==> is_space(rest[0]),
        forall|j: int| 0 <= j < k ==> neighbor_entry(lines(cache)[j], a.text()) is None,
    ensures
        hardware_of(cache, a) == Some(hardware),
{
    lemma_neighbor_line(a, device, hardware, rest);
    lemma_neighbor_first_entry(cache, a, k);
}

/// A cache in which no line that holds the text of the address also holds
/// the marker resolves no hardware address.
pub proof fn lemma_neighbor_unresolved(cache: Seq<char>, address: NetworkAddress)
    requires
        forall|k: int|
            0 <= k < lines(cache).len() && has_substring(#[trigger] lines(cache)[k], address.text())
                ==> !has_substring(lines(cache)[k], link_marker()),
    ensures
        hardware_of(cache, address) is None,
{
    let entries = neighbor_entries(cache, address.text());
    assert forall|k: int| 0 <= k < entries.len() implies entries[k] is None by {
        let line = lines(cache)[k];
        let parts = fields(line);
        parts.index_of_first_ensures(link_marker());
        if parts.index_of_first(link_marker()) is Some {
            lemma_fields_are_tokens(line);
        }
    }
    lemma_first_some_none(entries);
}

} // verus!
