//! Name resolution: the gateway's host name, read from the output of a
//! directory-service lookup or of a NetBIOS name query.

use crate::outcome::{Outcome, OutcomeView};
use crate::text::{
    contains, copy_range, fields, first_some, has_substring, is_space, is_token,
    lemma_fields_exist, lemma_fields_space, lemma_fields_token, lemma_first_some_at,
    lemma_first_some_none, line_end, lines, occurs_at, option_text, split_fields, split_lines,
    to_chars, to_text,
};
use vstd::prelude::*;

verus! {

/// The mark of a NetBIOS record of the workstation service.
pub open spec fn host_record_marker() -> Seq<char> {
    "<00>"@
}

/// The mark of a NetBIOS record that names a group.
pub open spec fn group_marker() -> Seq<char> {
    "GROUP"@
}

/// The host name in the output of a directory-service lookup: the second
/// field of its first line.
pub open spec fn directory_name_of(output: Seq<char>) -> Option<Seq<char>> {
    let rows = lines(output);
    if rows.len() > 0 && fields(rows[0]).len() >= 2 {
        Some(fields(rows[0])[1])
    } else {
        None
    }
}

/// The host name that one line of a NetBIOS name query gives: the first
/// field of a line that holds the host record mark and not the group mark.
pub open spec fn netbios_record(line: Seq<char>) -> Option<Seq<char>> {
    if has_substring(line, host_record_marker()) && !has_substring(line, group_marker()) {
        Some(fields(line)[0])
    } else {
        None
    }
}

/// What each line of a NetBIOS name query gives, line by line.
pub open spec fn netbios_records(output: Seq<char>) -> Seq<Option<Seq<char>>> {
    lines(output).map_values(|line: Seq<char>| netbios_record(line))
}

/// The host name in the output of a NetBIOS name query: what the first
/// line that gives a name gives.
pub open spec fn netbios_name_of(output: Seq<char>) -> Option<Seq<char>> {
    first_some(netbios_records(output))
}

/// The host name according to the outcome of the directory-service
/// lookup: the name in what the command wrote, if it exited successfully.
pub open spec fn directory_answer(directory: OutcomeView) -> Option<Seq<char>> {
    match directory {
        OutcomeView::Exited { success: true, output } => directory_name_of(output),
        _ => None,
    }
}

/// The host name according to the outcome of the NetBIOS name query: the
/// name in what the command wrote, however it exited.
pub open spec fn netbios_answer(netbios: OutcomeView) -> Option<Seq<char>> {
    match netbios {
        OutcomeView::Exited { output, .. } => netbios_name_of(output),
        _ => None,
    }
}

/// The host name according to both mechanisms: the answer of the directory
/// service where it has one, else that of the NetBIOS name query.
pub open spec fn resolved_name(directory: OutcomeView, netbios: OutcomeView) -> Option<Seq<char>> {
    match directory_answer(directory) {
        Some(name) => Some(name),
        None => netbios_answer(netbios),
    }
}

/// A line with the host record mark has a first field.
pub proof fn lemma_host_record_has_field(line: Seq<char>)
    requires
        has_substring(line, host_record_marker()),
    ensures
        fields(line).len() > 0,
{
    reveal_strlit("<00>");
    let at = choose|at: int| occurs_at(line, host_record_marker(), at);
    assert(line.subrange(at, at + 4)[0] == '<');
    lemma_fields_exist(line, at);
}

/// The host name in the output of a directory-service lookup.
pub fn directory_name(output: &str) -> (r: Option<String>)
    ensures
        option_text(r) == directory_name_of(output@),
{
    let chars = to_chars(output);
    if chars.len() == 0 {
        return None;
    }
    let end = line_end(chars.as_slice(), 0);
    let first = copy_range(chars.as_slice(), 0, end);
    proof {
        assert(chars@.skip(0) =~= chars@);
        assert(chars@.take(end as int) =~= first@);
        assert(lines(output@)[0] == first@);
    }
    let parts = split_fields(first.as_slice());
    if parts.len() < 2 {
        return None;
    }
    assert(parts.deep_view()[1] =~= parts@[1]@);
    Some(to_text(parts[1].as_slice()))
}

/// The host name that one line of a NetBIOS name query gives.
pub fn name_on_line(line: &[char]) -> (r: Option<String>)
    ensures
        option_text(r) == netbios_record(line@),
{
    let host_mark = to_chars("<00>");
    let group_mark = to_chars("GROUP");
    if !contains(line, host_mark.as_slice()) || contains(line, group_mark.as_slice()) {
        return None;
    }
    let parts = split_fields(line);
    proof {
        lemma_host_record_has_field(line@);
    }
    assert(parts.deep_view()[0] =~= parts@[0]@);
    Some(to_text(parts[0].as_slice()))
}

/// The host name in the output of a NetBIOS name query.
pub fn netbios_name(output: &str) -> (r: Option<String>)
    ensures
        option_text(r) == netbios_name_of(output@),
{
    let chars = to_chars(output);
    let rows = split_lines(chars.as_slice());
    let mut i: usize = 0;
    while i < rows.len()
        invariant
            i <= rows.len(),
            rows.deep_view() == lines(output@),
            forall|j: int| 0 <= j < i ==> netbios_records(output@)[j] is None,
        decreases rows.len() - i,
    {
        assert(rows.deep_view()[i as int] =~= rows@[i as int]@);
        let found = name_on_line(rows[i].as_slice());
        if found.is_some() {
            proof {
                lemma_first_some_at(netbios_records(output@), i as int);
            }
            return found;
        }
        i += 1;
    }
    proof {
        lemma_first_some_none(netbios_records(output@));
    }
    None
}

/// The host name according to the outcome of the directory-service lookup.
pub fn directory_result(directory: &Outcome) -> (r: Option<String>)
    ensures
        option_text(r) == directory_answer(directory@),
{
    match directory {
        Outcome::Exited { success, output } => {
            if *success {
                directory_name(output.as_str())
            } else {
                None
            }
        },
        _ => None,
    }
}

/// The host name according to the outcome of the NetBIOS name query.
pub fn netbios_result(netbios: &Outcome) -> (r: Option<String>)
    ensures
        option_text(r) == netbios_answer(netbios@),
{
    match netbios {
        Outcome::Exited { output, .. } => netbios_name(output.as_str()),
        _ => None,
    }
}

/// An output whose first line is two tokens with a space between them,
/// followed by nothing or by anything that begins with whitespace, holds
/// the second token as the host name.
pub proof fn lemma_directory_line(
    output: Seq<char>,
    address: Seq<char>,
    name: Seq<char>,
    rest: Seq<char>,
)
    requires
        lines(output).len() > 0,
        lines(output)[0] == address + seq![' '] + name + rest,
        is_token(address),
        is_token(name),
        rest.len() > 0 ==> is_space(rest[0]),
    ensures
        directory_name_of(output) == Some(name),
{
    let line = lines(output)[0];
    let tail = name + rest;
    lemma_fields_token(name, rest);
    lemma_fields_space(' ', tail);
    lemma_fields_token(address, seq![' '] + tail);
    assert(line =~= address + (seq![' '] + tail));
    assert(fields(line) =~= seq![address] + (seq![name] + fields(rest)));
}

/// A line that holds the host record mark and not the group mark, and that
/// is a token followed by whitespace and anything after it, gives that
/// token as the host name.
pub proof fn lemma_host_record_line(name: Seq<char>, rest: Seq<char>)
    requires
        is_token(name),
        rest.len() > 0 ==> is_space(rest[0]),
        has_substring(name + rest, host_record_marker()),
        !has_substring(name + rest, group_marker()),
    ensures
        netbios_record(name + rest) == Some(name),
{
    lemma_fields_token(name, rest);
}

/// Where the directory service answers, its answer is the host name,
/// whatever the NetBIOS name query would answer.
pub proof fn lemma_directory_preferred(directory: OutcomeView, netbios: OutcomeView)
    requires
        directory_answer(directory) is Some,
    ensures
        resolved_name(directory, netbios) == directory_answer(directory),
{
}

/// The host name is unknown exactly where neither mechanism answers.
pub proof fn lemma_name_unknown(directory: OutcomeView, netbios: OutcomeView)
    ensures
        resolved_name(directory, netbios) is None <==> directory_answer(directory) is None
            && netbios_answer(netbios) is None,
{
}

} // verus!
