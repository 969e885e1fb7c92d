//! Text primitives shared by the parsers: whitespace, substring search,
//! lines and whitespace-separated fields, all over sequences of characters.

use vstd::prelude::*;

verus! {

/// `String::push` appends one character to the end of the string.
pub assume_specification[ String::push ](s: &mut String, c: char)
    ensures
        final(s)@ == old(s)@.push(c),
;

/// The characters that separate fields: those that Unicode classes as
/// `White_Space`.
pub open spec fn is_space(c: char) -> bool {
    let n = c as u32;
    ||| (0x09 <= n && n <= 0x0D)
    ||| n == 0x20
    ||| n == 0x85
    ||| n == 0xA0
    ||| n == 0x1680
    ||| (0x2000 <= n && n <= 0x200A)
    ||| n == 0x2028
    ||| n == 0x2029
    ||| n == 0x202F
    ||| n == 0x205F
    ||| n == 0x3000
}

/// Whether `needle` stands in `hay` at index `at`.
pub open spec fn occurs_at(hay: Seq<char>, needle: Seq<char>, at: int) -> bool {
    &&& 0 <= at
    &&& at + needle.len() <= hay.len()
    &&& hay.subrange(at, at + needle.len()) == needle
}

/// Whether `needle` stands somewhere in `hay`.
pub open spec fn has_substring(hay: Seq<char>, needle: Seq<char>) -> bool {
    exists|at: int| occurs_at(hay, needle, at)
}

/// Whether `hay` begins with `prefix`.
pub open spec fn has_prefix(hay: Seq<char>, prefix: Seq<char>) -> bool {
    occurs_at(hay, prefix, 0)
}

/// The number of characters of `s` that stand before its first line feed.
pub open spec fn line_len(s: Seq<char>) -> nat
    decreases s.len(),
{
    if s.len() == 0 || s[0] == '\n' {
        0
    } else {
        1 + line_len(s.skip(1))
    }
}

/// The lines of `s`: the runs of characters between line feeds. A line feed
/// at the very end of `s` opens no further line.
pub open spec fn lines(s: Seq<char>) -> Seq<Seq<char>>
    decreases s.len(),
{
    if s.len() == 0 {
        Seq::empty()
    } else {
        let n = line_len(s) as int;
        if n < s.len() {
            seq![s.take(n)] + lines(s.skip(n + 1))
        } else {
            seq![s]
        }
    }
}

/// The number of characters of `s` that stand before its first whitespace
/// character.
pub open spec fn token_len(s: Seq<char>) -> nat
    decreases s.len(),
{
    if s.len() == 0 || is_space(s[0]) {
        0
    } else {
        1 + token_len(s.skip(1))
    }
}

/// The fields of `s`: its maximal runs of characters that are not
/// whitespace, in order.
pub open spec fn fields(s: Seq<char>) -> Seq<Seq<char>>
    decreases s.len(),
{
    if s.len() == 0 {
        Seq::empty()
    } else if is_space(s[0]) {
        fields(s.skip(1))
    } else {
        proof {
            lemma_token_len(s);
        }
        let n = token_len(s) as int;
        seq![s.take(n)] + fields(s.skip(n))
    }
}

/// An index before which no line feed stands, and which is the end of `s`
/// or holds a line feed, is `line_len(s)`.
pub proof fn lemma_line_len_is(s: Seq<char>, n: int)
    requires
        0 <= n <= s.len(),
        forall|i: int| 0 <= i < n ==> s[i] != '\n',
        n < s.len() ==> s[n] == '\n',
    ensures
        line_len(s) == n,
    decreases s.len(),
{
    if n > 0 {
        let t = s.skip(1);
        assert forall|i: int| 0 <= i < n - 1 implies t[i] != '\n' by {
            assert(t[i] == s[i + 1]);
        }
        lemma_line_len_is(t, n - 1);
    }
}

/// `token_len(s)` is the index of the first whitespace character of `s`, or
/// the length of `s` where it holds none.
pub proof fn lemma_token_len(s: Seq<char>)
    ensures
        token_len(s) <= s.len(),
        forall|i: int| 0 <= i < token_len(s) ==> !is_space(s[i]),
        token_len(s) < s.len() ==> is_space(s[token_len(s) as int]),
    decreases s.len(),
{
    if s.len() == 0 || is_space(s[0]) {
    } else {
        let t = s.skip(1);
        lemma_token_len(t);
        assert forall|i: int| 0 <= i < token_len(s) implies !is_space(s[i]) by {
            if i > 0 {
                assert(t[i - 1] == s[i]);
            }
        }
    }
}

/// An index before which no whitespace stands, and which is the end of `s`
/// or holds whitespace, is `token_len(s)`.
pub proof fn lemma_token_len_is(s: Seq<char>, n: int)
    requires
        0 <= n <= s.len(),
        forall|i: int| 0 <= i < n ==> !is_space(s[i]),
        n < s.len() ==> is_space(s[n]),
    ensures
        token_len(s) == n,
    decreases s.len(),
{
    if n > 0 {
        let t = s.skip(1);
        assert forall|i: int| 0 <= i < n - 1 implies !is_space(t[i]) by {
            assert(t[i] == s[i + 1]);
        }
        lemma_token_len_is(t, n - 1);
    }
}

/// Whether a text is a token: one or more characters, none of them
/// whitespace.
pub open spec fn is_token(s: Seq<char>) -> bool {
    s.len() > 0 && forall|i: int| 0 <= i < s.len() ==> !is_space(s[i])
}

/// The characters of an optional string.
pub open spec fn option_text(s: Option<String>) -> Option<Seq<char>> {
    match s {
        Some(t) => Some(t@),
        None => None,
    }
}

/// The first value in a sequence of optional values, if it holds one.
pub open spec fn first_some<T>(s: Seq<Option<T>>) -> Option<T>
    decreases s.len(),
{
    if s.len() == 0 {
        None
    } else if s[0] is Some {
        s[0]
    } else {
        first_some(s.skip(1))
    }
}

/// An entry with a value, before which every entry is empty, is the first
/// value of the sequence.
pub proof fn lemma_first_some_at<T>(s: Seq<Option<T>>, k: int)
    requires
        0 <= k < s.len(),
        s[k] is Some,
        forall|j: int| 0 <= j < k ==> s[j] is None,
    ensures
        first_some(s) == s[k],
    decreases s.len(),
{
    if k > 0 {
        let t = s.skip(1);
        assert(s[0] is None);
        assert forall|j: int| 0 <= j < k - 1 implies t[j] is None by {
            assert(t[j] == s[j + 1]);
        }
        lemma_first_some_at(t, k - 1);
    }
}

/// A sequence has no first value exactly when all of its entries are empty.
pub proof fn lemma_first_some_none<T>(s: Seq<Option<T>>)
    ensures
        first_some(s) is None <==> forall|k: int| 0 <= k < s.len() ==> s[k] is None,
    decreases s.len(),
{
    if s.len() > 0 {
        let t = s.skip(1);
        lemma_first_some_none(t);
        if s[0] is None {
            if first_some(t) is None {
                assert forall|k: int| 0 <= k < s.len() implies s[k] is None by {
                    if k > 0 {
                        assert(t[k - 1] == s[k]);
                    }
                }
            } else {
                let k = choose|k: int| 0 <= k < t.len() && !(t[k] is None);
                assert(t[k] == s[k + 1]);
            }
        }
    }
}

/// A token followed by the end of the text or by whitespace is the first
/// field, and the fields of what follows come after it.
pub proof fn lemma_fields_token(token: Seq<char>, rest: Seq<char>)
    requires
        is_token(token),
        rest.len() > 0 ==> is_space(rest[0]),
    ensures
        fields(token + rest) == seq![token] + fields(rest),
{
    let s = token + rest;
    lemma_token_len_is(s, token.len() as int);
    assert(s.take(token.len() as int) =~= token);
    assert(s.skip(token.len() as int) =~= rest);
}

/// Whitespace before a text adds no field.
pub proof fn lemma_fields_space(c: char, rest: Seq<char>)
    requires
        is_space(c),
    ensures
        fields(seq![c] + rest) == fields(rest),
{
    assert((seq![c] + rest).skip(1) =~= rest);
}

/// Every field is a run of one or more characters of the text, none of them
/// whitespace.
pub proof fn lemma_fields_are_tokens(s: Seq<char>)
    ensures
        forall|k: int|
            0 <= k < fields(s).len() ==> is_token(#[trigger] fields(s)[k]) && has_substring(
                s,
                fields(s)[k],
            ),
    decreases s.len(),
{
    if s.len() == 0 {
    } else if is_space(s[0]) {
        let t = s.skip(1);
        lemma_fields_are_tokens(t);
        assert forall|k: int| 0 <= k < fields(s).len() implies has_substring(
            s,
            #[trigger] fields(s)[k],
        ) by {
            let f = fields(t)[k];
            let at = choose|at: int| occurs_at(t, f, at);
            assert(s.subrange(at + 1, at + 1 + f.len()) =~= t.subrange(at, at + f.len()));
            assert(occurs_at(s, f, at + 1));
        }
    } else {
        lemma_token_len(s);
        let n = token_len(s) as int;
        let t = s.skip(n);
        lemma_fields_are_tokens(t);
        assert forall|k: int| 0 <= k < fields(s).len() implies is_token(#[trigger] fields(s)[k])
            && has_substring(s, fields(s)[k]) by {
            if k == 0 {
                assert(s.subrange(0, n) =~= s.take(n));
                assert(occurs_at(s, s.take(n), 0));
            } else {
                let f = fields(t)[k - 1];
                assert(fields(s)[k] == f);
                let at = choose|at: int| occurs_at(t, f, at);
                assert(s.subrange(at + n, at + n + f.len()) =~= t.subrange(at, at + f.len()));
                assert(occurs_at(s, f, at + n));
            }
        }
    }
}

/// A text with a character that is not whitespace has a field.
pub proof fn lemma_fields_exist(s: Seq<char>, i: int)
    requires
        0 <= i < s.len(),
        !is_space(s[i]),
    ensures
        fields(s).len() > 0,
    decreases s.len(),
{
    if is_space(s[0]) {
        lemma_fields_exist(s.skip(1), i - 1);
    }
}

/// The characters of a string slice, in order.
pub fn to_chars(s: &str) -> (chars: Vec<char>)
    ensures
        chars@ == s@,
{
    let mut chars: Vec<char> = Vec::new();
    for c in it: s.chars()
        invariant
            chars@ == it.seq().take(it.index()),
    {
        chars.push(c);
    }
    chars
}

/// The string made of the given characters.
pub fn to_text(chars: &[char]) -> (s: String)
    ensures
        s@ == chars@,
{
    let mut s = String::new();
    let mut i: usize = 0;
    while i < chars.len()
        invariant
            i <= chars.len(),
            s@ == chars@.take(i as int),
        decreases chars.len() - i,
    {
        s.push(chars[i]);
        i += 1;
    }
    s
}

/// Whether a character separates fields.
pub fn is_whitespace(c: char) -> (b: bool)
    ensures
        b == is_space(c),
{
    let n: u32 = c as u32;
    (0x09 <= n && n <= 0x0D) || n == 0x20 || n == 0x85 || n == 0xA0 || n == 0x1680 || (0x2000 <= n
        && n <= 0x200A) || n == 0x2028 || n == 0x2029 || n == 0x202F || n == 0x205F || n == 0x3000
}

/// Whether `needle` stands in `hay` at index `at`.
pub fn occurs(hay: &[char], needle: &[char], at: usize) -> (b: bool)
    ensures
        b == occurs_at(hay@, needle@, at as int),
{
    if needle.len() > hay.len() || at > hay.len() - needle.len() {
        return false;
    }
    let mut j: usize = 0;
    while j < needle.len()
        invariant
            j <= needle.len(),
            at + needle.len() <= hay.len(),
            forall|k: int| 0 <= k < j ==> hay@[at + k] == needle@[k],
        decreases needle.len() - j,
    {
        if hay[at + j] != needle[j] {
            assert(hay@.subrange(at as int, at + needle@.len())[j as int] != needle@[j as int]);
            return false;
        }
        j += 1;
    }
    assert(hay@.subrange(at as int, at + needle@.len()) =~= needle@);
    true
}

/// Whether `hay` begins with `prefix`.
pub fn starts_with(hay: &[char], prefix: &[char]) -> (b: bool)
    ensures
        b == has_prefix(hay@, prefix@),
{
    occurs(hay, prefix, 0)
}

/// Whether `needle` stands somewhere in `hay`.
pub fn contains(hay: &[char], needle: &[char]) -> (b: bool)
    ensures
        b == has_substring(hay@, needle@),
{
    if needle.len() > hay.len() {
        return false;
    }
    if needle.len() == 0 {
        assert(occurs_at(hay@, needle@, 0)) by {
            assert(hay@.subrange(0, 0) =~= needle@);
        }
        return true;
    }
    let last: usize = hay.len() - needle.len();
    let mut at: usize = 0;
    while at <= last
        invariant
            at <= last + 1,
            last < hay.len(),
            last == hay.len() - needle.len(),
            forall|k: int| 0 <= k < at ==> !occurs_at(hay@, needle@, k),
        decreases last + 1 - at,
    {
        if occurs(hay, needle, at) {
            return true;
        }
        at += 1;
    }
    false
}

/// The characters of `s` from index `from` up to index `to`.
pub(crate) fn copy_range(s: &[char], from: usize, to: usize) -> (out: Vec<char>)
    requires
        from <= to <= s.len(),
    ensures
        out@ == s@.subrange(from as int, to as int),
{
    let mut out: Vec<char> = Vec::new();
    let mut i: usize = from;
    while i < to
        invariant
            from <= i <= to <= s.len(),
            out@ == s@.subrange(from as int, i as int),
        decreases to - i,
    {
        out.push(s[i]);
        i += 1;
    }
    out
}

/// The index at which the line that starts at index `from` of `s` ends.
pub(crate) fn line_end(s: &[char], from: usize) -> (end: usize)
    requires
        from <= s.len(),
    ensures
        from <= end <= s.len(),
        end - from == line_len(s@.skip(from as int)),
{
    let mut end: usize = from;
    while end < s.len() && s[end] != '\n'
        invariant
            from <= end <= s.len(),
            forall|i: int| from <= i < end ==> s@[i] != '\n',
        decreases s.len() - end,
    {
        end += 1;
    }
    proof {
        lemma_line_len_is(s@.skip(from as int), end - from);
    }
    end
}

/// The index at which the token that starts at index `from` of `s` ends.
pub(crate) fn token_end(s: &[char], from: usize) -> (end: usize)
    requires
        from <= s.len(),
    ensures
        from <= end <= s.len(),
        end - from == token_len(s@.skip(from as int)),
{
    let mut end: usize = from;
    while end < s.len() && !is_whitespace(s[end])
        invariant
            from <= end <= s.len(),
            forall|i: int| from <= i < end ==> !is_space(s@[i]),
        decreases s.len() - end,
    {
        end += 1;
    }
    proof {
        lemma_token_len_is(s@.skip(from as int), end - from);
    }
    end
}

/// The lines of `s`, in order.
pub fn split_lines(s: &[char]) -> (out: Vec<Vec<char>>)
    ensures
        out.deep_view() == lines(s@),
{
    let mut out: Vec<Vec<char>> = Vec::new();
    let mut pos: usize = 0;
    assert(s@.skip(0) =~= s@);
    assert(out.deep_view() + lines(s@) =~= lines(s@));
    while pos < s.len()
        invariant
            pos <= s.len(),
            lines(s@) == out.deep_view() + lines(s@.skip(pos as int)),
        decreases s.len() - pos,
    {
        let end = line_end(s, pos);
        let line = copy_range(s, pos, end);
        let next: usize = if end < s.len() {
            end + 1
        } else {
            end
        };
        proof {
            let rest = s@.skip(pos as int);
            assert(rest.take(end - pos) =~= line@);
            assert(line.deep_view() =~= line@);
            if end < s.len() {
                assert(rest.skip(end - pos + 1) =~= s@.skip(next as int));
            } else {
                assert(rest =~= line@);
                assert(lines(s@.skip(next as int)) =~= Seq::<Seq<char>>::empty());
            }
            assert(out.deep_view().push(line@) + lines(s@.skip(next as int)) =~= out.deep_view()
                + lines(rest));
        }
        let ghost before = out.deep_view();
        out.push(line);
        assert(out.deep_view() =~= before.push(line@));
        pos = next;
    }
    assert(lines(s@.skip(pos as int)) =~= Seq::<Seq<char>>::empty());
    out
}

/// The fields of `s`, in order.
pub fn split_fields(s: &[char]) -> (out: Vec<Vec<char>>)
    ensures
        out.deep_view() == fields(s@),
{
    let mut out: Vec<Vec<char>> = Vec::new();
    let mut pos: usize = 0;
    assert(s@.skip(0) =~= s@);
    assert(out.deep_view() + fields(s@) =~= fields(s@));
    while pos < s.len()
        invariant
            pos <= s.len(),
            fields(s@) == out.deep_view() + fields(s@.skip(pos as int)),
        decreases s.len() - pos,
    {
        let ghost rest = s@.skip(pos as int);
        if is_whitespace(s[pos]) {
            assert(rest.skip(1) =~= s@.skip(pos + 1));
            pos += 1;
        } else {
            let end = token_end(s, pos);
            let field = copy_range(s, pos, end);
            proof {
                assert(rest.take(end - pos) =~= field@);
                assert(field.deep_view() =~= field@);
                assert(rest.skip(end - pos) =~= s@.skip(end as int));
                assert(out.deep_view().push(field@) + fields(s@.skip(end as int))
                    =~= out.deep_view() + fields(rest));
            }
            let ghost before = out.deep_view();
            out.push(field);
            assert(out.deep_view() =~= before.push(field@));
            pos = end;
        }
    }
    assert(fields(s@.skip(pos as int)) =~= Seq::<Seq<char>>::empty());
    out
}

/// Whether two character sequences are equal.
pub fn same_text(a: &[char], b: &[char]) -> (eq: bool)
    ensures
        eq == (a@ == b@),
{
    assert(a@.subrange(0, a@.len() as int) =~= a@);
    a.len() == b.len() && occurs(a, b, 0)
}

} // verus!
