//! The header with which the sharing side names the file it serves, and
//! what the downloading side reads out of it.
//!
//! The header's value is `attachment; filename="<name>"`. A `"` inside the
//! name is written `%22`, so that the value holds no quote but the two that
//! enclose the name.

use crate::text::{
    chars_of, contains_text, ends_with, find_first, find_last, first_index_of, is_last_occurrence,
    last_occurrence, lemma_first_index_is, lemma_last_occurrence, occurs_at, push_range, push_str,
    string_of,
};
use vstd::prelude::*;

verus! {

/// The name of the header.
pub const HEADER_NAME: &'static str = "Content-Disposition";

/// What introduces the name in a header value.
pub open spec fn filename_marker() -> Seq<char> {
    "filename=\""@
}

/// What a header value starts with.
pub open spec fn header_prefix() -> Seq<char> {
    "attachment; filename=\""@
}

/// `s` up to its first `"`, or all of `s` where it holds none.
pub open spec fn quoted_value(s: Seq<char>) -> Seq<char> {
    s.take(first_index_of(s, '"'))
}

/// The name a header value suggests: what follows the last
/// `filename="` in it, up to the next `"`. A value without that marker
/// suggests nothing.
pub open spec fn suggested_name(header: Seq<char>) -> Option<Seq<char>> {
    if contains_text(header, filename_marker()) {
        Some(
            quoted_value(
                header.skip(last_occurrence(header, filename_marker()) + filename_marker().len()),
            ),
        )
    } else {
        None
    }
}

/// `name` with each `"` written as `%22`.
pub open spec fn escaped(name: Seq<char>) -> Seq<char>
    decreases name.len(),
{
    if name.len() == 0 {
        Seq::empty()
    } else if name.last() == '"' {
        escaped(name.drop_last()) + seq!['%', '2', '2']
    } else {
        escaped(name.drop_last()).push(name.last())
    }
}

/// The header value that names `name`.
pub open spec fn header_value(name: Seq<char>) -> Seq<char> {
    header_prefix() + escaped(name) + seq!['"']
}

/// Reads the suggested name out of a header value.
pub fn read_filename(header: &str) -> (r: Option<String>)
    ensures
        match suggested_name(header@) {
            Some(name) => r matches Some(s) && s@ == name,
            None => r is None,
        },
{
    let text = chars_of(header);
    let marker = chars_of("filename=\"");
    match find_last(text.as_slice(), marker.as_slice()) {
        None => None,
        Some(i) => {
            proof {
                lemma_last_occurrence(text@, marker@, i as int);
            }
            let end_of_text = text.len();
            let mut rest: Vec<char> = Vec::new();
            push_range(&mut rest, text.as_slice(), i + marker.len(), end_of_text);
            assert(rest@ =~= text@.skip(i + marker@.len()));
            let end = find_first(rest.as_slice(), '"');
            let mut name: Vec<char> = Vec::new();
            push_range(&mut name, rest.as_slice(), 0, end);
            assert(name@ =~= rest@.take(end as int));
            Some(string_of(name.as_slice()))
        },
    }
}

/// Writes the header value that names `name`.
pub fn write_header(name: &str) -> (r: String)
    ensures
        r@ == header_value(name@),
{
    let text = chars_of(name);
    let mut value: Vec<char> = Vec::new();
    push_str(&mut value, "attachment; filename=\"");
    let ghost start = value@;
    let mut i: usize = 0;
    while i < text.len()
        invariant
            i <= text.len(),
            value@ == start + escaped(text@.take(i as int)),
        decreases text.len() - i,
    {
        let c = text[i];
        proof {
            let t = text@.take(i + 1);
            assert(t.drop_last() =~= text@.take(i as int));
            assert(t.last() == c);
        }
        if c == '"' {
            value.push('%');
            value.push('2');
            value.push('2');
            assert(value@ =~= start + escaped(text@.take(i + 1)));
        } else {
            value.push(c);
            assert(value@ =~= start + escaped(text@.take(i + 1)));
        }
        i = i + 1;
    }
    assert(text@.take(text.len() as int) =~= text@);
    value.push('"');
    assert(value@ =~= header_value(name@));
    string_of(value.as_slice())
}

/// An escaped name holds no quote.
pub proof fn lemma_escaped_has_no_quote(name: Seq<char>)
    ensures
        forall|i: int| 0 <= i < escaped(name).len() ==> escaped(name)[i] != '"',
    decreases name.len(),
{
    if name.len() > 0 {
        let rest = escaped(name.drop_last());
        lemma_escaped_has_no_quote(name.drop_last());
        assert forall|i: int| 0 <= i < escaped(name).len() implies escaped(name)[i] != '"' by {
            if i < rest.len() {
                assert(escaped(name)[i] == rest[i]);
            }
        }
    }
}

/// A name without a quote is escaped as it is.
pub proof fn lemma_escaped_plain(name: Seq<char>)
    requires
        !name.contains('"'),
    ensures
        escaped(name) == name,
    decreases name.len(),
{
    if name.len() > 0 {
        let rest = name.drop_last();
        assert(name.contains(name.last()));
        assert forall|i: int| 0 <= i < rest.len() implies rest[i] != '"' by {
            assert(name.contains(name[i]));
        }
        lemma_escaped_plain(rest);
        assert(rest.push(name.last()) =~= name);
    }
}

/// What the sharing side writes, the downloading side reads: the header
/// value that names a file suggests the escaped name. The one exception is
/// a name that ends with `filename=`, which together with the closing quote
/// reads as the start of another, empty name.
pub proof fn lemma_header_reads_back(name: Seq<char>)
    requires
        !ends_with(escaped(name), "filename="@),
    ensures
        suggested_name(header_value(name)) == Some(escaped(name)),
{
    reveal_strlit("filename=\"");
    reveal_strlit("attachment; filename=\"");
    reveal_strlit("filename=");
    let marker = filename_marker();
    let prefix = header_prefix();
    let tail = "filename="@;
    let written = escaped(name);
    let value = prefix + written + seq!['"'];
    lemma_escaped_has_no_quote(name);
    assert(value.subrange(12, 22) =~= marker);
    assert forall|j: int| 12 < j implies !occurs_at(value, marker, j) by {
        if occurs_at(value, marker, j) {
            let found = value.subrange(j, j + 10);
            assert(found[9] == '"');
            assert(value[j + 9] == '"');
            if j + 9 < 22 + written.len() {
                assert(value[j + 9] == written[j + 9 - 22]);
            } else if written.len() >= 9 {
                let end = written.subrange(written.len() - 9, written.len() as int);
                assert forall|k: int| 0 <= k < 9 implies end[k] == tail[k] by {
                    assert(found[k] == value[j + k]);
                    assert(value[j + k] == written[written.len() - 9 + k]);
                }
                assert(end =~= tail);
            } else {
                let k = 8 - written.len();
                assert(found[k] == value[21]);
            }
        }
    }
    assert(is_last_occurrence(value, marker, 12));
    lemma_last_occurrence(value, marker, 12);
    let rest = value.skip(22);
    assert(rest =~= written.push('"'));
    assert forall|j: int| 0 <= j < written.len() implies rest[j] != '"' by {
        assert(rest[j] == written[j]);
    }
    lemma_first_index_is(rest, '"', written.len() as int);
    assert(rest.take(written.len() as int) =~= written);
}

} // verus!
