//! Comma-separated number lists, as given on the command line.
//!
//! A list is split at every comma. Each field is trimmed and must then be a
//! number; one bad field refuses the whole list. A lone `-` is no list at
//! all: it asks for the default.

use vstd::prelude::*;

verus! {

/// What `str::trim` returns for `text`: `text` without its leading and
/// trailing white space.
pub uninterp spec fn trimmed(text: Seq<char>) -> Seq<char>;

/// What `str::parse::<u64>` makes of `text`, `None` standing for every
/// error.
pub uninterp spec fn parsed_u64(text: Seq<char>) -> Option<u64>;

/// What `str::parse::<usize>` makes of `text`, `None` standing for every
/// error.
pub uninterp spec fn parsed_usize(text: Seq<char>) -> Option<usize>;

/// `str::trim`: the result is `trimmed` of the argument, a function of the
/// text alone.
#[verifier::external_body]
fn trim(text: &str) -> (core: &str)
    ensures
        core@ == trimmed(text@),
{
    text.trim()
}

/// `str::parse::<u64>`: the result is `parsed_u64` of the argument, a
/// function of the text alone; the kind of error is dropped.
#[verifier::external_body]
fn parse_u64(text: &str) -> (value: Option<u64>)
    ensures
        value == parsed_u64(text@),
{
    text.parse::<u64>().ok()
}

/// `str::parse::<usize>`: the result is `parsed_usize` of the argument, a
/// function of the text alone; the kind of error is dropped.
#[verifier::external_body]
fn parse_usize(text: &str) -> (value: Option<usize>)
    ensures
        value == parsed_usize(text@),
{
    text.parse::<usize>().ok()
}

/// The fields of `text`: the pieces between its commas, in order. A text
/// with `n` commas has `n + 1` fields, some of which may be empty.
pub open spec fn comma_fields(text: Seq<char>) -> Seq<Seq<char>>
    decreases text.len(),
{
    if text.len() == 0 {
        seq![Seq::empty()]
    } else {
        let before = comma_fields(text.drop_last());
        if text.last() == ',' {
            before.push(Seq::empty())
        } else {
            before.drop_last().push(before.last().push(text.last()))
        }
    }
}

/// The texts of `fields`.
pub open spec fn texts(fields: Seq<&str>) -> Seq<Seq<char>> {
    fields.map_values(|field: &str| field@)
}

/// Splits `text` at every comma.
pub fn split_fields(text: &str) -> (fields: Vec<&str>)
    ensures
        texts(fields@) == comma_fields(text@),
{
    let len = text.unicode_len();
    let mut fields: Vec<&str> = Vec::new();
    let mut start: usize = 0;
    let mut i: usize = 0;
    assert(text@.subrange(0, 0) == Seq::<char>::empty());
    while i < len
        invariant
            len == text@.len(),
            start <= i <= len,
            comma_fields(text@.take(i as int)) == texts(fields@).push(
                text@.subrange(start as int, i as int),
            ),
        decreases len - i,
    {
        let ghost open = text@.subrange(start as int, i as int);
        assert(text@.take(i as int + 1).drop_last() == text@.take(i as int));
        if text.get_char(i) == ',' {
            let field = text.substring_char(start, i);
            fields.push(field);
            start = i + 1;
            assert(text@.subrange(start as int, i as int + 1) == Seq::<char>::empty());
        } else {
            assert(text@.subrange(start as int, i as int + 1) == open.push(text@[i as int]));
        }
        i += 1;
    }
    assert(text@.take(len as int) == text@);
    let field = text.substring_char(start, len);
    fields.push(field);
    fields
}

/// The value of one field holding a `u64`: what is left after trimming must
/// not be empty and must parse.
pub open spec fn u64_field(field: Seq<char>) -> Option<u64> {
    if trimmed(field).len() == 0 {
        None
    } else {
        parsed_u64(trimmed(field))
    }
}

/// The value of one field holding a `usize`: what is left after trimming
/// must not be empty and must parse.
pub open spec fn usize_field(field: Seq<char>) -> Option<usize> {
    if trimmed(field).len() == 0 {
        None
    } else {
        parsed_usize(trimmed(field))
    }
}

/// Computes `u64_field`.
pub fn u64_of_field(field: &str) -> (value: Option<u64>)
    ensures
        value == u64_field(field@),
{
    let core = trim(field);
    if core.unicode_len() == 0 {
        None
    } else {
        parse_u64(core)
    }
}

/// Computes `usize_field`.
pub fn usize_of_field(field: &str) -> (value: Option<usize>)
    ensures
        value == usize_field(field@),
{
    let core = trim(field);
    if core.unicode_len() == 0 {
        None
    } else {
        parse_usize(core)
    }
}

/// The values of `parsed` if every one of them is there, nothing otherwise.
pub open spec fn all_values<T>(parsed: Seq<Option<T>>) -> Option<Seq<T>> {
    if forall|i: int| 0 <= i < parsed.len() ==> parsed[i] is Some {
        Some(parsed.map_values(|value: Option<T>| value->0))
    } else {
        None
    }
}

/// Computes `all_values`: one missing value refuses the whole list.
pub fn all_or_nothing<T: Copy>(parsed: &Vec<Option<T>>) -> (values: Option<Vec<T>>)
    ensures
        match values {
            Some(list) => all_values(parsed@) == Some(list@),
            None => all_values(parsed@) is None,
        },
{
    let mut list: Vec<T> = Vec::new();
    let mut i: usize = 0;
    while i < parsed.len()
        invariant
            i <= parsed.len(),
            forall|j: int| 0 <= j < i ==> parsed@[j] is Some,
            list@ == parsed@.take(i as int).map_values(|value: Option<T>| value->0),
        decreases parsed.len() - i,
    {
        match parsed[i] {
            Some(value) => {
                list.push(value);
            },
            None => {
                return None;
            },
        }
        i += 1;
    }
    Some(list)
}

/// Whether `text` is a lone `-`.
pub open spec fn is_dash(text: Seq<char>) -> bool {
    text == seq!['-']
}

/// What a list of `u64` says: nothing for a lone `-`; otherwise the values
/// of all its fields, unless one of them has none.
pub open spec fn u64_list(arg: Seq<char>) -> Option<Seq<u64>> {
    if is_dash(arg) {
        None
    } else {
        all_values(comma_fields(arg).map_values(|field: Seq<char>| u64_field(field)))
    }
}

/// What a list of `usize` says: nothing for a lone `-`; otherwise the
/// values of all its fields, unless one of them has none.
pub open spec fn usize_list(arg: Seq<char>) -> Option<Seq<usize>> {
    if is_dash(arg) {
        None
    } else {
        all_values(comma_fields(arg).map_values(|field: Seq<char>| usize_field(field)))
    }
}

/// Tells a lone `-` from everything else.
pub fn asks_for_default(arg: &str) -> (dash: bool)
    ensures
        dash == is_dash(arg@),
{
    let dash = arg.unicode_len() == 1 && arg.get_char(0) == '-';
    proof {
        if dash {
            assert(arg@ =~= seq!['-']);
        }
    }
    dash
}

/// Reads a comma-separated list of `u64`.
pub fn parse_u64_list(arg: &str) -> (values: Option<Vec<u64>>)
    ensures
        match values {
            Some(list) => u64_list(arg@) == Some(list@),
            None => u64_list(arg@) is None,
        },
{
    if asks_for_default(arg) {
        return None;
    }
    let fields = split_fields(arg);
    let mut parsed: Vec<Option<u64>> = Vec::new();
    let mut i: usize = 0;
    while i < fields.len()
        invariant
            i <= fields.len(),
            parsed@ == texts(fields@).take(i as int).map_values(
                |field: Seq<char>| u64_field(field),
            ),
        decreases fields.len() - i,
    {
        let value = u64_of_field(fields[i]);
        parsed.push(value);
        i += 1;
    }
    assert(texts(fields@).take(fields@.len() as int) == texts(fields@));
    all_or_nothing(&parsed)
}

/// Reads a comma-separated list of `usize`.
pub fn parse_usize_list(arg: &str) -> (values: Option<Vec<usize>>)
    ensures
        match values {
            Some(list) => usize_list(arg@) == Some(list@),
            None => usize_list(arg@) is None,
        },
{
    if asks_for_default(arg) {
        return None;
    }
    let fields = split_fields(arg);
    let mut parsed: Vec<Option<usize>> = Vec::new();
    let mut i: usize = 0;
    while i < fields.len()
        invariant
            i <= fields.len(),
            parsed@ == texts(fields@).take(i as int).map_values(
                |field: Seq<char>| usize_field(field),
            ),
        decreases fields.len() - i,
    {
        let value = usize_of_field(fields[i]);
        parsed.push(value);
        i += 1;
    }
    assert(texts(fields@).take(fields@.len() as int) == texts(fields@));
    all_or_nothing(&parsed)
}

} // verus!
