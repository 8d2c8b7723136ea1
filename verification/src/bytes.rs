//! Comma-separated byte lists.

use crate::error::{QspiError, QspiErrorView};
use vstd::prelude::*;

verus! {

/// One field of a byte list: its text, and the byte that the text stands for
/// where it stands for one.
pub struct Field<'a> {
    pub text: &'a str,
    pub value: Option<u8>,
}

impl<'a> DeepView for Field<'a> {
    type V = (Seq<char>, Option<u8>);

    open spec fn deep_view(&self) -> (Seq<char>, Option<u8>) {
        (self.text@, self.value)
    }
}

/// The fields of `s`: the pieces between its commas, in order.
pub open spec fn fields(s: Seq<char>) -> Seq<Seq<char>>
    decreases s.len(),
{
    if s.len() == 0 {
        seq![Seq::empty()]
    } else {
        let before = fields(s.drop_last());
        if s.last() == ',' {
            before.push(Seq::empty())
        } else {
            before.drop_last().push(before.last().push(s.last()))
        }
    }
}

/// The parts with a comma between each two.
pub open spec fn joined(parts: Seq<Seq<char>>) -> Seq<char>
    decreases parts.len(),
{
    if parts.len() == 0 {
        Seq::empty()
    } else if parts.len() == 1 {
        parts[0]
    } else {
        joined(parts.drop_last()) + seq![','] + parts.last()
    }
}

/// A list has at least one field, no field holds a comma, and the fields
/// with commas between them are the list again.
pub proof fn lemma_fields_rejoin(list: Seq<char>)
    ensures
        fields(list).len() >= 1,
        joined(fields(list)) == list,
        forall|i: int, j: int|
            0 <= i < fields(list).len() && 0 <= j < fields(list)[i].len() ==> fields(list)[i][j]
                != ',',
    decreases list.len(),
{
    if list.len() > 0 {
        let before = fields(list.drop_last());
        let all = fields(list);
        lemma_fields_rejoin(list.drop_last());
        if list.last() == ',' {
            assert(all.drop_last() =~= before);
        } else if before.len() > 1 {
            assert(all.drop_last() =~= before.drop_last());
            assert(joined(all) =~= joined(before).push(list.last()));
        }
    }
}

/// Splitting undoes joining: parts without a comma in them are the fields of
/// what they give when joined. With `lemma_fields_rejoin` this makes the
/// fields of a list the one way to cut it at every comma.
pub proof fn lemma_fields_of_joined(parts: Seq<Seq<char>>)
    requires
        parts.len() >= 1,
        forall|i: int, j: int| 0 <= i < parts.len() && 0 <= j < parts[i].len() ==> parts[i][j] != ',',
    ensures
        fields(joined(parts)) == parts,
    decreases parts.len(), parts.last().len(),
{
    let tail = parts.last();
    if tail.len() > 0 {
        let shorter = parts.drop_last().push(tail.drop_last());
        lemma_fields_of_joined(shorter);
        assert(shorter.drop_last() =~= parts.drop_last());
        assert(joined(parts).drop_last() =~= joined(shorter));
        assert(tail.drop_last().push(tail.last()) =~= tail);
    } else if parts.len() == 1 {
        assert(joined(parts) =~= Seq::<char>::empty());
    } else {
        let front = parts.drop_last();
        lemma_fields_of_joined(front);
        assert(joined(parts).drop_last() =~= joined(front));
        assert(tail =~= Seq::<char>::empty());
    }
}

/// Splits a list at its commas. Each field is cut out by its character
/// positions, which costs a pass over the list for every field; byte lists
/// are short.
pub fn split_fields<'a>(list: &'a str) -> (tokens: Vec<&'a str>)
    ensures
        tokens.deep_view() == fields(list@),
{
    broadcast use vstd::string::group_string_axioms;
    let n = list.unicode_len();
    let mut tokens: Vec<&'a str> = Vec::new();
    let mut start: usize = 0;
    let mut i: usize = 0;
    proof {
        assert(list@.subrange(0, 0) =~= Seq::<char>::empty());
    }
    for c in it: list.chars()
        invariant
            n == list@.len(),
            it.seq() == list@,
            i == it.index(),
            start <= i <= n,
            fields(list@.take(i as int)) == tokens.deep_view().push(
                list@.subrange(start as int, i as int),
            ),
    {
        let ghost current = list@.subrange(start as int, i as int);
        proof {
            assert(list@.take(i as int + 1).drop_last() =~= list@.take(i as int));
        }
        if c == ',' {
            tokens.push(list.substring_char(start, i));
            start = i + 1;
            proof {
                assert(list@.subrange(start as int, i as int + 1) =~= Seq::<char>::empty());
            }
        } else {
            proof {
                assert(list@.subrange(start as int, i as int + 1) =~= current.push(c));
            }
        }
        i = i + 1;
    }
    tokens.push(list.substring_char(start, n));
    proof {
        assert(list@.take(n as int) =~= list@);
    }
    tokens
}

/// The byte that `parse_int::parse::<u8>` reads from a field, `None` where it
/// reports an error. It ignores white space around the field and underscores
/// in it, and takes the prefixes `0x`, `0o` and `0b` for the base.
pub uninterp spec fn parsed_byte(field: Seq<char>) -> Option<u8>;

/// Calls `parse_int::parse::<u8>`, which computes its result from the
/// characters of `field` alone and returns an error rather than panic. The
/// contract gives that result its name and claims nothing more of it.
#[verifier::external_body]
fn parse_byte(field: &str) -> (value: Option<u8>)
    ensures
        value == parsed_byte(field@),
{
    match parse_int::parse::<u8>(field) {
        Ok(byte) => Some(byte),
        Err(_) => None,
    }
}

/// Each text with the byte it stands for.
pub open spec fn evaluated(texts: Seq<Seq<char>>) -> Seq<(Seq<char>, Option<u8>)> {
    texts.map_values(|text: Seq<char>| (text, parsed_byte(text)))
}

/// The bytes of `fields` in order where every field has one; else the error
/// that names the first field without.
pub open spec fn collected(fields: Seq<(Seq<char>, Option<u8>)>) -> Result<Seq<u8>, QspiErrorView>
    decreases fields.len(),
{
    if fields.len() == 0 {
        Ok(Seq::empty())
    } else {
        match collected(fields.drop_last()) {
            Err(error) => Err(error),
            Ok(bytes) => match fields.last().1 {
                Some(byte) => Ok(bytes.push(byte)),
                None => Err(QspiErrorView::InvalidByte(fields.last().0)),
            },
        }
    }
}

/// What a byte list stands for: the bytes of its fields, or the error that
/// names its first field that is no byte.
pub open spec fn byte_list(list: Seq<char>) -> Result<Seq<u8>, QspiErrorView> {
    collected(evaluated(fields(list)))
}

/// `collected` succeeds exactly where every field has a byte, and then gives
/// one byte for each field, in the order of the fields.
pub proof fn lemma_collected_bytes(fields: Seq<(Seq<char>, Option<u8>)>)
    ensures
        collected(fields) is Ok <==> forall|i: int| 0 <= i < fields.len() ==> fields[i].1 is Some,
        collected(fields) matches Ok(bytes) ==> bytes.len() == fields.len() && forall|i: int|
            0 <= i < fields.len() ==> fields[i].1 == Some(#[trigger] bytes[i]),
    decreases fields.len(),
{
    if fields.len() > 0 {
        let front = fields.drop_last();
        lemma_collected_bytes(front);
        if collected(front) is Ok {
            assert forall|i: int| 0 <= i < fields.len() - 1 implies fields[i].1 is Some by {
                assert(front[i] == fields[i]);
            }
        }
    }
}

/// `collected` fails with the error that names the first field without a
/// byte, whatever follows that field.
pub proof fn lemma_collected_names_first_gap(fields: Seq<(Seq<char>, Option<u8>)>, gap: int)
    requires
        0 <= gap < fields.len(),
        fields[gap].1 is None,
        forall|i: int| 0 <= i < gap ==> fields[i].1 is Some,
    ensures
        collected(fields) == Err::<Seq<u8>, QspiErrorView>(QspiErrorView::InvalidByte(fields[gap].0)),
{
    let front = fields.take(gap);
    let upto = fields.take(gap + 1);
    lemma_collected_bytes(front);
    assert(upto.drop_last() =~= front);
    lemma_collected_fails_for_good(fields, gap + 1);
}

/// Gathers the bytes of `fields`, or fails on the first field that has none.
pub fn collect_bytes(fields: &Vec<Field>) -> (result: Result<Vec<u8>, QspiError>)
    ensures
        result matches Ok(bytes) ==> collected(fields.deep_view()) == Ok::<Seq<u8>, QspiErrorView>(bytes@),
        result matches Err(error) ==> collected(fields.deep_view()) == Err::<Seq<u8>, QspiErrorView>(error@),
{
    let mut bytes: Vec<u8> = Vec::new();
    let n = fields.len();
    let mut i: usize = 0;
    while i < n
        invariant
            n == fields.len(),
            i <= n,
            collected(fields.deep_view().take(i as int)) == Ok::<Seq<u8>, QspiErrorView>(bytes@),
        decreases n - i,
    {
        proof {
            assert(fields.deep_view().take(i as int + 1).drop_last() =~= fields.deep_view().take(
                i as int,
            ));
        }
        match fields[i].value {
            Some(byte) => bytes.push(byte),
            None => {
                proof {
                    lemma_collected_fails_for_good(fields.deep_view(), i as int + 1);
                }
                return Err(QspiError::InvalidByte(fields[i].text.to_owned()));
            },
        }
        i = i + 1;
    }
    proof {
        assert(fields.deep_view().take(n as int) =~= fields.deep_view());
    }
    Ok(bytes)
}

/// Once a front part of `fields` has failed, the whole fails in the same way.
proof fn lemma_collected_fails_for_good(fields: Seq<(Seq<char>, Option<u8>)>, n: int)
    requires
        0 <= n <= fields.len(),
        collected(fields.take(n)) is Err,
    ensures
        collected(fields) == collected(fields.take(n)),
    decreases fields.len(),
{
    if n == fields.len() {
        assert(fields.take(n) =~= fields);
    } else {
        assert(fields.drop_last().take(n) =~= fields.take(n));
        lemma_collected_fails_for_good(fields.drop_last(), n);
    }
}

/// Reads a comma-separated list of bytes.
pub fn parse_bytes(list: &str) -> (result: Result<Vec<u8>, QspiError>)
    ensures
        result matches Ok(bytes) ==> byte_list(list@) == Ok::<Seq<u8>, QspiErrorView>(bytes@),
        result matches Err(error) ==> byte_list(list@) == Err::<Seq<u8>, QspiErrorView>(error@),
{
    let texts = split_fields(list);
    let mut fields: Vec<Field> = Vec::new();
    let n = texts.len();
    let mut i: usize = 0;
    while i < n
        invariant
            n == texts.len(),
            i <= n,
            fields.deep_view() == evaluated(texts.deep_view().take(i as int)),
        decreases n - i,
    {
        let ghost before = fields.deep_view();
        let text = texts[i];
        fields.push(Field { text, value: parse_byte(text) });
        proof {
            let next = texts.deep_view().take(i as int + 1);
            assert(fields.deep_view() =~= before.push((text@, parsed_byte(text@))));
            assert(evaluated(next) =~= evaluated(next.drop_last()).push(
                (text@, parsed_byte(text@)),
            ));
        }
        i = i + 1;
    }
    proof {
        assert(texts.deep_view().take(n as int) =~= texts.deep_view());
    }
    collect_bytes(&fields)
}

} // verus!
