//! Length-prefixed fields: the one building block of every record on the wire.
//!
//! A field is eight bytes that hold the length of its content as a
//! little-endian number, followed by the content.

use vstd::prelude::*;
use vstd::bytes::*;
use vstd::slice::*;
use vstd::utf8::*;

verus! {

/// The number of bytes in a length prefix.
pub const PREFIX_LEN: usize = 8;

/// The bytes of one field whose content is `data`.
pub open spec fn frame(data: Seq<u8>) -> Seq<u8> {
    spec_u64_to_le_bytes(data.len() as u64) + data
}

/// The content of the field that opens `input` and what follows the field, or
/// `None` where `input` is shorter than its prefix or than the length it announces.
pub open spec fn unframe(input: Seq<u8>) -> Option<(Seq<u8>, Seq<u8>)> {
    if input.len() < 8 {
        None
    } else {
        let n = spec_u64_from_le_bytes(input.subrange(0, 8)) as int;
        if input.len() - 8 < n {
            None
        } else {
            Some((input.subrange(8, 8 + n), input.subrange(8 + n, input.len() as int)))
        }
    }
}

/// A field is read back as it was written, whatever follows it.
pub proof fn lemma_unframe_frame(data: Seq<u8>, rest: Seq<u8>)
    requires
        data.len() <= u64::MAX,
    ensures
        unframe(frame(data) + rest) == Some((data, rest)),
        frame(data).len() == 8 + data.len(),
{
    lemma_auto_spec_u64_to_from_le_bytes();
    let prefix = spec_u64_to_le_bytes(data.len() as u64);
    let input = frame(data) + rest;
    assert(input.subrange(0, 8) =~= prefix);
    assert(input.subrange(8, 8 + data.len() as int) =~= data);
    assert(input.subrange(8 + data.len() as int, input.len() as int) =~= rest);
}

/// Whatever a field is read from is that field as it would be written,
/// followed by what was left over: no two inputs read alike.
pub proof fn lemma_frame_unframe(input: Seq<u8>)
    requires
        unframe(input) is Some,
    ensures
        input == frame(unframe(input).unwrap().0) + unframe(input).unwrap().1,
        unframe(input).unwrap().0.len() <= u64::MAX,
        unframe(input).unwrap().0.len() + unframe(input).unwrap().1.len() + 8 == input.len(),
{
    lemma_auto_spec_u64_to_from_le_bytes();
    let prefix = input.subrange(0, 8);
    let (data, rest) = unframe(input).unwrap();
    assert(spec_u64_to_le_bytes(spec_u64_from_le_bytes(prefix)) == prefix);
    assert(input =~= prefix + data + rest);
}

/// Appends `data` to `out`.
pub fn append(out: &mut Vec<u8>, data: &[u8])
    ensures
        final(out)@ == old(out)@ + data@,
{
    let mut i: usize = 0;
    while i < data.len()
        invariant
            i <= data.len(),
            out@ == old(out)@ + data@.subrange(0, i as int),
        decreases data.len() - i,
    {
        out.push(data[i]);
        i += 1;
        assert(out@ =~= old(out)@ + data@.subrange(0, i as int));
    }
    assert(data@.subrange(0, data@.len() as int) =~= data@);
}

/// Appends to `out` the field whose content is `data`.
pub fn write_frame(out: &mut Vec<u8>, data: &[u8])
    ensures
        final(out)@ == old(out)@ + frame(data@),
        data@.len() <= u64::MAX,
{
    let prefix = u64_to_le_bytes(data.len() as u64);
    append(out, prefix.as_slice());
    append(out, data);
    assert(out@ =~= old(out)@ + frame(data@));
}

/// Reads the field that starts at `start`: the bounds of its content in
/// `input`, the second of which is also where the next field starts.
pub fn read_frame(input: &[u8], start: usize) -> (r: Option<(usize, usize)>)
    ensures
        start > input@.len() ==> r is None,
        start <= input@.len() ==> match unframe(input@.subrange(start as int, input@.len() as int)) {
            None => r is None,
            Some((data, rest)) => {
                &&& r is Some
                &&& r.unwrap().0 == start + 8
                &&& r.unwrap().0 <= r.unwrap().1 <= input@.len()
                &&& input@.subrange(r.unwrap().0 as int, r.unwrap().1 as int) == data
                &&& input@.subrange(r.unwrap().1 as int, input@.len() as int) == rest
            },
        },
{
    let len = input.len();
    if start > len || len - start < PREFIX_LEN {
        return None;
    }
    let ghost tail = input@.subrange(start as int, len as int);
    let prefix = slice_subrange(input, start, start + PREFIX_LEN);
    assert(prefix@ =~= tail.subrange(0, 8));
    let n = u64_from_le_bytes(prefix);
    let room = len - start - PREFIX_LEN;
    if n > room as u64 {
        return None;
    }
    let from = start + PREFIX_LEN;
    let to = from + n as usize;
    assert(input@.subrange(from as int, to as int) =~= tail.subrange(8, 8 + n as int));
    assert(input@.subrange(to as int, len as int) =~= tail.subrange(8 + n as int, tail.len() as int));
    Some((from, to))
}

/// `String::from_utf8`: a string exactly when the bytes are well-formed UTF-8,
/// and then the string that those bytes encode.
#[verifier::external_body]
fn string_from_utf8(bytes: Vec<u8>) -> (r: Option<String>)
    ensures
        r is Some <==> valid_utf8(bytes@),
        r is Some ==> r.unwrap()@ == decode_utf8(bytes@),
{
    String::from_utf8(bytes).ok()
}

/// The text that `input[from..to]` encodes, or `None` where those bytes are
/// not well-formed UTF-8 or the bounds do not lie in `input`.
pub fn read_text(input: &[u8], from: usize, to: usize) -> (r: Option<String>)
    ensures
        !(from <= to <= input@.len()) ==> r is None,
        from <= to <= input@.len() ==> {
            &&& r is Some <==> valid_utf8(input@.subrange(from as int, to as int))
            &&& r is Some ==> r.unwrap()@ == decode_utf8(input@.subrange(from as int, to as int))
        },
{
    if from > to || to > input.len() {
        return None;
    }
    string_from_utf8(slice_to_vec(slice_subrange(input, from, to)))
}

} // verus!
