//! Primitives of the versioned binary wire format: base-128 varints and
//! length-delimited fields, with exact encode specifications, decoders proved
//! against matching specification-level parsers, and round-trip lemmas.

use vstd::prelude::*;
use vstd::slice::{slice_subrange, slice_to_vec};
use vstd::string::StrSliceExecFns;
use vstd::utf8::{decode_utf8, encode_utf8, valid_utf8};

verus! {

/// The little-endian base-128 encoding of `n`: seven payload bits per byte,
/// the high bit marking continuation.
pub open spec fn spec_varint(n: u64) -> Seq<u8>
    decreases n,
{
    if n < 128 {
        seq![n as u8]
    } else {
        seq![(n % 128 + 128) as u8] + spec_varint(n / 128)
    }
}

/// What a varint parse of `s` at `pos` yields: the value and the position
/// after it, or nothing when the bytes are exhausted or the value overflows.
pub open spec fn spec_dec_varint(s: Seq<u8>, pos: int) -> Option<(u64, int)>
    decreases s.len() - pos,
{
    if pos < 0 || pos >= s.len() {
        None
    } else {
        let b = s[pos];
        if b < 128 {
            Some(((b as u64), pos + 1))
        } else {
            match spec_dec_varint(s, pos + 1) {
                None => None,
                Some((m, end)) => {
                    let value = (b - 128) as int + 128 * (m as int);
                    if value <= u64::MAX {
                        Some(((value as u64), end))
                    } else {
                        None
                    }
                },
            }
        }
    }
}

/// Decoding is left inverse to encoding, wherever an encoding sits in a
/// larger buffer.
pub proof fn lemma_varint_roundtrip(s: Seq<u8>, pos: int, n: u64)
    requires
        0 <= pos,
        pos + spec_varint(n).len() <= s.len(),
        s.subrange(pos, pos + spec_varint(n).len() as int) == spec_varint(n),
    ensures
        spec_dec_varint(s, pos) == Some((n, pos + spec_varint(n).len())),
    decreases n,
{
    let enc = spec_varint(n);
    if n < 128 {
        assert(s[pos] == enc[0]);
    } else {
        let rest = spec_varint(n / 128);
        assert(s[pos] == enc[0]);
        assert(s.subrange(pos + 1, pos + 1 + rest.len() as int) =~= enc.subrange(
            1,
            enc.len() as int,
        ));
        assert(enc.subrange(1, enc.len() as int) =~= rest);
        lemma_varint_roundtrip(s, pos + 1, n / 128);
        assert((s[pos] - 128) as int + 128 * ((n / 128) as int) == n as int) by {
            assert(n as int == 128 * ((n / 128) as int) + (n % 128) as int) by (nonlinear_arith);
        };
    }
}

/// Append the varint encoding of `n`.
pub fn push_varint(out: &mut Vec<u8>, n: u64)
    ensures
        final(out)@ == old(out)@ + spec_varint(n),
    decreases n,
{
    if n < 128 {
        out.push(n as u8);
        assert(final(out)@ =~= old(out)@ + spec_varint(n));
    } else {
        out.push((n % 128 + 128) as u8);
        push_varint(out, n / 128);
        assert(final(out)@ =~= old(out)@ + spec_varint(n));
    }
}

/// Parse a varint, exactly as the specification-level parser does.
pub fn read_varint(buf: &[u8], pos: usize) -> (r: Option<(u64, usize)>)
    ensures
        r matches Some(v) ==> spec_dec_varint(buf@, pos as int) == Some((v.0, v.1 as int)) && pos
            < v.1 <= buf.len(),
        r is None ==> spec_dec_varint(buf@, pos as int) is None,
    decreases buf.len() - pos,
{
    if pos >= buf.len() {
        return None;
    }
    let b = buf[pos];
    if b < 128 {
        Some((b as u64, pos + 1))
    } else {
        match read_varint(buf, pos + 1) {
            None => None,
            Some((m, end)) => {
                let low = (b - 128) as u64;
                if m <= (u64::MAX - low) / 128 {
                    assert(low + 128 * m <= u64::MAX) by (nonlinear_arith)
                        requires
                            m <= (u64::MAX - low) / 128,
                            low < 128,
                    ;
                    Some((low + 128 * m, end))
                } else {
                    assert((b - 128) as int + 128 * (m as int) > u64::MAX) by (nonlinear_arith)
                        requires
                            m > (u64::MAX - (b - 128) as u64) / 128,
                            128 <= b,
                    ;
                    None
                }
            },
        }
    }
}

/// A varint field: its key, then the value.
pub open spec fn spec_enc_varint_field(key: u8, n: u64) -> Seq<u8> {
    seq![key] + spec_varint(n)
}

/// What parsing a varint field under `key` yields.
pub open spec fn spec_dec_varint_field(s: Seq<u8>, pos: int, key: u8) -> Option<(u64, int)> {
    if 0 <= pos < s.len() && s[pos] == key {
        spec_dec_varint(s, pos + 1)
    } else {
        None
    }
}

/// Decoding a varint field is left inverse to encoding it.
pub proof fn lemma_varint_field_roundtrip(s: Seq<u8>, pos: int, key: u8, n: u64)
    requires
        0 <= pos,
        pos + spec_enc_varint_field(key, n).len() <= s.len(),
        s.subrange(pos, pos + spec_enc_varint_field(key, n).len() as int) == spec_enc_varint_field(
            key,
            n,
        ),
    ensures
        spec_dec_varint_field(s, pos, key) == Some(
            (n, pos + spec_enc_varint_field(key, n).len()),
        ),
{
    let enc = spec_enc_varint_field(key, n);
    assert(s[pos] == enc[0]);
    assert(s.subrange(pos + 1, pos + 1 + spec_varint(n).len() as int) =~= enc.subrange(
        1,
        enc.len() as int,
    ));
    assert(enc.subrange(1, enc.len() as int) =~= spec_varint(n));
    lemma_varint_roundtrip(s, pos + 1, n);
}

/// Append a varint field.
pub fn push_varint_field(out: &mut Vec<u8>, key: u8, n: u64)
    ensures
        final(out)@ == old(out)@ + spec_enc_varint_field(key, n),
{
    out.push(key);
    push_varint(out, n);
    assert(final(out)@ =~= old(out)@ + spec_enc_varint_field(key, n));
}

/// Parse a varint field, exactly as the specification-level parser does.
pub fn read_varint_field(buf: &[u8], pos: usize, key: u8) -> (r: Option<(u64, usize)>)
    requires
        pos <= buf.len(),
    ensures
        r matches Some(v) ==> (spec_dec_varint_field(buf@, pos as int, key) matches Some(sv)
            && sv.0 == v.0 && sv.1 == v.1 as int && pos < v.1 <= buf.len()),
        r is None ==> spec_dec_varint_field(buf@, pos as int, key) is None,
{
    if pos >= buf.len() || buf[pos] != key {
        return None;
    }
    read_varint(buf, pos + 1)
}

/// Relies on std's `String::from_utf8`: it succeeds exactly on valid UTF-8
/// and returns the string value those bytes encode.
#[verifier::external_body]
fn string_from_utf8(bytes: Vec<u8>) -> (r: Option<String>)
    ensures
        r is Some <==> valid_utf8(bytes@),
        r matches Some(s) ==> s@ == decode_utf8(bytes@),
{
    String::from_utf8(bytes).ok()
}

/// The wire form of a string value: its UTF-8 bytes, length-prefixed.
pub open spec fn spec_enc_lenstr(s: Seq<char>) -> Seq<u8> {
    spec_varint(encode_utf8(s).len() as u64) + encode_utf8(s)
}

/// What a length-prefixed string parse yields: nothing when the prefix
/// overruns the buffer or the bytes are not valid UTF-8.
pub open spec fn spec_dec_lenstr(s: Seq<u8>, pos: int) -> Option<(Seq<char>, int)> {
    match spec_dec_varint(s, pos) {
        None => None,
        Some((len, p)) => {
            if p + len <= s.len() && valid_utf8(s.subrange(p, p + len as int)) {
                Some((decode_utf8(s.subrange(p, p + len as int)), p + len))
            } else {
                None
            }
        },
    }
}

/// Decoding a length-prefixed string is left inverse to encoding it.
pub proof fn lemma_lenstr_roundtrip(s: Seq<u8>, pos: int, name: Seq<char>)
    requires
        0 <= pos,
        pos + spec_enc_lenstr(name).len() <= s.len(),
        s.subrange(pos, pos + spec_enc_lenstr(name).len() as int) == spec_enc_lenstr(name),
        encode_utf8(name).len() <= u64::MAX,
    ensures
        spec_dec_lenstr(s, pos) == Some((name, pos + spec_enc_lenstr(name).len())),
{
    broadcast use vstd::utf8::encode_utf8_valid_utf8;
    broadcast use vstd::utf8::encode_utf8_decode_utf8;

    let bytes = encode_utf8(name);
    let lenpart = spec_varint(bytes.len() as u64);
    let enc = spec_enc_lenstr(name);
    assert(s.subrange(pos, pos + lenpart.len() as int) =~= enc.subrange(0, lenpart.len() as int));
    assert(enc.subrange(0, lenpart.len() as int) =~= lenpart);
    lemma_varint_roundtrip(s, pos, bytes.len() as u64);
    let p = pos + lenpart.len();
    assert(s.subrange(p, p + bytes.len() as int) =~= enc.subrange(
        lenpart.len() as int,
        enc.len() as int,
    ));
    assert(enc.subrange(lenpart.len() as int, enc.len() as int) =~= bytes);
}

/// Append the length-prefixed UTF-8 form of `s`.
pub fn push_lenstr(out: &mut Vec<u8>, s: &String)
    ensures
        final(out)@ == old(out)@ + spec_enc_lenstr(s@),
{
    let mut bytes = s.as_str().as_bytes_vec();
    push_varint(out, bytes.len() as u64);
    out.append(&mut bytes);
    assert(final(out)@ =~= old(out)@ + spec_enc_lenstr(s@));
}

/// Parse a length-prefixed string, exactly as the specification-level
/// parser does.
pub fn read_lenstr(buf: &[u8], pos: usize) -> (r: Option<(String, usize)>)
    requires
        pos <= buf.len(),
    ensures
        r matches Some(v) ==> (spec_dec_lenstr(buf@, pos as int) matches Some(sv) && sv.0 == v.0@
            && sv.1 == v.1 as int && pos < v.1 <= buf.len()),
        r is None ==> spec_dec_lenstr(buf@, pos as int) is None,
{
    match read_varint(buf, pos) {
        None => None,
        Some((len, p)) => {
            if len <= (buf.len() - p) as u64 {
                let end = p + (len as usize);
                let sub = slice_subrange(buf, p, end);
                let bytes = slice_to_vec(sub);
                match string_from_utf8(bytes) {
                    Some(s) => Some((s, end)),
                    None => None,
                }
            } else {
                None
            }
        },
    }
}

/// The key of a length-delimited field: field number 1..=15, wire type 2.
pub open spec fn spec_msg_key(field: u8) -> u8
    recommends
        1 <= field <= 15,
{
    (field * 8 + 2) as u8
}

/// A message holding one string field (a label, an error, a destination):
/// field 1, length-delimited.
pub open spec fn spec_enc_name_msg(name: Seq<char>) -> Seq<u8> {
    seq![spec_msg_key(1)] + spec_enc_lenstr(name)
}

/// One such message, embedded as a length-delimited field under `key`.
pub open spec fn spec_enc_name_field(key: u8, name: Seq<char>) -> Seq<u8> {
    seq![key] + spec_varint(spec_enc_name_msg(name).len() as u64) + spec_enc_name_msg(name)
}

/// What parsing one embedded single-string message yields. The embedded
/// message must fill its announced length exactly.
pub open spec fn spec_dec_name_field(s: Seq<u8>, pos: int, key: u8) -> Option<(Seq<char>, int)> {
    if 0 <= pos < s.len() && s[pos] == key {
        match spec_dec_varint(s, pos + 1) {
            None => None,
            Some((blen, p)) => {
                if p + blen <= s.len() && p < s.len() && s[p] == spec_msg_key(1) {
                    match spec_dec_lenstr(s, p + 1) {
                        None => None,
                        Some((name, q)) => {
                            if q == p + blen {
                                Some((name, q))
                            } else {
                                None
                            }
                        },
                    }
                } else {
                    None
                }
            },
        }
    } else {
        None
    }
}

/// Decoding one embedded single-string message is left inverse to encoding.
pub proof fn lemma_name_field_roundtrip(s: Seq<u8>, pos: int, key: u8, name: Seq<char>)
    requires
        0 <= pos,
        pos + spec_enc_name_field(key, name).len() <= s.len(),
        s.subrange(pos, pos + spec_enc_name_field(key, name).len() as int) == spec_enc_name_field(
            key,
            name,
        ),
        spec_enc_name_msg(name).len() <= u64::MAX,
    ensures
        spec_dec_name_field(s, pos, key) == Some(
            (name, pos + spec_enc_name_field(key, name).len()),
        ),
{
    let body = spec_enc_name_msg(name);
    let lenpart = spec_varint(body.len() as u64);
    let enc = spec_enc_name_field(key, name);
    assert(s[pos] == enc[0]);
    assert(s.subrange(pos + 1, pos + 1 + lenpart.len() as int) =~= enc.subrange(
        1,
        1 + lenpart.len() as int,
    ));
    assert(enc.subrange(1, 1 + lenpart.len() as int) =~= lenpart);
    lemma_varint_roundtrip(s, pos + 1, body.len() as u64);
    let p = pos + 1 + lenpart.len();
    assert(s.subrange(p, p + body.len() as int) =~= enc.subrange(
        1 + lenpart.len() as int,
        enc.len() as int,
    ));
    assert(enc.subrange(1 + lenpart.len() as int, enc.len() as int) =~= body);
    assert(s[p] == body[0]);
    assert(s.subrange(p + 1, p + 1 + spec_enc_lenstr(name).len() as int) =~= body.subrange(
        1,
        body.len() as int,
    ));
    assert(body.subrange(1, body.len() as int) =~= spec_enc_lenstr(name));
    assert(encode_utf8(name).len() <= u64::MAX);
    lemma_lenstr_roundtrip(s, p + 1, name);
}

/// Append one embedded single-string message under `key`.
pub fn push_name_field(out: &mut Vec<u8>, key: u8, name: &String)
    ensures
        final(out)@ == old(out)@ + spec_enc_name_field(key, name@),
{
    let mut body: Vec<u8> = Vec::new();
    body.push(10);
    push_lenstr(&mut body, name);
    assert(body@ =~= spec_enc_name_msg(name@));
    out.push(key);
    push_varint(out, body.len() as u64);
    out.append(&mut body);
    assert(final(out)@ =~= old(out)@ + spec_enc_name_field(key, name@));
}

/// Parse one embedded single-string message, exactly as the
/// specification-level parser does.
pub fn read_name_field(buf: &[u8], pos: usize, key: u8) -> (r: Option<(String, usize)>)
    requires
        pos <= buf.len(),
    ensures
        r matches Some(v) ==> (spec_dec_name_field(buf@, pos as int, key) matches Some(sv) && sv.0
            == v.0@ && sv.1 == v.1 as int && pos < v.1 <= buf.len()),
        r is None ==> spec_dec_name_field(buf@, pos as int, key) is None,
{
    if pos >= buf.len() || buf[pos] != key {
        return None;
    }
    match read_varint(buf, pos + 1) {
        None => None,
        Some((blen, p)) => {
            if blen <= (buf.len() - p) as u64 && p < buf.len() && buf[p] == 10 {
                match read_lenstr(buf, p + 1) {
                    None => None,
                    Some((name, q)) => {
                        if q == p + (blen as usize) {
                            Some((name, q))
                        } else {
                            None
                        }
                    },
                }
            } else {
                None
            }
        },
    }
}

/// A repeated single-string-message field: the embedded messages, one after
/// another, each under `key`.
pub open spec fn spec_enc_name_list(names: Seq<Seq<char>>, key: u8) -> Seq<u8>
    decreases names.len(),
{
    if names.len() == 0 {
        seq![]
    } else {
        spec_enc_name_field(key, names[0]) + spec_enc_name_list(names.drop_first(), key)
    }
}

/// What parsing a run of embedded messages under `key` yields: items are
/// taken while the next byte is `key`, so the run ends at the buffer's end
/// or at the first differing key.
pub open spec fn spec_dec_name_list(s: Seq<u8>, pos: int, key: u8) -> Option<(Seq<Seq<char>>, int)>
    decreases s.len() - pos,
{
    if pos < 0 || pos > s.len() {
        None
    } else if pos == s.len() || s[pos] != key {
        Some((seq![], pos))
    } else {
        match spec_dec_name_field(s, pos, key) {
            None => None,
            Some((name, p)) => {
                if pos < p <= s.len() {
                    match spec_dec_name_list(s, p, key) {
                        None => None,
                        Some((rest, q)) => Some((seq![name] + rest, q)),
                    }
                } else {
                    None
                }
            },
        }
    }
}

/// Every name of the list has an embeddable encoding.
pub open spec fn spec_names_bounded(names: Seq<Seq<char>>) -> bool {
    forall|i: int| 0 <= i < names.len() ==> #[trigger] spec_enc_name_msg(names[i]).len()
        <= u64::MAX
}

/// Decoding a run of embedded messages is left inverse to encoding, whenever
/// what follows the run does not continue it.
pub proof fn lemma_name_list_roundtrip(s: Seq<u8>, pos: int, key: u8, names: Seq<Seq<char>>)
    requires
        0 <= pos,
        pos + spec_enc_name_list(names, key).len() <= s.len(),
        s.subrange(pos, pos + spec_enc_name_list(names, key).len() as int) == spec_enc_name_list(
            names,
            key,
        ),
        spec_names_bounded(names),
        pos + spec_enc_name_list(names, key).len() == s.len() || s[pos + spec_enc_name_list(
            names,
            key,
        ).len()] != key,
    ensures
        spec_dec_name_list(s, pos, key) == Some(
            (names, pos + spec_enc_name_list(names, key).len()),
        ),
    decreases names.len(),
{
    let enc = spec_enc_name_list(names, key);
    if names.len() == 0 {
        if pos < s.len() {
            assert(s[pos] != key);
        }
    } else {
        let first = spec_enc_name_field(key, names[0]);
        assert(s.subrange(pos, pos + first.len() as int) =~= enc.subrange(0, first.len() as int));
        assert(enc.subrange(0, first.len() as int) =~= first);
        assert(spec_enc_name_msg(names[0]).len() <= u64::MAX);
        lemma_name_field_roundtrip(s, pos, key, names[0]);
        assert(s[pos] == key);
        let p = pos + first.len();
        let rest = spec_enc_name_list(names.drop_first(), key);
        assert(s.subrange(p, p + rest.len() as int) =~= enc.subrange(
            first.len() as int,
            enc.len() as int,
        ));
        assert(enc.subrange(first.len() as int, enc.len() as int) =~= rest);
        assert(spec_names_bounded(names.drop_first())) by {
            assert(forall|i: int|
                0 <= i < names.drop_first().len() ==> names.drop_first()[i] == names[i + 1]);
        }
        lemma_name_list_roundtrip(s, p, key, names.drop_first());
        assert(seq![names[0]] + names.drop_first() =~= names);
    }
}

/// Append a run of embedded single-string messages under `key`.
pub fn push_name_list(out: &mut Vec<u8>, key: u8, names: &Vec<String>)
    ensures
        final(out)@ == old(out)@ + spec_enc_name_list(names.deep_view(), key),
{
    let ghost mut done: Seq<Seq<char>> = Seq::empty();
    let mut i: usize = 0;
    while i < names.len()
        invariant
            i <= names.len(),
            done =~= names.deep_view().take(i as int),
            out@ == old(out)@ + spec_enc_name_list(done, key),
        decreases names.len() - i,
    {
        let ghost before = done;
        push_name_field(out, key, &names[i]);
        proof {
            done = done.push(names.deep_view()[i as int]);
            assert(done =~= names.deep_view().take(i as int + 1));
            lemma_name_list_snoc(before, names.deep_view()[i as int], key);
        }
        i = i + 1;
    }
    proof {
        assert(names.deep_view().take(names.len() as int) =~= names.deep_view());
    }
}

/// Appending one more name extends the encoded run at its end.
proof fn lemma_name_list_snoc(names: Seq<Seq<char>>, name: Seq<char>, key: u8)
    ensures
        spec_enc_name_list(names.push(name), key) == spec_enc_name_list(names, key)
            + spec_enc_name_field(key, name),
    decreases names.len(),
{
    if names.len() == 0 {
        assert(names.push(name)[0] == name);
        assert(names.push(name).drop_first() =~= Seq::<Seq<char>>::empty());
        assert(spec_enc_name_list(names.push(name), key) =~= spec_enc_name_field(key, name)
            + spec_enc_name_list(Seq::<Seq<char>>::empty(), key));
        assert(spec_enc_name_list(names, key) + spec_enc_name_field(key, name)
            =~= spec_enc_name_field(key, name));
    } else {
        assert(names.push(name).drop_first() =~= names.drop_first().push(name));
        lemma_name_list_snoc(names.drop_first(), name, key);
        assert(spec_enc_name_list(names.push(name), key) =~= spec_enc_name_list(names, key)
            + spec_enc_name_field(key, name));
    }
}

/// Parse a run of embedded messages, exactly as the specification-level
/// parser does.
pub fn read_name_list(buf: &[u8], pos: usize, key: u8) -> (r: Option<(Vec<String>, usize)>)
    requires
        pos <= buf.len(),
    ensures
        r matches Some(v) ==> (spec_dec_name_list(buf@, pos as int, key) matches Some(sv) && sv.0
            == v.0.deep_view() && sv.1 == v.1 as int && pos <= v.1 <= buf.len()),
        r is None ==> spec_dec_name_list(buf@, pos as int, key) is None,
    decreases buf.len() - pos,
{
    if pos >= buf.len() || buf[pos] != key {
        let empty: Vec<String> = Vec::new();
        assert(empty.deep_view() =~= Seq::<Seq<char>>::empty());
        return Some((empty, pos));
    }
    match read_name_field(buf, pos, key) {
        None => None,
        Some((name, p)) => {
            match read_name_list(buf, p, key) {
                None => None,
                Some((rest, q)) => {
                    let mut items = rest;
                    items.insert(0, name);
                    assert(items.deep_view() =~= seq![items.deep_view()[0]]
                        + items.deep_view().drop_first());
                    Some((items, q))
                },
            }
        },
    }
}

} // verus!
