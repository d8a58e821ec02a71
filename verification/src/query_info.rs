//! The wire-adapted domain model of query results, and its adapter to and
//! from the versioned binary wire format.
//!
//! A query result names its stage counts, the errors hit, and optionally an
//! output: destination locations, a row count, and a file-type tag. The tag
//! travels as a numeric enum value; a value this build does not know decodes
//! to the explicit unknown domain value rather than failing, and the unknown
//! value re-encodes to the wire format's reserved unspecified sentinel, so a
//! peer with a newer or older tag set never breaks decoding.

use vstd::prelude::*;
use crate::wire::{
    push_name_list, push_varint, push_varint_field, read_name_list, read_varint, read_varint_field,
    spec_dec_name_list, spec_dec_varint, spec_dec_varint_field, spec_enc_name_list,
    spec_enc_varint_field, spec_names_bounded, spec_varint, lemma_varint_roundtrip,
    lemma_varint_field_roundtrip, lemma_name_list_roundtrip,
};

verus! {

/// The file types this build knows. The wire carries a numeric tag; `None`
/// at the domain level stands both for "unspecified" and for a tag outside
/// this set.
#[derive(Clone, Copy, Debug, PartialEq, Eq, Structural)]
pub enum FileType {
    Parquet,
    Ipc,
    Csv,
    Ndjson,
    Json,
}

/// The wire tag of a known file type; the unknown value encodes to the
/// reserved unspecified sentinel 0.
pub open spec fn spec_file_type_code(ft: Option<FileType>) -> u64 {
    match ft {
        None => 0,
        Some(FileType::Parquet) => 1,
        Some(FileType::Ipc) => 2,
        Some(FileType::Csv) => 3,
        Some(FileType::Ndjson) => 4,
        Some(FileType::Json) => 5,
    }
}

/// The domain value of a wire tag: every tag outside the known set decodes
/// to the unknown value, never to a failure.
pub open spec fn spec_file_type_of_code(raw: u64) -> Option<FileType> {
    if raw == 1 {
        Some(FileType::Parquet)
    } else if raw == 2 {
        Some(FileType::Ipc)
    } else if raw == 3 {
        Some(FileType::Csv)
    } else if raw == 4 {
        Some(FileType::Ndjson)
    } else if raw == 5 {
        Some(FileType::Json)
    } else {
        None
    }
}

impl FileType {
    /// Map a wire tag into the domain.
    pub fn from_wire(raw: u64) -> (r: Option<FileType>)
        ensures
            r == spec_file_type_of_code(raw),
    {
        if raw == 1 {
            Some(FileType::Parquet)
        } else if raw == 2 {
            Some(FileType::Ipc)
        } else if raw == 3 {
            Some(FileType::Csv)
        } else if raw == 4 {
            Some(FileType::Ndjson)
        } else if raw == 5 {
            Some(FileType::Json)
        } else {
            None
        }
    }

    /// Map a domain value onto the wire.
    pub fn to_wire(ft: Option<FileType>) -> (r: u64)
        ensures
            r == spec_file_type_code(ft),
    {
        match ft {
            None => 0,
            Some(FileType::Parquet) => 1,
            Some(FileType::Ipc) => 2,
            Some(FileType::Csv) => 3,
            Some(FileType::Ndjson) => 4,
            Some(FileType::Json) => 5,
        }
    }
}

/// The file-type mapping is lossless over the known set and the unknown
/// value: crossing the wire and back changes nothing.
pub proof fn lemma_file_type_roundtrip(ft: Option<FileType>)
    ensures
        spec_file_type_of_code(spec_file_type_code(ft)) == ft,
{
}

/// The output of a finished query.
#[derive(Debug, PartialEq)]
pub struct QueryOutput {
    pub sink_dst: Vec<String>,
    pub n_rows_result: u64,
    // The file type might be unknown if the peer uses a different tag set
    // than this build.
    pub file_type: Option<FileType>,
}

/// A query result: stage counters, errors, and the optional output.
#[derive(Debug, PartialEq)]
pub struct QueryResult {
    pub total_stages: u32,
    pub finished_stages: u32,
    pub failed_stages: u32,
    pub errors: Vec<String>,
    pub output: Option<QueryOutput>,
}

/// Query info: the labels attached to a query.
#[derive(Debug, PartialEq)]
pub struct QueryInfo {
    pub labels: Vec<String>,
}

// Field keys. Messages holding one string use field 1; see the wire module.
// QueryInfo:   labels      = field 1, embedded message  -> key 10
// QueryResult: total       = field 1, varint            -> key 8
//              finished    = field 2, varint            -> key 16
//              failed      = field 3, varint            -> key 24
//              errors      = field 4, embedded message  -> key 34
//              output      = field 5, embedded message  -> key 42
// QueryOutput: destination = field 1, embedded message  -> key 10
//              n_rows      = field 2, varint            -> key 16
//              file_type   = field 3, varint            -> key 24
/// The body of an output message, over its raw field values.
pub open spec fn spec_enc_output_body(dsts: Seq<Seq<char>>, n_rows: u64, ft_raw: u64) -> Seq<u8> {
    spec_enc_name_list(dsts, 10) + spec_enc_varint_field(16, n_rows) + spec_enc_varint_field(
        24,
        ft_raw,
    )
}

/// An output message embedded as field 5 of a result.
pub open spec fn spec_enc_output_field(dsts: Seq<Seq<char>>, n_rows: u64, ft_raw: u64) -> Seq<u8> {
    seq![42u8] + spec_varint(spec_enc_output_body(dsts, n_rows, ft_raw).len() as u64)
        + spec_enc_output_body(dsts, n_rows, ft_raw)
}

/// The wire form of a whole result, over raw field values. The output is
/// omitted entirely when absent.
pub open spec fn spec_enc_query_result(
    total: u64,
    finished: u64,
    failed: u64,
    errors: Seq<Seq<char>>,
    output: Option<(Seq<Seq<char>>, u64, u64)>,
) -> Seq<u8> {
    spec_enc_varint_field(8, total) + spec_enc_varint_field(16, finished) + spec_enc_varint_field(
        24,
        failed,
    ) + spec_enc_name_list(errors, 34) + match output {
        None => seq![],
        Some((dsts, n_rows, ft_raw)) => spec_enc_output_field(dsts, n_rows, ft_raw),
    }
}

/// The wire form of query info: just the run of labels.
pub open spec fn spec_enc_query_info(labels: Seq<Seq<char>>) -> Seq<u8> {
    spec_enc_name_list(labels, 10)
}

/// What parsing an embedded output message yields: the raw field values and
/// the end position. The fields come in their canonical order and the
/// message must fill its announced length exactly.
pub open spec fn spec_dec_output_field(s: Seq<u8>, pos: int) -> Option<
    ((Seq<Seq<char>>, u64, u64), int),
> {
    if 0 <= pos < s.len() && s[pos] == 42 {
        match spec_dec_varint(s, pos + 1) {
            None => None,
            Some((blen, p)) => {
                if p + blen <= s.len() {
                    match spec_dec_name_list(s, p, 10) {
                        None => None,
                        Some((dsts, p1)) => match spec_dec_varint_field(s, p1, 16) {
                            None => None,
                            Some((n_rows, p2)) => match spec_dec_varint_field(s, p2, 24) {
                                None => None,
                                Some((ft_raw, p3)) => {
                                    if p3 == p + blen {
                                        Some(((dsts, n_rows, ft_raw), p3))
                                    } else {
                                        None
                                    }
                                },
                            },
                        },
                    }
                } else {
                    None
                }
            },
        }
    } else {
        None
    }
}

/// What parsing a whole result buffer yields: raw field values, each counter
/// checked against its domain range, the buffer consumed exactly.
pub open spec fn spec_dec_query_result(s: Seq<u8>) -> Option<
    (u64, u64, u64, Seq<Seq<char>>, Option<(Seq<Seq<char>>, u64, u64)>),
> {
    match spec_dec_varint_field(s, 0, 8) {
        None => None,
        Some((total, p1)) => match spec_dec_varint_field(s, p1, 16) {
            None => None,
            Some((finished, p2)) => match spec_dec_varint_field(s, p2, 24) {
                None => None,
                Some((failed, p3)) => {
                    if total <= u32::MAX && finished <= u32::MAX && failed <= u32::MAX {
                        match spec_dec_name_list(s, p3, 34) {
                            None => None,
                            Some((errors, p4)) => {
                                if p4 == s.len() {
                                    Some((total, finished, failed, errors, None))
                                } else {
                                    match spec_dec_output_field(s, p4) {
                                        None => None,
                                        Some((out, p5)) => {
                                            if p5 == s.len() {
                                                Some((total, finished, failed, errors, Some(out)))
                                            } else {
                                                None
                                            }
                                        },
                                    }
                                }
                            },
                        }
                    } else {
                        None
                    }
                },
            },
        },
    }
}

impl QueryOutput {
    /// The raw wire field values of this output.
    pub open spec fn spec_fields(&self) -> (Seq<Seq<char>>, u64, u64) {
        (self.sink_dst.deep_view(), self.n_rows_result, spec_file_type_code(self.file_type))
    }
}

impl QueryResult {
    /// The counters' invariant: no more stages finish than exist.
    pub open spec fn spec_wf(&self) -> bool {
        self.finished_stages <= self.total_stages
    }

    /// The raw wire field values of the optional output.
    pub open spec fn spec_output_fields(&self) -> Option<(Seq<Seq<char>>, u64, u64)> {
        match self.output {
            None => None,
            Some(o) => Some(o.spec_fields()),
        }
    }

    /// The wire form of this result.
    pub open spec fn spec_wire(&self) -> Seq<u8> {
        spec_enc_query_result(
            self.total_stages as u64,
            self.finished_stages as u64,
            self.failed_stages as u64,
            self.errors.deep_view(),
            self.spec_output_fields(),
        )
    }

    /// Encode this result onto the wire: a pure, allocation-only
    /// transformation to exactly its specified wire form.
    pub fn encode(&self) -> (out: Vec<u8>)
        ensures
            out@ == self.spec_wire(),
    {
        let mut out: Vec<u8> = Vec::new();
        push_varint_field(&mut out, 8, self.total_stages as u64);
        push_varint_field(&mut out, 16, self.finished_stages as u64);
        push_varint_field(&mut out, 24, self.failed_stages as u64);
        push_name_list(&mut out, 34, &self.errors);
        match &self.output {
            None => {},
            Some(o) => {
                let mut body: Vec<u8> = Vec::new();
                push_name_list(&mut body, 10, &o.sink_dst);
                push_varint_field(&mut body, 16, o.n_rows_result);
                push_varint_field(&mut body, 24, FileType::to_wire(o.file_type));
                assert(body@ =~= spec_enc_output_body(
                    o.sink_dst.deep_view(),
                    o.n_rows_result,
                    spec_file_type_code(o.file_type),
                ));
                out.push(42);
                push_varint(&mut out, body.len() as u64);
                out.append(&mut body);
            },
        }
        assert(out@ =~= self.spec_wire());
        out
    }

    /// Decode a result from the wire. The decoder accepts exactly the
    /// canonical envelope this build emits — the fields in their numbered
    /// order, the output present or absent as a whole — and treats anything
    /// else, an unrecognized field key included, as a malformed envelope: a
    /// fatal decode error (`None`). Version tolerance lives in the one place
    /// the format reserves for it: a file-type tag outside the known set is
    /// never a failure, it decodes to the unknown domain value.
    pub fn decode(buf: &[u8]) -> (r: Option<QueryResult>)
        ensures
            r is None <==> spec_dec_query_result(buf@) is None,
            r matches Some(v) ==> (spec_dec_query_result(buf@) matches Some(d) && {
                &&& v.total_stages as u64 == d.0
                &&& v.finished_stages as u64 == d.1
                &&& v.failed_stages as u64 == d.2
                &&& v.errors.deep_view() == d.3
                &&& match d.4 {
                    None => v.output is None,
                    Some((dsts, n_rows, ft_raw)) => v.output matches Some(o) && o.sink_dst.deep_view()
                        == dsts && o.n_rows_result == n_rows && o.file_type
                        == spec_file_type_of_code(ft_raw),
                }
            }),
    {
        let (total, p1) = match read_varint_field(buf, 0, 8) {
            None => {
                return None;
            },
            Some(v) => v,
        };
        let (finished, p2) = match read_varint_field(buf, p1, 16) {
            None => {
                return None;
            },
            Some(v) => v,
        };
        let (failed, p3) = match read_varint_field(buf, p2, 24) {
            None => {
                return None;
            },
            Some(v) => v,
        };
        if !(total <= u32::MAX as u64 && finished <= u32::MAX as u64 && failed <= u32::MAX
            as u64) {
            return None;
        }
        let (errors, p4) = match read_name_list(buf, p3, 34) {
            None => {
                return None;
            },
            Some(v) => v,
        };
        if p4 == buf.len() {
            return Some(
                QueryResult {
                    total_stages: total as u32,
                    finished_stages: finished as u32,
                    failed_stages: failed as u32,
                    errors,
                    output: None,
                },
            );
        }
        let (output, p5) = match read_output_field(buf, p4) {
            None => {
                return None;
            },
            Some(v) => v,
        };
        if p5 != buf.len() {
            return None;
        }
        Some(
            QueryResult {
                total_stages: total as u32,
                finished_stages: finished as u32,
                failed_stages: failed as u32,
                errors,
                output: Some(output),
            },
        )
    }
}

/// Parse an embedded output message, exactly as the specification-level
/// parser does.
fn read_output_field(buf: &[u8], pos: usize) -> (r: Option<(QueryOutput, usize)>)
    requires
        pos <= buf.len(),
    ensures
        r is None <==> spec_dec_output_field(buf@, pos as int) is None,
        r matches Some(v) ==> (spec_dec_output_field(buf@, pos as int) matches Some(d) && {
            &&& v.0.sink_dst.deep_view() == d.0.0
            &&& v.0.n_rows_result == d.0.1
            &&& v.0.file_type == spec_file_type_of_code(d.0.2)
            &&& v.1 as int == d.1
            &&& pos < v.1 <= buf.len()
        }),
{
    if pos >= buf.len() || buf[pos] != 42 {
        return None;
    }
    let (blen, p) = match read_varint(buf, pos + 1) {
        None => {
            return None;
        },
        Some(v) => v,
    };
    if !(blen <= (buf.len() - p) as u64) {
        return None;
    }
    let end = p + (blen as usize);
    let (dsts, p1) = match read_name_list(buf, p, 10) {
        None => {
            return None;
        },
        Some(v) => v,
    };
    let (n_rows, p2) = match read_varint_field(buf, p1, 16) {
        None => {
            return None;
        },
        Some(v) => v,
    };
    let (ft_raw, p3) = match read_varint_field(buf, p2, 24) {
        None => {
            return None;
        },
        Some(v) => v,
    };
    if p3 != end {
        return None;
    }
    Some(
        (
            QueryOutput {
                sink_dst: dsts,
                n_rows_result: n_rows,
                file_type: FileType::from_wire(ft_raw),
            },
            p3,
        ),
    )
}

impl QueryInfo {
    /// The wire form of this query info.
    pub open spec fn spec_wire(&self) -> Seq<u8> {
        spec_enc_query_info(self.labels.deep_view())
    }

    /// Encode the labels onto the wire.
    pub fn encode(&self) -> (out: Vec<u8>)
        ensures
            out@ == self.spec_wire(),
    {
        let mut out: Vec<u8> = Vec::new();
        push_name_list(&mut out, 10, &self.labels);
        assert(out@ =~= self.spec_wire());
        out
    }

    /// Decode query info from the wire; `None` on a malformed envelope.
    /// As with results, only the canonical envelope is accepted: a run of
    /// label messages and nothing else.
    pub fn decode(buf: &[u8]) -> (r: Option<QueryInfo>)
        ensures
            r is None <==> spec_dec_query_info(buf@) is None,
            r matches Some(v) ==> (spec_dec_query_info(buf@) matches Some(d) && v.labels.deep_view()
                == d),
    {
        let (labels, p) = match read_name_list(buf, 0, 10) {
            None => {
                return None;
            },
            Some(v) => v,
        };
        if p != buf.len() {
            return None;
        }
        Some(QueryInfo { labels })
    }
}

/// What parsing a whole query-info buffer yields.
pub open spec fn spec_dec_query_info(s: Seq<u8>) -> Option<Seq<Seq<char>>> {
    match spec_dec_name_list(s, 0, 10) {
        None => None,
        Some((labels, p)) => {
            if p == s.len() {
                Some(labels)
            } else {
                None
            }
        },
    }
}

/// An output's wire form stays within the machine limits the length prefixes
/// can carry.
pub open spec fn spec_output_bounded(dsts: Seq<Seq<char>>, n_rows: u64, ft_raw: u64) -> bool {
    &&& spec_names_bounded(dsts)
    &&& spec_enc_output_body(dsts, n_rows, ft_raw).len() <= u64::MAX
}

/// A result's wire form stays within the machine limits the length prefixes
/// can carry.
pub open spec fn spec_result_fields_bounded(
    errors: Seq<Seq<char>>,
    output: Option<(Seq<Seq<char>>, u64, u64)>,
) -> bool {
    &&& spec_names_bounded(errors)
    &&& match output {
        None => true,
        Some((dsts, n_rows, ft_raw)) => spec_output_bounded(dsts, n_rows, ft_raw),
    }
}

/// The same, over a domain value.
pub open spec fn spec_result_bounded(v: QueryResult) -> bool {
    spec_result_fields_bounded(v.errors.deep_view(), v.spec_output_fields())
}

/// Decoding an embedded output message is left inverse to encoding it, for
/// every file-type tag, known to this build or not.
pub proof fn lemma_output_field_roundtrip(
    s: Seq<u8>,
    pos: int,
    dsts: Seq<Seq<char>>,
    n_rows: u64,
    ft_raw: u64,
)
    requires
        0 <= pos,
        pos + spec_enc_output_field(dsts, n_rows, ft_raw).len() <= s.len(),
        s.subrange(pos, pos + spec_enc_output_field(dsts, n_rows, ft_raw).len() as int)
            == spec_enc_output_field(dsts, n_rows, ft_raw),
        spec_output_bounded(dsts, n_rows, ft_raw),
    ensures
        spec_dec_output_field(s, pos) == Some(
            ((dsts, n_rows, ft_raw), pos + spec_enc_output_field(dsts, n_rows, ft_raw).len()),
        ),
{
    let body = spec_enc_output_body(dsts, n_rows, ft_raw);
    let lenpart = spec_varint(body.len() as u64);
    let enc = spec_enc_output_field(dsts, n_rows, ft_raw);
    assert(s[pos] == enc[0]);
    assert(s.subrange(pos + 1, pos + 1 + lenpart.len() as int) =~= enc.subrange(
        1,
        1 + lenpart.len() as int,
    ));
    assert(enc.subrange(1, 1 + lenpart.len() as int) =~= lenpart);
    lemma_varint_roundtrip(s, pos + 1, body.len() as u64);
    let p = pos + 1 + lenpart.len();
    assert(s.subrange(p, p + body.len() as int) =~= enc.subrange(
        1 + lenpart.len() as int,
        enc.len() as int,
    ));
    assert(enc.subrange(1 + lenpart.len() as int, enc.len() as int) =~= body);

    let dl = spec_enc_name_list(dsts, 10);
    let nf = spec_enc_varint_field(16, n_rows);
    let ff = spec_enc_varint_field(24, ft_raw);
    assert(s.subrange(p, p + dl.len() as int) =~= body.subrange(0, dl.len() as int));
    assert(body.subrange(0, dl.len() as int) =~= dl);
    let p1 = p + dl.len();
    assert(s[p1] == body[dl.len() as int]);
    assert(body[dl.len() as int] == nf[0]);
    lemma_name_list_roundtrip(s, p, 10, dsts);
    assert(s.subrange(p1, p1 + nf.len() as int) =~= body.subrange(
        dl.len() as int,
        dl.len() + nf.len() as int,
    ));
    assert(body.subrange(dl.len() as int, dl.len() + nf.len() as int) =~= nf);
    lemma_varint_field_roundtrip(s, p1, 16, n_rows);
    let p2 = p1 + nf.len();
    assert(s.subrange(p2, p2 + ff.len() as int) =~= body.subrange(
        dl.len() + nf.len() as int,
        body.len() as int,
    ));
    assert(body.subrange(dl.len() + nf.len() as int, body.len() as int) =~= ff);
    lemma_varint_field_roundtrip(s, p2, 24, ft_raw);
}

/// Decoding a whole encoded result yields every raw field back: the
/// round-trip law of the wire adapter, for every file-type tag.
pub proof fn lemma_query_result_fields_roundtrip(
    total: u64,
    finished: u64,
    failed: u64,
    errors: Seq<Seq<char>>,
    output: Option<(Seq<Seq<char>>, u64, u64)>,
)
    requires
        total <= u32::MAX,
        finished <= u32::MAX,
        failed <= u32::MAX,
        spec_result_fields_bounded(errors, output),
    ensures
        spec_dec_query_result(spec_enc_query_result(total, finished, failed, errors, output))
            == Some((total, finished, failed, errors, output)),
{
    let s = spec_enc_query_result(total, finished, failed, errors, output);
    let f1 = spec_enc_varint_field(8, total);
    let f2 = spec_enc_varint_field(16, finished);
    let f3 = spec_enc_varint_field(24, failed);
    let el = spec_enc_name_list(errors, 34);
    let tail = match output {
        None => Seq::<u8>::empty(),
        Some((dsts, n_rows, ft_raw)) => spec_enc_output_field(dsts, n_rows, ft_raw),
    };
    assert(s =~= f1 + f2 + f3 + el + tail);
    assert(s.subrange(0, f1.len() as int) =~= f1);
    lemma_varint_field_roundtrip(s, 0, 8, total);
    let p1 = f1.len() as int;
    assert(s.subrange(p1, p1 + f2.len()) =~= f2);
    lemma_varint_field_roundtrip(s, p1, 16, finished);
    let p2 = p1 + f2.len();
    assert(s.subrange(p2, p2 + f3.len()) =~= f3);
    lemma_varint_field_roundtrip(s, p2, 24, failed);
    let p3 = p2 + f3.len();
    assert(s.subrange(p3, p3 + el.len()) =~= el);
    match output {
        None => {
            assert(p3 + el.len() == s.len());
            lemma_name_list_roundtrip(s, p3, 34, errors);
        },
        Some((dsts, n_rows, ft_raw)) => {
            let p4 = p3 + el.len();
            assert(s[p4] == tail[0]);
            lemma_name_list_roundtrip(s, p3, 34, errors);
            assert(s.subrange(p4, p4 + tail.len()) =~= tail);
            lemma_output_field_roundtrip(s, p4, dsts, n_rows, ft_raw);
        },
    }
}

/// Round-trip law of the wire adapter over domain values: decoding the
/// encoding of a result yields every field unchanged — an unknown file type
/// included, since it encodes to the unspecified sentinel, which decodes back
/// to unknown.
pub proof fn lemma_query_result_wire_roundtrip(v: QueryResult)
    requires
        spec_result_bounded(v),
    ensures
        spec_dec_query_result(v.spec_wire()) matches Some(d) && {
            &&& d.0 == v.total_stages as u64
            &&& d.1 == v.finished_stages as u64
            &&& d.2 == v.failed_stages as u64
            &&& d.3 == v.errors.deep_view()
            &&& match d.4 {
                None => v.output is None,
                Some((dsts, n_rows, ft_raw)) => v.output matches Some(o) && dsts
                    == o.sink_dst.deep_view() && n_rows == o.n_rows_result
                    && spec_file_type_of_code(ft_raw) == o.file_type,
            }
        },
{
    lemma_query_result_fields_roundtrip(
        v.total_stages as u64,
        v.finished_stages as u64,
        v.failed_stages as u64,
        v.errors.deep_view(),
        v.spec_output_fields(),
    );
    match v.output {
        None => {},
        Some(o) => {
            lemma_file_type_roundtrip(o.file_type);
        },
    }
}

/// Forward compatibility law: a buffer carrying a file-type tag outside the
/// known set still decodes — never a failure — and yields the unknown domain
/// value.
pub proof fn lemma_unknown_file_type_decodes(
    total: u64,
    finished: u64,
    failed: u64,
    errors: Seq<Seq<char>>,
    dsts: Seq<Seq<char>>,
    n_rows: u64,
    ft_raw: u64,
)
    requires
        total <= u32::MAX,
        finished <= u32::MAX,
        failed <= u32::MAX,
        spec_result_fields_bounded(errors, Some((dsts, n_rows, ft_raw))),
        !(1 <= ft_raw <= 5),
    ensures
        spec_dec_query_result(
            spec_enc_query_result(total, finished, failed, errors, Some((dsts, n_rows, ft_raw))),
        ) matches Some(d) && (d.4 matches Some(out) && spec_file_type_of_code(out.2) is None),
{
    lemma_query_result_fields_roundtrip(
        total,
        finished,
        failed,
        errors,
        Some((dsts, n_rows, ft_raw)),
    );
}

/// Round-trip law for query info: decoding the encoding of a label list
/// yields the labels unchanged.
pub proof fn lemma_query_info_wire_roundtrip(labels: Seq<Seq<char>>)
    requires
        spec_names_bounded(labels),
    ensures
        spec_dec_query_info(spec_enc_query_info(labels)) == Some(labels),
{
    let s = spec_enc_query_info(labels);
    assert(s.subrange(0, s.len() as int) =~= s);
    lemma_name_list_roundtrip(s, 0, 10, labels);
}

} // verus!
