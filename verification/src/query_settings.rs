//! Marshalling of query settings: the engine name, retry count, and the
//! optional distributed-run settings, validated before anything is sent.

use vstd::prelude::*;
use vstd::string::StrSliceExecFns;
use vstd::utf8::encode_utf8;
use crate::error::ApiError;

verus! {

/// Settings of a distributed run, as handed in by the embedding caller.
#[derive(Debug)]
pub struct DistributedSettings {
    pub sort_partitioned: bool,
    pub pre_aggregation: bool,
    pub equi_join_broadcast_limit: u64,
}

/// The engine a query runs on.
#[derive(Clone, Copy, Debug, PartialEq, Eq, Structural)]
pub enum PyEngine {
    Auto,
    InMemory,
    Streaming,
    Gpu,
}

/// Whether a query runs on one machine or distributed, with the settings of
/// the distributed case. The shuffle options pass through unread.
#[derive(Debug)]
pub enum PyQueryType<S> {
    Single,
    Distributed {
        shuffle_opts: S,
        pre_aggregation: bool,
        sort_partitioned: bool,
        equi_join_broadcast_limit: u64,
    },
}

/// The marshalled settings of one query.
#[derive(Debug)]
pub struct PyQuerySettings<S> {
    pub engine: PyEngine,
    pub prefer_dot: bool,
    pub n_retries: u32,
    pub query_type: PyQueryType<S>,
}

/// The engine a name denotes, if any.
pub open spec fn spec_engine_of(name: Seq<char>) -> Option<PyEngine> {
    if name == "gpu"@ {
        Some(PyEngine::Gpu)
    } else if name == "auto"@ {
        Some(PyEngine::Auto)
    } else if name == "in-memory"@ {
        Some(PyEngine::InMemory)
    } else if name == "streaming"@ {
        Some(PyEngine::Streaming)
    } else {
        None
    }
}

/// String equality by value.
fn str_eq(a: &str, b: &str) -> (r: bool)
    ensures
        r == (a@ == b@),
{
    let av = a.as_bytes_vec();
    let bv = b.as_bytes_vec();
    let r = av == bv;
    proof {
        if r {
            assert(av@ =~= bv@);
            assert(a@ == b@) by {
                assert(encode_utf8(a@) == encode_utf8(b@));
                vstd::utf8::encode_utf8_decode_utf8(a@);
                vstd::utf8::encode_utf8_decode_utf8(b@);
            }
        } else {
            if a@ == b@ {
                assert(av@ =~= bv@);
                assert(false);
            }
        }
    }
    r
}

/// Marshal the settings of one query. An engine name outside the known set
/// is a usage error; the distributed settings, when present, select a
/// distributed run and pass through unchanged.
pub fn serialize_query_settings<S>(
    engine: &str,
    prefer_dot: bool,
    shuffle_opts: S,
    n_retries: u32,
    distributed_settings: Option<DistributedSettings>,
) -> (r: Result<PyQuerySettings<S>, ApiError>)
    ensures
        spec_engine_of(engine@) is None ==> r matches Err(ApiError::Usage { .. }),
        spec_engine_of(engine@) matches Some(e) ==> (r matches Ok(s) && {
            &&& s.engine == e
            &&& s.prefer_dot == prefer_dot
            &&& s.n_retries == n_retries
            &&& match distributed_settings {
                None => s.query_type is Single,
                Some(d) => s.query_type matches PyQueryType::Distributed {
                    shuffle_opts: so,
                    pre_aggregation,
                    sort_partitioned,
                    equi_join_broadcast_limit,
                } && so == shuffle_opts && pre_aggregation == d.pre_aggregation
                    && sort_partitioned == d.sort_partitioned && equi_join_broadcast_limit
                    == d.equi_join_broadcast_limit,
            }
        }),
{
    let query_type = match distributed_settings {
        None => PyQueryType::Single,
        Some(settings) => PyQueryType::Distributed {
            shuffle_opts,
            pre_aggregation: settings.pre_aggregation,
            sort_partitioned: settings.sort_partitioned,
            equi_join_broadcast_limit: settings.equi_join_broadcast_limit,
        },
    };

    let engine = if str_eq(engine, "gpu") {
        PyEngine::Gpu
    } else if str_eq(engine, "auto") {
        PyEngine::Auto
    } else if str_eq(engine, "in-memory") {
        PyEngine::InMemory
    } else if str_eq(engine, "streaming") {
        PyEngine::Streaming
    } else {
        return Err(
            ApiError::Usage {
                message: "expected one of {'auto', 'in-memory', 'streaming', 'gpu'}".to_owned(),
            },
        );
    };

    Ok(PyQuerySettings { engine, prefer_dot, n_retries, query_type })
}

} // verus!
