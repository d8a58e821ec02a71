//! Flattening of wire-adapted results and progress snapshots into the flat
//! record shape handed to the embedding caller.

use vstd::prelude::*;
use crate::query_info::{FileType, QueryOutput, QueryResult};

verus! {

/// Statistics of one finished stage, as reported by the compute plane.
#[derive(Clone, Copy, Debug, PartialEq, Eq, Structural)]
pub struct StageStatistics {
    pub num_workers_used: u32,
}

/// The per-stage record handed to the embedding caller.
#[derive(Clone, Copy, Debug, PartialEq, Eq, Structural)]
pub struct StageStatsPy {
    pub num_workers_used: u32,
}

impl StageStatsPy {
    /// The caller-facing record of one stage's statistics.
    pub fn from(value: &StageStatistics) -> (r: StageStatsPy)
        ensures
            r.num_workers_used == value.num_workers_used,
    {
        StageStatsPy { num_workers_used: value.num_workers_used }
    }
}

/// What the compute plane knows about a query beyond its result: per-stage
/// statistics and an optional head sample (or the reason it is missing).
#[derive(Debug)]
pub struct ComputeQueryInfo {
    pub stage_statistics: Option<Vec<(u32, StageStatistics)>>,
    pub head: Option<Result<Vec<u8>, String>>,
}

/// The flat query record handed to the embedding caller.
#[derive(Debug)]
pub struct QueryInfoPy {
    pub total_stages: u32,
    pub finished_stages: u32,
    pub failed_stages: u32,
    pub head: Option<Result<Vec<u8>, String>>,
    pub n_rows_result: Option<u64>,
    pub errors: Vec<String>,
    pub sink_dst: Vec<String>,
    pub file_type_sink: String,
    pub ir_plan_explain: Option<String>,
    pub ir_plan_dot: Option<String>,
    pub phys_plan_explain: Option<String>,
    pub phys_plan_dot: Option<String>,
    pub stages_stats: Option<Vec<(u32, StageStatsPy)>>,
}

impl QueryInfoPy {
    /// The head sample: absent, present, or an error naming why it could not
    /// be produced.
    pub fn head(&self) -> (r: Result<Option<&Vec<u8>>, &String>)
        ensures
            match self.head {
                None => r matches Ok(o) && o is None,
                Some(Ok(b)) => r matches Ok(o) && (o matches Some(rb) && *rb == b),
                Some(Err(m)) => r matches Err(rm) && *rm == m,
            },
    {
        if let Some(b) = &self.head {
            match b {
                Ok(b) => Ok(Some(b)),
                Err(msg) => Err(msg),
            }
        } else {
            Ok(None)
        }
    }
}

/// The caller-facing name of a result's sink file type: a known type by
/// name, `unknown` for a tag this build does not know, `none` without output.
pub open spec fn spec_file_type_label(output: Option<QueryOutput>) -> Seq<char> {
    match output {
        Some(o) => match o.file_type {
            Some(FileType::Parquet) => "parquet"@,
            Some(FileType::Ipc) => "ipc"@,
            Some(FileType::Csv) => "csv"@,
            Some(FileType::Json) => "json"@,
            Some(FileType::Ndjson) => "ndjson"@,
            None => "unknown"@,
        },
        None => "none"@,
    }
}

fn file_type_label(output: &Option<QueryOutput>) -> (r: String)
    ensures
        r@ == spec_file_type_label(*output),
{
    match output {
        Some(o) => match o.file_type {
            Some(FileType::Parquet) => "parquet".to_owned(),
            Some(FileType::Ipc) => "ipc".to_owned(),
            Some(FileType::Csv) => "csv".to_owned(),
            Some(FileType::Json) => "json".to_owned(),
            Some(FileType::Ndjson) => "ndjson".to_owned(),
            None => "unknown".to_owned(),
        },
        None => "none".to_owned(),
    }
}

/// Flatten a wire-adapted result and the compute plane's extras into the
/// record handed to the embedding caller. Plan explanations are not carried
/// by the result and stay empty here.
pub fn query_result_to_py(query_info: QueryResult, compute_info: Option<ComputeQueryInfo>) -> (r:
    QueryInfoPy)
    ensures
        r.total_stages == query_info.total_stages,
        r.finished_stages == query_info.finished_stages,
        r.failed_stages == query_info.failed_stages,
        query_info.spec_wf() ==> r.finished_stages <= r.total_stages,
        r.errors == query_info.errors,
        r.file_type_sink@ == spec_file_type_label(query_info.output),
        match query_info.output {
            Some(o) => r.n_rows_result == Some(o.n_rows_result) && r.sink_dst == o.sink_dst,
            None => r.n_rows_result is None && r.sink_dst@.len() == 0,
        },
        r.ir_plan_explain is None && r.ir_plan_dot is None && r.phys_plan_explain is None
            && r.phys_plan_dot is None,
        match compute_info {
            None => r.stages_stats is None && r.head is None,
            Some(ci) => r.head == ci.head && match ci.stage_statistics {
                None => r.stages_stats is None,
                Some(v) => r.stages_stats matches Some(w) && w.len() == v.len() && (forall|i: int|
                    0 <= i < v.len() ==> (#[trigger] w[i]).0 == v[i].0 && w[i].1.num_workers_used
                        == v[i].1.num_workers_used),
            },
        },
{
    let file_type_sink = file_type_label(&query_info.output);
    let (n_rows_result, sink_dst) = match query_info.output {
        Some(o) => (Some(o.n_rows_result), o.sink_dst),
        None => (None, Vec::new()),
    };
    let (stages_stats, head) = match compute_info {
        None => (None, None),
        Some(ci) => {
            let stages = match ci.stage_statistics {
                None => None,
                Some(v) => {
                    let mut w: Vec<(u32, StageStatsPy)> = Vec::new();
                    let mut i: usize = 0;
                    while i < v.len()
                        invariant
                            i <= v.len(),
                            w.len() == i,
                            forall|j: int|
                                0 <= j < i ==> (#[trigger] w[j]).0 == v[j].0
                                    && w[j].1.num_workers_used == v[j].1.num_workers_used,
                        decreases v.len() - i,
                    {
                        let (k, stats) = v[i];
                        w.push((k, StageStatsPy::from(&stats)));
                        i = i + 1;
                    }
                    Some(w)
                },
            };
            (stages, ci.head)
        },
    };
    QueryInfoPy {
        total_stages: query_info.total_stages,
        finished_stages: query_info.finished_stages,
        failed_stages: query_info.failed_stages,
        head,
        n_rows_result,
        errors: query_info.errors,
        sink_dst,
        file_type_sink,
        ir_plan_explain: None,
        ir_plan_dot: None,
        phys_plan_explain: None,
        phys_plan_dot: None,
        stages_stats,
    }
}

/// An opaque progress snapshot keyed by an identifying tag, carrying
/// optional plan explanations and an opaque binary payload.
#[derive(Debug)]
pub struct QueryProfile {
    pub tag: Vec<u8>,
    pub total_stages: Option<u32>,
    pub phys_plan_explain: Option<String>,
    pub phys_plan_dot: Option<String>,
    pub data: Vec<u8>,
}

impl QueryProfile {
    /// The one invariant of a profile: its tag is not empty.
    pub open spec fn spec_wf(&self) -> bool {
        self.tag@.len() > 0
    }
}

/// The caller-facing progress record.
#[derive(Debug)]
pub struct QueryProfilePy {
    pub tag: Vec<u8>,
    pub total_stages: Option<u32>,
    pub phys_plan_dot: Option<String>,
    pub phys_plan_explain: Option<String>,
    pub data: Vec<u8>,
}

/// Hand a progress snapshot to the embedding caller, field for field.
pub fn query_profile_to_py(progress: QueryProfile) -> (r: QueryProfilePy)
    ensures
        r.tag == progress.tag,
        r.total_stages == progress.total_stages,
        r.phys_plan_explain == progress.phys_plan_explain,
        r.phys_plan_dot == progress.phys_plan_dot,
        r.data == progress.data,
        progress.spec_wf() ==> r.tag@.len() > 0,
{
    QueryProfilePy {
        tag: progress.tag,
        total_stages: progress.total_stages,
        phys_plan_explain: progress.phys_plan_explain,
        phys_plan_dot: progress.phys_plan_dot,
        data: progress.data,
    }
}

} // verus!
