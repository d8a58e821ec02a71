use cloud_client::error::ApiError;
use cloud_client::query_settings::{
    serialize_query_settings, DistributedSettings, PyEngine, PyQueryType,
};

#[test]
fn every_engine_name_parses() {
    let cases = [
        ("gpu", PyEngine::Gpu),
        ("auto", PyEngine::Auto),
        ("in-memory", PyEngine::InMemory),
        ("streaming", PyEngine::Streaming),
    ];
    for (name, engine) in cases {
        let s = serialize_query_settings(name, false, (), 0, None).unwrap();
        assert_eq!(s.engine, engine);
        assert_eq!(s.prefer_dot, false);
        assert_eq!(s.n_retries, 0);
        assert!(matches!(s.query_type, PyQueryType::Single));
    }
}

#[test]
fn unknown_engine_name_is_a_usage_error() {
    let r = serialize_query_settings("warp-drive", true, (), 2, None);
    assert!(matches!(r, Err(ApiError::Usage { .. })));
}

#[test]
fn distributed_settings_select_a_distributed_run() {
    let s = serialize_query_settings(
        "streaming",
        true,
        "shuffle-options",
        3,
        Some(DistributedSettings {
            sort_partitioned: true,
            pre_aggregation: false,
            equi_join_broadcast_limit: 4096,
        }),
    )
    .unwrap();
    assert_eq!(s.engine, PyEngine::Streaming);
    assert_eq!(s.prefer_dot, true);
    assert_eq!(s.n_retries, 3);
    match s.query_type {
        PyQueryType::Distributed {
            shuffle_opts,
            pre_aggregation,
            sort_partitioned,
            equi_join_broadcast_limit,
        } => {
            assert_eq!(shuffle_opts, "shuffle-options");
            assert_eq!(pre_aggregation, false);
            assert_eq!(sort_partitioned, true);
            assert_eq!(equi_join_broadcast_limit, 4096);
        },
        PyQueryType::Single => panic!("expected a distributed run"),
    }
}
