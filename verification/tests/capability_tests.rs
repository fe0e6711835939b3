use spin_python_engine::config;
use spin_python_engine::error::{translate_host_outcome, ErrorKind};
use spin_python_engine::http_out::{interpret_outbound_response, prepare_outbound_request};
use spin_python_engine::kv;
use spin_python_engine::llm::{
    options_or_default, select_embedding_model, select_inferencing_model, EmbeddingModelChoice,
    InferencingModelChoice, InferencingOptions,
};
use spin_python_engine::redis::{
    classify_arguments, decode_results, interpret_del, interpret_execute_results, interpret_get,
    interpret_incr, interpret_publish, RedisOutcome, RedisParam,
};
use spin_python_engine::sqlite::{classify_parameters, rows_to_guest, QueryResultData, SqlValue};
use spin_python_engine::value::GuestValue;
use spin_python_engine::wire::GuestRequest;

#[test]
fn kv_get_missing_key_returns_guest_null() {
    let r = kv::interpret_get(Ok(None)).unwrap();
    assert!(matches!(r, GuestValue::Null));
}

#[test]
fn kv_get_present_key_returns_bytes() {
    let r = kv::interpret_get(Ok(Some(b"value".to_vec()))).unwrap();
    assert!(matches!(r, GuestValue::Bytes(b) if b == b"value".to_vec()));
}

#[test]
fn kv_get_store_failure_is_capability_failure() {
    let e = kv::interpret_get(Err("store unreachable".to_string())).unwrap_err();
    assert_eq!(e.kind, ErrorKind::CapabilityFailure);
    assert_eq!(e.message, "store unreachable");
}

#[test]
fn kv_open_outcomes() {
    let h = kv::interpret_open(Ok(3)).unwrap();
    assert_eq!(h.id, 3);
    let e = kv::interpret_open(Err("no such store".to_string())).unwrap_err();
    assert_eq!(e.kind, ErrorKind::CapabilityFailure);
}

#[test]
fn host_outcome_translation_is_uniform() {
    let ok: Result<u32, _> = translate_host_outcome(Ok(5u32));
    assert_eq!(ok.unwrap(), 5);
    let e = translate_host_outcome::<u32>(Err("backend failure".to_string())).unwrap_err();
    assert_eq!(e.kind, ErrorKind::CapabilityFailure);
    assert_eq!(e.message, "backend failure");
}

#[test]
fn config_lookup_collapses_failures() {
    assert_eq!(config::interpret_get(Ok("v".to_string())).unwrap(), "v");
    let missing = config::interpret_get(Err("missing key".to_string())).unwrap_err();
    let backend = config::interpret_get(Err("backend failure".to_string())).unwrap_err();
    assert_eq!(missing.kind, backend.kind);
    assert_eq!(missing.kind, ErrorKind::CapabilityFailure);
}

#[test]
fn sqlite_parameters_route_to_matching_variants() {
    let params = vec![
        GuestValue::Int(1),
        GuestValue::Real(2.5f64.to_bits()),
        GuestValue::Text("x".to_string()),
        GuestValue::Null,
    ];
    let ps = classify_parameters(&params).unwrap();
    assert_eq!(ps.len(), 4);
    assert_eq!(ps[0], SqlValue::Integer(1));
    assert_eq!(ps[1], SqlValue::Real(2.5f64.to_bits()));
    assert!(f64::from_bits(2.5f64.to_bits()) == 2.5);
    assert_eq!(ps[2], SqlValue::Text("x".to_string()));
    assert_eq!(ps[3], SqlValue::Null);
}

#[test]
fn sqlite_blob_parameter_keeps_bytes() {
    let params = vec![GuestValue::Bytes(vec![0, 1, 2])];
    let ps = classify_parameters(&params).unwrap();
    assert_eq!(ps[0], SqlValue::Blob(vec![0, 1, 2]));
}

#[test]
fn sqlite_list_parameter_is_invalid_argument() {
    let params = vec![GuestValue::List(vec![GuestValue::Int(1)])];
    let e = classify_parameters(&params).unwrap_err();
    assert_eq!(e.kind, ErrorKind::InvalidArgument);
    assert_eq!(
        e.message,
        "Unable to use a list as a SQLite `execute` parameter -- expected `int`, `float`, `bytes`, `string`, or `None`"
    );
}

#[test]
fn sqlite_mapping_parameter_is_invalid_argument() {
    let params = vec![GuestValue::Mapping(vec![(
        "k".to_string(),
        GuestValue::Int(1),
    )])];
    let e = classify_parameters(&params).unwrap_err();
    assert_eq!(e.kind, ErrorKind::InvalidArgument);
    assert_eq!(
        e.message,
        "Unable to use a mapping as a SQLite `execute` parameter -- expected `int`, `float`, `bytes`, `string`, or `None`"
    );
}

#[test]
fn sqlite_rows_render_as_guest_values() {
    let result = QueryResultData {
        columns: vec!["id".to_string(), "name".to_string()],
        rows: vec![
            vec![SqlValue::Integer(1), SqlValue::Text("a".to_string())],
            vec![SqlValue::Null, SqlValue::Blob(vec![9])],
        ],
    };
    let rows = rows_to_guest(&result);
    assert_eq!(rows.len(), 2);
    assert!(matches!(rows[0][0], GuestValue::Int(1)));
    assert!(matches!(&rows[0][1], GuestValue::Text(t) if t == "a"));
    assert!(matches!(rows[1][0], GuestValue::Null));
    assert!(matches!(&rows[1][1], GuestValue::Bytes(b) if b == &vec![9u8]));
    assert_eq!(result.columns, vec!["id".to_string(), "name".to_string()]);
}

#[test]
fn redis_binary_round_trips_exactly() {
    for len in [0usize, 1, 1024] {
        let payload: Vec<u8> = (0..len).map(|i| (i % 251) as u8).collect();
        let args = vec![GuestValue::Bytes(payload.clone())];
        let ps = classify_arguments(&args).unwrap();
        let RedisParam::Binary(sent) = &ps[0] else {
            panic!("expected a binary argument");
        };
        // the host echoes the binary payload back
        let results = vec![RedisOutcome::Binary(sent.clone())];
        let decoded = decode_results(&results);
        assert!(matches!(&decoded[0], GuestValue::Bytes(b) if *b == payload));
    }
}

#[test]
fn redis_arguments_accept_only_int_and_bytes() {
    let ps = classify_arguments(&vec![GuestValue::Int(-4), GuestValue::Bytes(vec![1])]).unwrap();
    assert_eq!(ps, vec![RedisParam::Int64(-4), RedisParam::Binary(vec![1])]);
    let e = classify_arguments(&vec![GuestValue::Text("no".to_string())]).unwrap_err();
    assert_eq!(e.kind, ErrorKind::InvalidArgument);
    assert_eq!(
        e.message,
        "Unable to use the guest value as a Redis `execute` argument -- expected `int` or `bytes`"
    );
    let e = classify_arguments(&vec![GuestValue::Real(1.5f64.to_bits())]).unwrap_err();
    assert_eq!(e.kind, ErrorKind::InvalidArgument);
}

#[test]
fn redis_results_decode_per_tag() {
    let results = vec![
        RedisOutcome::Nil,
        RedisOutcome::Status("OK".to_string()),
        RedisOutcome::Int64(12),
        RedisOutcome::Binary(vec![1, 2]),
    ];
    let decoded = decode_results(&results);
    assert!(matches!(decoded[0], GuestValue::Null));
    assert!(matches!(&decoded[1], GuestValue::Text(t) if t == "OK"));
    assert!(matches!(decoded[2], GuestValue::Int(12)));
    assert!(matches!(&decoded[3], GuestValue::Bytes(b) if b == &vec![1u8, 2u8]));
}

#[test]
fn redis_command_failures_use_fixed_diagnostics() {
    assert_eq!(
        interpret_get(Err(())).unwrap_err().message,
        "Error executing Redis get command"
    );
    assert_eq!(
        interpret_incr(Err(())).unwrap_err().message,
        "Error executing Redis incr command"
    );
    assert_eq!(
        interpret_publish(Err(())).unwrap_err().message,
        "Error executing Redis publish command"
    );
    assert_eq!(
        interpret_del(Err(())).unwrap_err().message,
        "Error executing Redis set command"
    );
    assert_eq!(
        interpret_execute_results(Err(())).unwrap_err().message,
        "Error executing Redis set command"
    );
    assert_eq!(interpret_del(Ok(2)).unwrap(), 2);
    assert_eq!(interpret_get(Ok(vec![5])).unwrap(), vec![5]);
}

#[test]
fn llm_known_models_are_recognized() {
    assert_eq!(
        select_inferencing_model("llama2-chat".to_string()),
        InferencingModelChoice::Llama2Chat
    );
    assert_eq!(
        select_inferencing_model("codellama-instruct".to_string()),
        InferencingModelChoice::CodellamaInstruct
    );
    assert_eq!(
        select_embedding_model("all-minilm-l6-v2".to_string()),
        EmbeddingModelChoice::AllMiniLmL6V2
    );
}

#[test]
fn llm_unknown_model_passes_through_verbatim() {
    assert_eq!(
        select_inferencing_model("my-custom-model".to_string()),
        InferencingModelChoice::Other("my-custom-model".to_string())
    );
    assert_eq!(
        select_embedding_model("tiny".to_string()),
        EmbeddingModelChoice::Other("tiny".to_string())
    );
}

#[test]
fn llm_absent_options_fall_back_to_defaults() {
    let d = options_or_default(None);
    assert_eq!(d.max_tokens, 100);
    assert_eq!(d.repeat_penalty_last_n_token_count, 64);
    assert_eq!(d.top_k, 40);
    assert!(f32::from_bits(d.repeat_penalty_bits) == 1.1);
    assert!(f32::from_bits(d.temperature_bits) == 0.8);
    assert!(f32::from_bits(d.top_p_bits) == 0.9);
    let custom = InferencingOptions::new(5, 0, 1, 0, 2, 0);
    assert_eq!(options_or_default(Some(custom)), custom);
}

#[test]
fn outbound_request_validation_uses_the_transport_rules() {
    let good = GuestRequest::new(
        "POST".to_string(),
        "https://example.com/p?q=1".to_string(),
        vec![("content-type".to_string(), "text/plain".to_string())],
        Some(vec![1]),
    );
    let o = prepare_outbound_request(good).unwrap();
    assert_eq!(o.method, "POST");
    assert_eq!(o.uri, "https://example.com/p?q=1");
    assert_eq!(o.body, Some(vec![1]));

    let bad_method = GuestRequest::new("GE T".to_string(), "/".to_string(), vec![], None);
    assert_eq!(
        prepare_outbound_request(bad_method).unwrap_err().kind,
        ErrorKind::ConversionFailure
    );

    let bad_uri = GuestRequest::new("GET".to_string(), "http://[".to_string(), vec![], None);
    assert_eq!(
        prepare_outbound_request(bad_uri).unwrap_err().kind,
        ErrorKind::ConversionFailure
    );

    let bad_header = GuestRequest::new(
        "GET".to_string(),
        "/".to_string(),
        vec![("ok".to_string(), "a\u{0000}b".to_string())],
        None,
    );
    assert_eq!(
        prepare_outbound_request(bad_header).unwrap_err().kind,
        ErrorKind::ConversionFailure
    );
}

#[test]
fn outbound_response_headers_collapse_to_text_or_fail() {
    let g = interpret_outbound_response(
        201,
        vec![("server".to_string(), b"nginx".to_vec())],
        Some(vec![7]),
    )
    .unwrap();
    assert_eq!(g.status, 201);
    assert_eq!(g.headers, vec![("server".to_string(), "nginx".to_string())]);
    assert_eq!(g.body, Some(vec![7]));

    let e = interpret_outbound_response(200, vec![("h".to_string(), vec![0xff])], None)
        .unwrap_err();
    assert_eq!(e.kind, ErrorKind::ConversionFailure);
}
