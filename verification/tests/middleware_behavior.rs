//! The interception decisions: gating, sequence numbers, pass-through.

use jsonrpc_core::{Call, Failure, Id as RpcId, MethodCall, Notification, Output, Params, Success,
    Version};
use rpc_middleware::{on_call_finish, CallInfo, FinishLine, Id, OutputInfo, RpcMetrics,
    RpcMiddleware, Severity, StartLine};

fn middleware() -> RpcMiddleware {
    let metrics = RpcMetrics::new(None).expect("no registry, so no error");
    RpcMiddleware::new(metrics, "http")
}

fn method_call(id: u64, method: &str, params_json: &str) -> Call {
    Call::MethodCall(MethodCall {
        jsonrpc: Some(Version::V2),
        method: String::from(method),
        params: serde_json::from_str::<Params>(params_json).expect("valid params"),
        id: RpcId::Num(id),
    })
}

fn success(id: u64, result_json: &str) -> Output {
    Output::Success(Success {
        jsonrpc: Some(Version::V2),
        result: serde_json::from_str(result_json).expect("valid result"),
        id: RpcId::Num(id),
    })
}

#[test]
fn disabled_diagnostics_do_nothing_at_start() {
    let mut mw = middleware();
    let call = method_call(1, "m", "[]");
    let info = CallInfo::MethodCall { id: Id::Num(1), method: String::from("m") };
    for _ in 0..5 {
        // with diagnostics off the caller need not even classify the call
        let report = mw.on_call_start(call.clone(), None, false, false);
        assert!(report.seq.is_none());
        assert_eq!(report.line, StartLine::Skipped);
        assert_eq!(report.call, call);
    }
    // the sequence counter did not move: the next call with diagnostics on
    // still takes number 0
    let report = mw.on_call_start(call.clone(), Some(&info), true, false);
    assert_eq!(report.seq, Some(0));
}

#[test]
fn request_comes_back_exactly_as_it_went_in() {
    let mw = middleware();
    let request = jsonrpc_core::Request::Single(method_call(1, "m", "[]"));
    let (forwarded, count_under) = mw.on_request(request.clone());
    assert_eq!(forwarded, request);
    // no counter was registered, so there is nothing to count under
    assert_eq!(count_under, None);
}

#[test]
fn disabled_diagnostics_do_nothing_at_finish() {
    let output = success(1, "true");
    let info = OutputInfo::Success { id: Id::Num(1) };
    let (out, line) = on_call_finish(Some(output.clone()), Some(&info), 0, "m", 3, false);
    assert_eq!(out, Some(output));
    assert_eq!(line, FinishLine::Skipped);
}

#[test]
fn coarse_diagnostics_allocate_a_sequence_number_but_no_line() {
    let mut mw = middleware();
    let call = method_call(1, "m", "[]");
    let info = CallInfo::MethodCall { id: Id::Num(1), method: String::from("m") };
    let report = mw.on_call_start(call.clone(), Some(&info), true, false);
    assert_eq!(report.seq, Some(0));
    assert_eq!(report.line, StartLine::Skipped);
    assert_eq!(report.call, call);
}

#[test]
fn sequence_numbers_of_a_burst_are_pairwise_distinct() {
    let mut mw = middleware();
    let call = method_call(1, "m", "[]");
    let info = CallInfo::MethodCall { id: Id::Num(1), method: String::from("m") };
    let mut seen: Vec<usize> = Vec::new();
    for _ in 0..50 {
        let report = mw.on_call_start(call.clone(), Some(&info), true, false);
        seen.push(report.seq.expect("diagnostics on"));
    }
    for i in 0..seen.len() {
        for j in 0..seen.len() {
            if i != j {
                assert_ne!(seen[i], seen[j]);
            }
        }
    }
}

#[test]
fn fine_diagnostics_render_the_start_line_with_the_serialized_length() {
    let mut mw = middleware();
    let call = method_call(7, "chain_getBlock", "[\"0x1\"]");
    let info = CallInfo::MethodCall { id: Id::Num(7), method: String::from("chain_getBlock") };
    let expected_len = serde_json::to_string(&call).expect("serializable").len();
    let report = mw.on_call_start(call.clone(), Some(&info), true, true);
    assert_eq!(report.seq, Some(0));
    assert_eq!(report.call, call);
    match report.line {
        StartLine::Rendered { len, line } => {
            assert_eq!(len, expected_len);
            assert_eq!(
                line,
                format!(
                    "Request [id: 7 - server_id: 0 - method: chain_getBlock - {} bytes]",
                    expected_len
                )
            );
        }
        other => panic!("expected a rendered start line, got {:?}", other),
    }
}

#[test]
fn method_call_scenario_produces_two_correlated_lines() {
    // a method call with id 7 whose outcome arrives 5 ms later
    let mut mw = middleware();
    let call = method_call(7, "chain_getBlock", "[]");
    let info = CallInfo::MethodCall { id: Id::Num(7), method: String::from("chain_getBlock") };
    let report = mw.on_call_start(call.clone(), Some(&info), true, true);
    let seq = report.seq.expect("diagnostics on");
    assert_eq!(report.call, call);
    let start_line = match report.line {
        StartLine::Rendered { line, .. } => line,
        other => panic!("expected a rendered start line, got {:?}", other),
    };

    let output = success(7, "{\"hash\":\"0x1\"}");
    let expected_len = serde_json::to_string(&output).expect("serializable").len();
    let out_info = OutputInfo::Success { id: Id::Num(7) };
    let (out, finish) = on_call_finish(
        Some(output.clone()),
        Some(&out_info),
        seq,
        "chain_getBlock",
        5,
        true,
    );
    assert_eq!(out, Some(output));
    match finish {
        FinishLine::Rendered { severity, len, line } => {
            assert_eq!(severity, Severity::Debug);
            assert_eq!(len, expected_len);
            assert_eq!(
                line,
                format!(
                    "Response [id: 7 - server_id: {} - method: chain_getBlock - {} bytes - Processing took 5 ms]: success",
                    seq, expected_len
                )
            );
        }
        other => panic!("expected a rendered completion line, got {:?}", other),
    }
    // both lines reference id 7, the same sequence number and the method
    assert!(start_line.contains("id: 7"));
    assert!(start_line.contains(&format!("server_id: {}", seq)));
    assert!(start_line.contains("chain_getBlock"));
}

#[test]
fn notification_gets_a_start_line_but_no_completion_line() {
    let mut mw = middleware();
    let call = Call::Notification(Notification {
        jsonrpc: Some(Version::V2),
        method: String::from("author_submit"),
        params: Params::None,
    });
    let info = CallInfo::Notification { method: String::from("author_submit") };
    let report = mw.on_call_start(call, Some(&info), true, true);
    match report.line {
        StartLine::Rendered { line, .. } => {
            assert!(line.starts_with("Request [id: null - server_id: 0 - method: author_submit"));
        }
        other => panic!("expected a rendered start line, got {:?}", other),
    }
    // a notification's downstream stage resolves to no outcome at all
    let (out, finish) = on_call_finish(None, None, 0, "author_submit", 2, true);
    assert_eq!(out, None);
    assert_eq!(finish, FinishLine::Skipped);
}

#[test]
fn invalid_call_is_reported_with_its_id_and_no_method() {
    let mut mw = middleware();
    let call = Call::Invalid { id: RpcId::Num(5) };
    let info = CallInfo::Invalid { id: Id::Num(5) };
    let expected_len = serde_json::to_string(&call).expect("serializable").len();
    let report = mw.on_call_start(call, Some(&info), true, true);
    match report.line {
        StartLine::Rendered { len, line } => {
            assert_eq!(len, expected_len);
            assert_eq!(
                line,
                format!(
                    "Request [id: 5 - server_id: 0 - method:  - {} bytes]",
                    expected_len
                )
            );
        }
        other => panic!("expected a rendered start line, got {:?}", other),
    }
}

#[test]
fn failure_outcome_is_reported_at_error_severity_and_passed_through() {
    let failure = Output::Failure(Failure {
        jsonrpc: Some(Version::V2),
        error: jsonrpc_core::Error::method_not_found(),
        id: RpcId::Num(9),
    });
    let expected_len = serde_json::to_string(&failure).expect("serializable").len();
    let info = OutputInfo::Failure {
        id: Id::Num(9),
        error: failure_error_text(&failure),
    };
    let (out, finish) = on_call_finish(Some(failure.clone()), Some(&info), 4, "nope", 11, true);
    assert_eq!(out, Some(failure.clone()));
    match finish {
        FinishLine::Rendered { severity, len, line } => {
            assert_eq!(severity, Severity::Error);
            assert_eq!(len, expected_len);
            assert_eq!(
                line,
                format!(
                    "Response [id: 9 - server_id: 4 - method: nope - {} bytes - Processing took 11 ms]: {}",
                    expected_len,
                    failure_error_text(&failure)
                )
            );
        }
        other => panic!("expected a rendered completion line, got {:?}", other),
    }
}

fn failure_error_text(output: &Output) -> String {
    match output {
        Output::Failure(f) => f.error.to_string(),
        Output::Success(_) => panic!("not a failure"),
    }
}

#[test]
fn pass_through_is_idempotent_across_independent_stub_stages() {
    // the same call run through two independent middleware pipelines, each
    // downstream stub resolving to the same fixed outcome, is observed
    // identically both times, and the call itself is never mutated
    let call = method_call(3, "state_call", "[1,2]");
    let call_before = call.clone();
    let fixed = success(3, "\"done\"");
    let mut observed: Vec<Option<Output>> = Vec::new();
    for _ in 0..2 {
        let mut mw = middleware();
        let info = CallInfo::MethodCall { id: Id::Num(3), method: String::from("state_call") };
        let report = mw.on_call_start(call.clone(), Some(&info), true, true);
        assert_eq!(report.call, call);
        let out_info = OutputInfo::Success { id: Id::Num(3) };
        let (out, _) = on_call_finish(
            Some(fixed.clone()),
            Some(&out_info),
            report.seq.expect("diagnostics on"),
            "state_call",
            0,
            true,
        );
        observed.push(out);
    }
    assert_eq!(observed[0], observed[1]);
    assert_eq!(observed[0], Some(fixed));
    assert_eq!(call, call_before);
}
