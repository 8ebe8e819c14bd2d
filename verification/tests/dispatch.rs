use tx3_mcp::errors::ToolError;
use tx3_mcp::forward::{build_resolution_request, resolution_reply};
use tx3_mcp::model::{ArgValue, Protocol};
use tx3_mcp::server::{call_tool, CallOutcome, Hook, HookDisposition, hook_disposition};

fn acme_source() -> String {
    r#"
party Sender;
party Receiver;

tx swap(
    amount: Int,
    quote: Bytes
) {
    input source {
        from: Sender,
        min_amount: Ada(amount),
    }

    output {
        to: Receiver,
        amount: Ada(amount),
        datum: (amount, quote),
    }
}
"#
    .to_string()
}

fn protocols() -> Vec<Protocol> {
    vec![Protocol {
        name: "acme".to_string(),
        content: acme_source(),
    }]
}

fn arg(name: &str, value: &str) -> (String, Option<String>) {
    (name.to_string(), Some(value.to_string()))
}

#[test]
fn describe_returns_parameter_types_without_resolving() {
    let outcome = call_tool(&protocols(), "describe-acme-swap", &vec![]).unwrap();
    match outcome {
        CallOutcome::Describe(payload) => {
            assert_eq!(payload.protocol, "acme");
            assert_eq!(payload.transaction, "swap");
            assert_eq!(
                payload.parameters,
                vec![
                    ("amount".to_string(), "Int".to_string()),
                    ("quote".to_string(), "Bytes".to_string()),
                    ("receiver".to_string(), "Address".to_string()),
                    ("sender".to_string(), "Address".to_string()),
                ]
            );
        }
        CallOutcome::Resolve(_) => panic!("describe must not build a resolution request"),
    }
}

#[test]
fn resolve_builds_request_with_coerced_arguments() {
    let outcome = call_tool(
        &protocols(),
        "resolve-acme-swap",
        &vec![
            arg("amount", "42"),
            arg("quote", "cafe"),
            arg("receiver", "addr1rcv"),
            arg("sender", "addr1snd"),
        ],
    )
    .unwrap();
    match outcome {
        CallOutcome::Resolve(request) => {
            assert_eq!(request.encoding, "hex");
            assert_eq!(request.version, "v1beta0");
            assert_eq!(
                request.args,
                vec![
                    ("amount".to_string(), ArgValue::Int(42)),
                    ("quote".to_string(), ArgValue::Text("cafe".to_string())),
                    ("receiver".to_string(), ArgValue::Text("addr1rcv".to_string())),
                    ("sender".to_string(), ArgValue::Text("addr1snd".to_string())),
                ]
            );
            assert!(!request.bytecode.is_empty());
            assert!(hex::decode(&request.bytecode).is_ok());
        }
        CallOutcome::Describe(_) => panic!("resolve must build a resolution request"),
    }
}

#[test]
fn unknown_protocol_is_reported() {
    let err = call_tool(&protocols(), "resolve-ghost-swap", &vec![]).unwrap_err();
    assert_eq!(
        err,
        ToolError::ProtocolNotFound {
            protocol: "ghost".to_string()
        }
    );
    assert_eq!(err.message(), "Protocol ghost not found");
}

#[test]
fn unknown_transaction_is_reported() {
    let err = call_tool(&protocols(), "resolve-acme-burn", &vec![]).unwrap_err();
    assert_eq!(
        err,
        ToolError::TransactionNotFound {
            transaction: "burn".to_string(),
            protocol: "acme".to_string()
        }
    );
    assert_eq!(err.message(), "Transaction burn not found for protocol acme");
}

#[test]
fn missing_transaction_component_is_reported() {
    let err = call_tool(&protocols(), "resolve-acme", &vec![]).unwrap_err();
    assert_eq!(err, ToolError::TransactionNameMissing);
}

#[test]
fn rejected_source_is_reported_per_invocation() {
    let bad = vec![Protocol {
        name: "acme".to_string(),
        content: "garbage".to_string(),
    }];
    let err = call_tool(&bad, "resolve-acme-swap", &vec![]).unwrap_err();
    match err {
        ToolError::Compilation { protocol, .. } => assert_eq!(protocol, "acme"),
        other => panic!("expected a compilation report, got {:?}", other),
    }
}

#[test]
fn bad_argument_surfaces_as_report_not_fault() {
    let err = call_tool(
        &protocols(),
        "resolve-acme-swap",
        &vec![arg("amount", "abc")],
    )
    .unwrap_err();
    assert_eq!(
        err,
        ToolError::InvalidValue {
            parameter: "amount".to_string()
        }
    );
}

#[test]
fn unknown_action_still_resolves() {
    let outcome = call_tool(
        &protocols(),
        "whatever-acme-swap",
        &vec![
            arg("amount", "1"),
            arg("quote", "00"),
            arg("receiver", "addr1rcv"),
            arg("sender", "addr1snd"),
        ],
    )
    .unwrap();
    assert!(matches!(outcome, CallOutcome::Resolve(_)));
}

#[test]
fn request_bytecode_is_lowercase_hex_of_ir() {
    let request = build_resolution_request(&vec![0xde, 0xad, 0xbe, 0xef], "v1beta0".to_string(), vec![]);
    assert_eq!(request.bytecode, "deadbeef");
    assert_eq!(request.encoding, "hex");
    let empty = build_resolution_request(&vec![], "v1beta0".to_string(), vec![]);
    assert_eq!(empty.bytecode, "");
}

#[test]
fn resolver_success_passes_the_transaction_through() {
    let reply = resolution_reply(Ok("84a400d901".to_string())).unwrap();
    assert_eq!(reply, "84a400d901");
}

#[test]
fn resolver_failure_is_embedded_verbatim() {
    let err = resolution_reply(Err("missing arg: amount".to_string())).unwrap_err();
    assert_eq!(
        err,
        ToolError::Resolution {
            message: "missing arg: amount".to_string()
        }
    );
    assert_eq!(
        err.message(),
        "Error resolving transaction: missing arg: amount"
    );
}

#[test]
fn facade_hook_table() {
    assert_eq!(hook_disposition(&Hook::ListTools), HookDisposition::Handled);
    assert_eq!(hook_disposition(&Hook::CallTool), HookDisposition::Handled);
    assert_eq!(hook_disposition(&Hook::Initialize), HookDisposition::Handled);
    assert_eq!(hook_disposition(&Hook::Ping), HookDisposition::EmptyResult);
    assert_eq!(hook_disposition(&Hook::ListPrompts), HookDisposition::EmptyResult);
    assert_eq!(hook_disposition(&Hook::ListResources), HookDisposition::EmptyResult);
    assert_eq!(
        hook_disposition(&Hook::ListResourceTemplates),
        HookDisposition::EmptyResult
    );
    assert_eq!(hook_disposition(&Hook::Complete), HookDisposition::NotImplemented);
    assert_eq!(hook_disposition(&Hook::SetLevel), HookDisposition::NotImplemented);
    assert_eq!(hook_disposition(&Hook::GetPrompt), HookDisposition::NotImplemented);
    assert_eq!(hook_disposition(&Hook::ReadResource), HookDisposition::NotImplemented);
    assert_eq!(hook_disposition(&Hook::Subscribe), HookDisposition::NotImplemented);
    assert_eq!(hook_disposition(&Hook::Unsubscribe), HookDisposition::NotImplemented);
}

#[test]
fn server_configuration_keeps_its_endpoints() {
    let tool = tx3_mcp::server::ProtocolTool::new("http://registry", "http://trp", "key");
    assert_eq!(tool.registry_url, "http://registry");
    assert_eq!(tool.trp_url, "http://trp");
    assert_eq!(tool.trp_key, "key");
    assert!(tool.instructions().contains("tx3 files"));
}

#[test]
fn oversized_number_literal_is_reported_not_fatal() {
    let src = r#"
party Sender;
party Receiver;

tx swap(
    amount: Int
) {
    input source {
        from: Sender,
        min_amount: Ada(999999999999999999999999),
    }

    output {
        to: Receiver,
        amount: Ada(amount),
    }
}
"#
    .to_string();
    let bad = vec![Protocol {
        name: "acme".to_string(),
        content: src,
    }];
    let err = call_tool(&bad, "resolve-acme-swap", &vec![]).unwrap_err();
    match &err {
        ToolError::Compilation { protocol, message } => {
            assert_eq!(protocol, "acme");
            assert!(message.contains("outside the supported range"));
        }
        other => panic!("expected a compilation report, got {:?}", other),
    }
}

#[test]
fn odd_length_hex_literal_is_reported_not_fatal() {
    let src = r#"
party Sender;
party Receiver;

tx swap(
    amount: Int
) {
    input source {
        from: Sender,
        min_amount: Ada(amount),
    }

    output {
        to: Receiver,
        amount: Ada(amount),
        datum: 0xabc,
    }
}
"#
    .to_string();
    let bad = vec![Protocol {
        name: "acme".to_string(),
        content: src,
    }];
    let err = call_tool(&bad, "describe-acme-swap", &vec![]).unwrap_err();
    match &err {
        ToolError::Compilation { protocol, .. } => assert_eq!(protocol, "acme"),
        other => panic!("expected a compilation report, got {:?}", other),
    }
}

#[test]
fn missing_required_parameter_is_reported() {
    let err = call_tool(
        &protocols(),
        "resolve-acme-swap",
        &vec![arg("amount", "42")],
    )
    .unwrap_err();
    assert_eq!(
        err,
        ToolError::ParameterMissing {
            parameter: "quote".to_string(),
            transaction: "swap".to_string(),
            protocol: "acme".to_string(),
        }
    );
    assert_eq!(
        err.message(),
        "Required parameter quote missing for transaction swap in protocol acme"
    );
}

#[test]
fn output_reference_with_trivia_is_reported_not_fatal() {
    let src = r#"
party Sender;
party Receiver;

tx swap(
    amount: Int
) {
    input source {
        from: Sender,
        min_amount: Ada(amount),
    }

    output {
        to: Receiver,
        amount: Ada(amount),
        datum: 0xAB #1,
    }
}
"#
    .to_string();
    let bad = vec![Protocol {
        name: "acme".to_string(),
        content: src,
    }];
    let err = call_tool(&bad, "describe-acme-swap", &vec![]).unwrap_err();
    match &err {
        ToolError::Compilation { protocol, .. } => assert_eq!(protocol, "acme"),
        other => panic!("expected a compilation report, got {:?}", other),
    }
}

#[test]
fn adjacent_output_reference_is_accepted_by_the_scan() {
    let src = r#"
party Sender;
party Receiver;

tx swap(
    amount: Int
) {
    input source {
        from: Sender,
        min_amount: Ada(amount),
    }

    output {
        to: Receiver,
        amount: Ada(amount),
        datum: 0xab12#0,
    }
}
"#
    .to_string();
    let ok = vec![Protocol {
        name: "acme".to_string(),
        content: src,
    }];
    let outcome = call_tool(&ok, "describe-acme-swap", &vec![]);
    assert!(outcome.is_ok(), "well-formed reference must compile: {:?}", outcome.err());
}
