use tx3_mcp::builder::build_tools;
use tx3_mcp::errors::ToolError;
use tx3_mcp::model::Protocol;

fn acme_source() -> String {
    r#"
party Sender;
party Receiver;

tx swap(
    amount: Int,
    quote: Bytes
) {
    input source {
        from: Sender,
        min_amount: Ada(amount),
    }

    output {
        to: Receiver,
        amount: Ada(amount),
        datum: (amount, quote),
    }
}

tx mint(
    amount: Int
) {
    input source {
        from: Sender,
        min_amount: Ada(amount),
    }

    output {
        to: Receiver,
        amount: Ada(amount),
    }
}
"#
    .to_string()
}

fn acme() -> Protocol {
    Protocol {
        name: "acme".to_string(),
        content: acme_source(),
    }
}

#[test]
fn two_transactions_emit_four_descriptors() {
    let tools = build_tools(&vec![acme()]).unwrap();
    assert_eq!(tools.len(), 4);
    assert_eq!(tools[0].name, "resolve-acme-swap");
    assert_eq!(tools[1].name, "describe-acme-swap");
    assert_eq!(tools[2].name, "resolve-acme-mint");
    assert_eq!(tools[3].name, "describe-acme-mint");
}

#[test]
fn resolve_descriptor_requires_one_string_property_per_parameter() {
    let tools = build_tools(&vec![acme()]).unwrap();
    assert_eq!(
        tools[0].params,
        vec![
            "amount".to_string(),
            "quote".to_string(),
            "receiver".to_string(),
            "sender".to_string()
        ]
    );
    assert_eq!(
        tools[0].schema_title.as_deref(),
        Some("resolve_acme_swap_params")
    );
    assert_eq!(
        tools[2].params,
        vec![
            "amount".to_string(),
            "receiver".to_string(),
            "sender".to_string()
        ]
    );
    assert_eq!(
        tools[2].schema_title.as_deref(),
        Some("resolve_acme_mint_params")
    );
}

#[test]
fn describe_descriptor_has_empty_schema() {
    let tools = build_tools(&vec![acme()]).unwrap();
    assert!(tools[1].schema_title.is_none());
    assert!(tools[1].params.is_empty());
}

#[test]
fn descriptor_texts_are_exact() {
    let tools = build_tools(&vec![acme()]).unwrap();
    assert_eq!(tools[0].title, "Resolve acme swap");
    assert_eq!(
        tools[0].description,
        "Resolves the transaction 'swap' from the protocol 'acme'"
    );
    assert_eq!(tools[1].title, "Describe acme swap");
    assert_eq!(
        tools[1].description,
        "Describes the transaction 'swap' from the protocol 'acme' and shows the required parameters"
    );
}

#[test]
fn descriptor_annotations_are_fixed() {
    let tools = build_tools(&vec![acme()]).unwrap();
    for t in &tools {
        assert!(t.read_only);
        assert!(!t.destructive);
        assert!(!t.idempotent);
        assert!(t.open_world);
    }
}

#[test]
fn descriptors_follow_protocol_order() {
    let other = Protocol {
        name: "zeta".to_string(),
        content: acme_source(),
    };
    let tools = build_tools(&vec![acme(), other]).unwrap();
    assert_eq!(tools.len(), 8);
    assert_eq!(tools[4].name, "resolve-zeta-swap");
}

#[test]
fn rejected_source_reports_compilation_error() {
    let bad = Protocol {
        name: "bad".to_string(),
        content: "this is not a tx3 protocol".to_string(),
    };
    let err = build_tools(&vec![acme(), bad]).unwrap_err();
    match &err {
        ToolError::Compilation { protocol, .. } => assert_eq!(protocol, "bad"),
        other => panic!("expected a compilation report, got {:?}", other),
    }
    assert!(err.message().starts_with("Error compiling protocol bad: "));
}

#[test]
fn commented_hex_and_bounded_literals_compile() {
    let src = r#"
// reference output 0xabc of the genesis protocol
party Sender;
party Receiver;

tx swap(
    amount: Int
) {
    input source {
        from: Sender,
        min_amount: Ada(1000000),
    }

    output {
        to: Receiver,
        amount: Ada(amount),
        datum: 0xcafe,
    }
}
"#
    .to_string();
    let tools = build_tools(&vec![Protocol {
        name: "acme".to_string(),
        content: src,
    }])
    .unwrap();
    assert_eq!(tools.len(), 2);
    assert_eq!(tools[0].name, "resolve-acme-swap");
}
