use tx3_mcp::coerce::coerce_args;
use tx3_mcp::errors::ToolError;
use tx3_mcp::model::{ArgValue, ParamType};

fn params() -> Vec<(String, ParamType)> {
    vec![
        ("amount".to_string(), ParamType::Int),
        ("flag".to_string(), ParamType::Bool),
        ("data".to_string(), ParamType::Bytes),
        ("owner".to_string(), ParamType::Address),
    ]
}

fn arg(name: &str, value: &str) -> (String, Option<String>) {
    (name.to_string(), Some(value.to_string()))
}

#[test]
fn int_value_coerces_to_integer() {
    let out = coerce_args(&params(), &vec![arg("amount", "42")], "swap", "acme").unwrap();
    assert_eq!(out, vec![("amount".to_string(), ArgValue::Int(42))]);
}

#[test]
fn unparsable_int_is_reported_not_fatal() {
    let err = coerce_args(&params(), &vec![arg("amount", "abc")], "swap", "acme").unwrap_err();
    assert_eq!(
        err,
        ToolError::InvalidValue {
            parameter: "amount".to_string()
        }
    );
    assert_eq!(err.message(), "Invalid value provided for parameter amount");
}

#[test]
fn bool_true_coerces() {
    let out = coerce_args(&params(), &vec![arg("flag", "true")], "swap", "acme").unwrap();
    assert_eq!(out, vec![("flag".to_string(), ArgValue::Bool(true))]);
}

#[test]
fn bool_malformed_is_reported() {
    let err = coerce_args(&params(), &vec![arg("flag", "notabool")], "swap", "acme").unwrap_err();
    assert_eq!(
        err,
        ToolError::InvalidValue {
            parameter: "flag".to_string()
        }
    );
}

#[test]
fn bytes_and_address_pass_through_unchanged() {
    let out = coerce_args(
        &params(),
        &vec![arg("data", "00ffzz not validated"), arg("owner", "addr1qxy")],
        "swap",
        "acme",
    )
    .unwrap();
    assert_eq!(
        out,
        vec![
            (
                "data".to_string(),
                ArgValue::Text("00ffzz not validated".to_string())
            ),
            ("owner".to_string(), ArgValue::Text("addr1qxy".to_string())),
        ]
    );
}

#[test]
fn unknown_parameter_is_reported_by_name() {
    let err = coerce_args(
        &params(),
        &vec![arg("amount", "1"), arg("mystery", "x")],
        "swap",
        "acme",
    )
    .unwrap_err();
    assert_eq!(
        err,
        ToolError::ParameterNotFound {
            parameter: "mystery".to_string(),
            transaction: "swap".to_string(),
            protocol: "acme".to_string(),
        }
    );
    assert_eq!(
        err.message(),
        "Parameter mystery not found for transaction swap in protocol acme"
    );
}

#[test]
fn non_string_value_is_reported() {
    let err = coerce_args(
        &params(),
        &vec![("amount".to_string(), None)],
        "swap",
        "acme",
    )
    .unwrap_err();
    assert_eq!(
        err,
        ToolError::InvalidValue {
            parameter: "amount".to_string()
        }
    );
}

#[test]
fn unsupported_declared_type_rejects_any_value() {
    let exotic = vec![("pair".to_string(), ParamType::Other("Tuple".to_string()))];
    let err = coerce_args(&exotic, &vec![arg("pair", "anything")], "swap", "acme").unwrap_err();
    assert_eq!(
        err,
        ToolError::InvalidValue {
            parameter: "pair".to_string()
        }
    );
}

#[test]
fn first_offending_argument_decides() {
    let err = coerce_args(
        &params(),
        &vec![arg("amount", "bad"), arg("mystery", "x")],
        "swap",
        "acme",
    )
    .unwrap_err();
    assert_eq!(
        err,
        ToolError::InvalidValue {
            parameter: "amount".to_string()
        }
    );
}

#[test]
fn empty_arguments_coerce_to_empty_map() {
    let out = coerce_args(&params(), &vec![], "swap", "acme").unwrap();
    assert!(out.is_empty());
}

#[test]
fn int_boundary_values_coerce() {
    let out = coerce_args(
        &params(),
        &vec![arg("amount", "-170141183460469231731687303715884105728")],
        "swap",
        "acme",
    )
    .unwrap();
    assert_eq!(out, vec![("amount".to_string(), ArgValue::Int(i128::MIN))]);
    let err = coerce_args(
        &params(),
        &vec![arg("amount", "170141183460469231731687303715884105728")],
        "swap",
        "acme",
    )
    .unwrap_err();
    assert_eq!(
        err,
        ToolError::InvalidValue {
            parameter: "amount".to_string()
        }
    );
}

#[test]
fn repeated_argument_names_each_coerce() {
    let out = coerce_args(
        &params(),
        &vec![arg("amount", "1"), arg("amount", "2")],
        "swap",
        "acme",
    )
    .unwrap();
    assert_eq!(
        out,
        vec![
            ("amount".to_string(), ArgValue::Int(1)),
            ("amount".to_string(), ArgValue::Int(2)),
        ]
    );
}
