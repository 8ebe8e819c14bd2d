use tx3_mcp::errors::ToolError;
use tx3_mcp::opname::{route, split_dash_exec};

#[test]
fn route_resolve_decodes() {
    let key = route("resolve-acme-swap").unwrap();
    assert_eq!(key.action, "resolve");
    assert_eq!(key.protocol, "acme");
    assert_eq!(key.transaction, "swap");
}

#[test]
fn route_describe_decodes() {
    let key = route("describe-acme-swap").unwrap();
    assert_eq!(key.action, "describe");
    assert_eq!(key.protocol, "acme");
    assert_eq!(key.transaction, "swap");
}

#[test]
fn route_two_components_reports_missing_transaction() {
    let err = route("resolve-acme").unwrap_err();
    assert_eq!(err, ToolError::TransactionNameMissing);
    assert_eq!(err.message(), "Transaction name not found");
}

#[test]
fn route_single_component_reports_missing_protocol() {
    let err = route("resolve").unwrap_err();
    assert_eq!(err, ToolError::ProtocolNameMissing);
    assert_eq!(err.message(), "Protocol name not found");
}

#[test]
fn route_extra_components_are_ignored() {
    let key = route("resolve-acme-swap-extra-bits").unwrap();
    assert_eq!(key.action, "resolve");
    assert_eq!(key.protocol, "acme");
    assert_eq!(key.transaction, "swap");
}

#[test]
fn route_empty_components_are_kept() {
    let key = route("a--b").unwrap();
    assert_eq!(key.action, "a");
    assert_eq!(key.protocol, "");
    assert_eq!(key.transaction, "b");
}

#[test]
fn split_keeps_every_component() {
    let parts = split_dash_exec("one-two-three-four");
    assert_eq!(parts, vec!["one", "two", "three", "four"]);
}

#[test]
fn split_of_plain_string_is_one_component() {
    let parts = split_dash_exec("plain");
    assert_eq!(parts, vec!["plain"]);
}

#[test]
fn split_of_empty_string_is_one_empty_component() {
    let parts = split_dash_exec("");
    assert_eq!(parts, vec![""]);
}

#[test]
fn split_leading_and_trailing_dashes() {
    let parts = split_dash_exec("-x-");
    assert_eq!(parts, vec!["", "x", ""]);
}
