use tx3_mcp::loader::{protocols_from_dir, protocols_from_nodes};
use tx3_mcp::model::{Dapp, DappConnection, DirEntry, ProtocolsQuery};

fn entry(name: &str, content: Option<&str>) -> DirEntry {
    DirEntry {
        file_name: name.to_string(),
        content: content.map(|c| c.to_string()),
    }
}

#[test]
fn dir_load_keeps_only_readable_tx3_files() {
    let entries = vec![
        entry("alpha.tx3", Some("alpha source")),
        entry("notes.txt", Some("not a protocol")),
        entry("broken.tx3", None),
        entry("beta.tx3", Some("beta source")),
    ];
    let protocols = protocols_from_dir(&entries);
    assert_eq!(protocols.len(), 2);
    assert_eq!(protocols[0].name, "alpha");
    assert_eq!(protocols[0].content, "alpha source");
    assert_eq!(protocols[1].name, "beta");
    assert_eq!(protocols[1].content, "beta source");
}

#[test]
fn dir_load_unreadable_file_is_skipped_not_fatal() {
    let entries = vec![entry("only.tx3", None)];
    let protocols = protocols_from_dir(&entries);
    assert!(protocols.is_empty());
}

#[test]
fn dir_load_extension_must_match_exactly() {
    let entries = vec![
        entry("a.tx3x", Some("x")),
        entry("tx3", Some("x")),
        entry(".tx3", Some("hidden")),
    ];
    let protocols = protocols_from_dir(&entries);
    assert_eq!(protocols.len(), 1);
    assert_eq!(protocols[0].name, "");
    assert_eq!(protocols[0].content, "hidden");
}

fn dapp(scope: &str, name: &str, protocol: Option<&str>) -> Dapp {
    Dapp {
        scope: scope.to_string(),
        name: name.to_string(),
        protocol: protocol.map(|p| p.to_string()),
    }
}

#[test]
fn registry_all_without_protocol_yields_empty() {
    let nodes = vec![
        dapp("alice", "one", None),
        dapp("bob", "two", None),
    ];
    let protocols = protocols_from_nodes(&nodes);
    assert!(protocols.is_empty());
}

#[test]
fn registry_names_join_scope_and_name() {
    let nodes = vec![
        dapp("alice", "dex", Some("sources")),
        dapp("bob", "vault", None),
        dapp("carol", "mint", Some("more sources")),
    ];
    let protocols = protocols_from_nodes(&nodes);
    assert_eq!(protocols.len(), 2);
    assert_eq!(protocols[0].name, "alice_dex");
    assert_eq!(protocols[0].content, "sources");
    assert_eq!(protocols[1].name, "carol_mint");
    assert_eq!(protocols[1].content, "more sources");
}

#[test]
fn query_answer_yields_its_protocols() {
    let query = ProtocolsQuery {
        dapps: DappConnection {
            nodes: vec![dapp("alice", "dex", Some("src"))],
        },
    };
    let protocols = query.protocols();
    assert_eq!(protocols.len(), 1);
    assert_eq!(protocols[0].name, "alice_dex");
}
