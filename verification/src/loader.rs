//! Protocol source loading. Two strategies feed the tool registry: a scan of
//! a local directory (one protocol per readable file with the tx3
//! extension), and a registry query (one protocol per dapp node whose
//! protocol field is present, named `scope_name`). Both are pure functions
//! of the scanned entries or the query's answer; reading the directory and
//! issuing the query stay outside the library.

use vstd::prelude::*;
use crate::model::{Dapp, DappV, DirEntry, DirEntryV, Protocol, ProtocolV, ProtocolsQuery};
use crate::text::str_eq;

verus! {

/// The file extension the directory loader recognizes.
pub open spec fn tx3_ext() -> Seq<char> {
    ".tx3"@
}

/// True when a scanned entry contributes a protocol: its file name ends
/// with the tx3 extension and its contents could be read.
pub open spec fn dir_entry_loads(e: DirEntryV) -> bool {
    &&& e.file_name.len() >= 4
    &&& e.file_name.skip(e.file_name.len() - 4) == tx3_ext()
    &&& e.content is Some
}

/// The protocol a loading entry yields: the file stem as the name, the
/// file's contents as the source text.
pub open spec fn dir_entry_protocol(e: DirEntryV) -> ProtocolV {
    ProtocolV { name: e.file_name.take(e.file_name.len() - 4), content: e.content->0 }
}

/// What one directory entry contributes to the load.
pub open spec fn dir_entry_yield() -> spec_fn(DirEntryV) -> Option<ProtocolV> {
    |e: DirEntryV|
        if dir_entry_loads(e) {
            Some(dir_entry_protocol(e))
        } else {
            None
        }
}

/// The protocols a directory scan yields, in scan order.
pub open spec fn dir_load_spec(entries: Seq<DirEntryV>) -> Seq<ProtocolV> {
    entries.filter_map(dir_entry_yield())
}

/// What one registry node contributes to the load.
pub open spec fn dapp_yield() -> spec_fn(DappV) -> Option<ProtocolV> {
    |d: DappV|
        match d.protocol {
            Some(src) => Some(ProtocolV { name: d.scope + "_"@ + d.name, content: src }),
            None => None,
        }
}

/// The protocols a registry answer yields, in answer order.
pub open spec fn registry_load_spec(nodes: Seq<DappV>) -> Seq<ProtocolV> {
    nodes.filter_map(dapp_yield())
}

/// Loads protocol definitions from a directory scan. Every entry whose file
/// name carries the tx3 extension and whose contents were readable becomes
/// one protocol, named by the file stem; unreadable files and files with
/// another extension are skipped, never an error.
pub fn protocols_from_dir(entries: &Vec<DirEntry>) -> (r: Vec<Protocol>)
    ensures
        r.deep_view() == dir_load_spec(entries.deep_view()),
{
    let ghost all = entries.deep_view();
    let mut r: Vec<Protocol> = Vec::new();
    let mut i: usize = 0;
    proof {
        assert(r.deep_view() =~~= all.take(0).filter_map(dir_entry_yield()));
    }
    while i < entries.len()
        invariant
            i <= entries.len(),
            all == entries.deep_view(),
            r.deep_view() == all.take(i as int).filter_map(dir_entry_yield()),
        decreases entries.len() - i,
    {
        let e = &entries[i];
        let n = e.file_name.as_str().unicode_len();
        let loads = if n >= 4 {
            let suffix = e.file_name.as_str().substring_char(n - 4, n);
            proof {
                assert(e.file_name@.skip(n - 4) =~= e.file_name@.subrange(n - 4, n as int));
            }
            str_eq(suffix, ".tx3") && e.content.is_some()
        } else {
            false
        };
        proof {
            assert(loads == dir_entry_loads(all[i as int]));
        }
        if loads {
            let stem = e.file_name.as_str().substring_char(0, n - 4);
            let content = match &e.content {
                Some(c) => c.clone(),
                None => unreached(),
            };
            r.push(Protocol { name: String::from_str(stem), content });
            proof {
                assert(e.file_name@.take(n - 4) == e.file_name@.subrange(0, n - 4));
            }
        }
        proof {
            all.lemma_filter_map_take_succ(dir_entry_yield(), i as int);
            assert(r.deep_view() =~~= all.take(i + 1).filter_map(dir_entry_yield()));
        }
        i += 1;
    }
    proof {
        assert(all.take(entries.len() as int) =~= all);
    }
    r
}

/// Loads protocol definitions from a registry answer. Every node whose
/// protocol field is present becomes one protocol named `scope_name`; nodes
/// without a protocol are filtered out. An answer with no usable node
/// yields an empty load, never an error.
pub fn protocols_from_nodes(nodes: &Vec<Dapp>) -> (r: Vec<Protocol>)
    ensures
        r.deep_view() == registry_load_spec(nodes.deep_view()),
{
    let ghost all = nodes.deep_view();
    let mut r: Vec<Protocol> = Vec::new();
    let mut i: usize = 0;
    proof {
        assert(r.deep_view() =~~= all.take(0).filter_map(dapp_yield()));
    }
    while i < nodes.len()
        invariant
            i <= nodes.len(),
            all == nodes.deep_view(),
            r.deep_view() == all.take(i as int).filter_map(dapp_yield()),
        decreases nodes.len() - i,
    {
        let d = &nodes[i];
        match &d.protocol {
            Some(src) => {
                let mut name = String::from_str(d.scope.as_str());
                name.append("_");
                name.append(d.name.as_str());
                r.push(Protocol { name, content: src.clone() });
            },
            None => {},
        }
        proof {
            all.lemma_filter_map_take_succ(dapp_yield(), i as int);
            assert(r.deep_view() =~~= all.take(i + 1).filter_map(dapp_yield()));
        }
        i += 1;
    }
    proof {
        assert(all.take(nodes.len() as int) =~= all);
    }
    r
}

impl ProtocolsQuery {
    /// The protocols a registry answer carries, as
    /// [`protocols_from_nodes`] derives them.
    pub fn protocols(&self) -> (r: Vec<Protocol>)
        ensures
            r.deep_view() == registry_load_spec(self@),
    {
        protocols_from_nodes(&self.dapps.nodes)
    }
}

/// A loading entry's protocol is always among the protocols a directory
/// scan yields.
proof fn lemma_dir_load_complete(entries: Seq<DirEntryV>, i: int)
    requires
        0 <= i < entries.len(),
        dir_entry_loads(entries[i]),
    ensures
        dir_load_spec(entries).contains(dir_entry_protocol(entries[i])),
    decreases entries.len(),
{
    if i == entries.len() - 1 {
        let prefix = entries.drop_last().filter_map(dir_entry_yield());
        assert(dir_load_spec(entries) == prefix + seq![dir_entry_protocol(entries[i])]);
        assert(dir_load_spec(entries)[prefix.len() as int] == dir_entry_protocol(entries[i]));
    } else {
        lemma_dir_load_complete(entries.drop_last(), i);
        let sub = dir_load_spec(entries.drop_last());
        let j = choose|j: int|
            0 <= j < sub.len() && sub[j] == dir_entry_protocol(entries.drop_last()[i]);
        assert(dir_load_spec(entries)[j] == dir_entry_protocol(entries[i]));
    }
}

/// A directory load returns exactly the protocols of the loading entries:
/// each entry with the recognized extension and readable contents
/// contributes its protocol, and everything returned is the protocol of
/// such an entry.
pub proof fn lemma_dir_load_exact(entries: Seq<DirEntryV>)
    ensures
        forall|i: int|
            0 <= i < entries.len() && dir_entry_loads(#[trigger] entries[i])
                ==> dir_load_spec(entries).contains(dir_entry_protocol(entries[i])),
        forall|p: ProtocolV|
            #[trigger] dir_load_spec(entries).contains(p) ==> exists|i: int|
                0 <= i < entries.len() && dir_entry_loads(#[trigger] entries[i]) && p
                    == dir_entry_protocol(entries[i]),
{
    assert forall|i: int|
        0 <= i < entries.len() && dir_entry_loads(#[trigger] entries[i]) implies dir_load_spec(
        entries,
    ).contains(dir_entry_protocol(entries[i])) by {
        lemma_dir_load_complete(entries, i);
    }
    assert forall|p: ProtocolV| #[trigger] dir_load_spec(entries).contains(p) implies exists|i: int|
        0 <= i < entries.len() && dir_entry_loads(#[trigger] entries[i]) && p
            == dir_entry_protocol(entries[i]) by {
        entries.lemma_filter_map_contains(dir_entry_yield(), p);
        let t = choose|t: DirEntryV|
            #[trigger] entries.contains(t) && dir_entry_yield()(t) == Some(p);
        let i = choose|i: int| 0 <= i < entries.len() && entries[i] == t;
        assert(dir_entry_loads(entries[i]) && p == dir_entry_protocol(entries[i]));
    }
}

/// A registry answer in which every node lacks a protocol loads as the
/// empty sequence.
pub proof fn lemma_registry_load_all_none(nodes: Seq<DappV>)
    requires
        forall|i: int| 0 <= i < nodes.len() ==> (#[trigger] nodes[i].protocol) is None,
    ensures
        registry_load_spec(nodes) == Seq::<ProtocolV>::empty(),
    decreases nodes.len(),
{
    if nodes.len() > 0 {
        assert(forall|i: int|
            0 <= i < nodes.drop_last().len() ==> (#[trigger] nodes.drop_last()[i].protocol)
                is None);
        lemma_registry_load_all_none(nodes.drop_last());
        assert(registry_load_spec(nodes) =~= Seq::<ProtocolV>::empty());
    }
}

} // verus!
