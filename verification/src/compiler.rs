//! The trusted boundary to the tx3 compiler. Compiling a protocol's source
//! text, listing its transactions, reading a transaction's parameter types
//! and serializing its intermediate representation are delegated to the
//! `tx3-lang` and `tx3-tir` crates; the contracts here are what the rest of
//! the library builds its proofs on.
//!
//! Whether a source compiles, which transactions it declares and which
//! parameters a transaction uses are functions of the source text alone, so
//! they are named by uninterpreted spec functions. The serialized
//! intermediate representation is not: the transaction model may hold
//! hash-keyed maps whose serialization order differs from process to
//! process, so nothing is stated of the bytes themselves.
//!
//! The compiler does not return on every text its grammar accepts:
//! building the syntax tree aborts on an output-reference literal whose
//! hex run has odd length, whose index exceeds 64 unsigned bits, or whose
//! tokens are separated by whitespace or comments (the rule is not
//! atomic), and on a number literal beyond 64 signed bits; lowering
//! aborts on a hex string of odd length. Each wrapper therefore requires
//! [`literals_bounded`](crate::scan::literals_bounded) of its source, which
//! rules those shapes out; callers scan first and report a compilation
//! error for text that fails. One abort lies beyond any scan of the text:
//! lowering a struct constructor that misses a field without giving a
//! spread, which the analyzer does not gate. The wrappers that lower
//! therefore also require [`lowering_returns`], a predicate nothing in the
//! library can test; callers carry it to the process boundary, where a
//! per-request fault guard stands around every call into the library.

use vstd::prelude::*;
use crate::model::{ParamType, ParamTypeV, ProtocolV};
use crate::scan::literals_bounded;

verus! {

/// Whether the tx3 compiler accepts a protocol source text: parsing
/// succeeds and analysis reports no errors. (Lowering returns an error
/// exactly when analysis reported one, so on every source on which
/// lowering returns at all, this is also the whole pipeline's acceptance.)
pub uninterp spec fn compile_ok(src: Seq<char>) -> bool;

/// Whether the compiler's lowering stage returns, rather than aborts, on a
/// source text. One abort lies beyond any scan of the text: lowering a
/// struct constructor that misses a field without giving a spread, which
/// the analyzer does not gate. Nothing in the library can test this
/// predicate, so the wrappers that lower require it, their callers carry
/// it, and the process boundary around the library guards the residual
/// abort per request.
pub uninterp spec fn lowering_returns(src: Seq<char>) -> bool;

/// True when the lowering stage returns on every source of a protocol
/// list: what the descriptor builder and the dispatcher require of their
/// input.
pub open spec fn all_lowerable(ps: Seq<ProtocolV>) -> bool {
    forall|i: int| 0 <= i < ps.len() ==> lowering_returns((#[trigger] ps[i]).content)
}

/// The names of the transactions a compiled source declares, in source
/// order. Meaningful only when `compile_ok(src)`.
pub uninterp spec fn tx_names(src: Seq<char>) -> Seq<Seq<char>>;

/// The parameters of a compiled transaction as the compiler labels them:
/// name and type label, key-sorted. Meaningful only when `compile_ok(src)`
/// and `tx` is among `tx_names(src)`.
pub uninterp spec fn tx_param_labels(src: Seq<char>, tx: Seq<char>) -> Seq<(Seq<char>, Seq<char>)>;

/// The declared type behind a compiler label: the four primitive types by
/// name, anything else carried as its label.
pub open spec fn parse_type_label(s: Seq<char>) -> ParamTypeV {
    if s == "Int"@ {
        ParamTypeV::Int
    } else if s == "Bool"@ {
        ParamTypeV::Bool
    } else if s == "Bytes"@ {
        ParamTypeV::Bytes
    } else if s == "Address"@ {
        ParamTypeV::Address
    } else {
        ParamTypeV::Other(s)
    }
}

/// One labeled parameter read as a typed parameter.
pub open spec fn label_entry() -> spec_fn((Seq<char>, Seq<char>)) -> (Seq<char>, ParamTypeV) {
    |q: (Seq<char>, Seq<char>)| (q.0, parse_type_label(q.1))
}

/// The parameters of a compiled transaction: name and declared type,
/// key-sorted.
pub open spec fn tx_params(src: Seq<char>, tx: Seq<char>) -> Seq<(Seq<char>, ParamTypeV)> {
    tx_param_labels(src, tx).map_values(label_entry())
}

/// True when no two labeled parameters share a name.
pub open spec fn labels_distinct(params: Seq<(Seq<char>, Seq<char>)>) -> bool {
    forall|i: int, j: int| 0 <= i < j < params.len() ==> params[i].0 != params[j].0
}

/// True when a source compiles and declares a transaction of the given
/// name.
pub open spec fn tx_available(src: Seq<char>, tx: Seq<char>) -> bool {
    compile_ok(src) && tx_names(src).contains(tx)
}

/// True when the library accepts a protocol source: its literal shapes are
/// bounded, so the compiler can be asked, and the compiler accepts it.
pub open spec fn source_accepted(src: Seq<char>) -> bool {
    literals_bounded(src) && compile_ok(src)
}

/// True when no two parameters of the list share a name.
pub open spec fn params_distinct(params: Seq<(Seq<char>, ParamTypeV)>) -> bool {
    forall|i: int, j: int| 0 <= i < j < params.len() ==> params[i].0 != params[j].0
}

/// How a compilation request can fail: the source was rejected, or the
/// source compiled but declares no transaction of the requested name.
#[derive(Clone, Debug, PartialEq)]
pub enum CompileIssue {
    Rejected(String),
    TxNotFound,
}

/// Mathematical view of a [`CompileIssue`].
#[verifier::ext_equal]
pub enum CompileIssueV {
    Rejected(Seq<char>),
    TxNotFound,
}

impl View for CompileIssue {
    type V = CompileIssueV;

    open spec fn view(&self) -> CompileIssueV {
        match self {
            CompileIssue::Rejected(m) => CompileIssueV::Rejected(m@),
            CompileIssue::TxNotFound => CompileIssueV::TxNotFound,
        }
    }
}

impl DeepView for CompileIssue {
    type V = CompileIssueV;

    open spec fn deep_view(&self) -> CompileIssueV {
        self@
    }
}

/// Relies on `tx3_lang::Workspace`: `parse` and `analyze` accept or reject
/// the source text deterministically, and the program's tx definitions
/// carry the transaction names in source order. This wrapper does not
/// lower, so only the literal bound is required of the source (see the
/// module comment).
#[verifier::external_body]
pub fn compile_tx_names(src: &str) -> (r: Result<Vec<String>, String>)
    requires
        literals_bounded(src@),
    ensures
        r is Ok <==> compile_ok(src@),
        r matches Ok(v) ==> v.deep_view() == tx_names(src@),
{
    let mut ws = tx3_lang::Workspace::from_string(src.to_string());
    if let Err(e) = ws.parse().and_then(|_| ws.analyze()) {
        return Err(e.to_string());
    }
    let report = ws.analisis().unwrap();
    if !report.errors.is_empty() {
        return Err(tx3_lang::Error::from(report.clone()).to_string());
    }
    let ast = ws.ast().unwrap();
    Ok(ast.txs.iter().map(|t| t.name.value.clone()).collect())
}

/// Relies on `tx3_lang::Workspace` and `tx3_tir::reduce::Apply::params`:
/// the parameter map of a lowered transaction is a `BTreeMap` keyed by
/// parameter name, so the returned list is key-sorted with distinct keys,
/// and it depends on the source text and transaction name alone. The label
/// is the debug formatting of the declared type, which prints the four
/// primitive types as `Int`, `Bool`, `Bytes` and `Address`. The workspace
/// holds a lowered entry exactly for each declared transaction. The
/// preconditions rule out the literal shapes and the lowering abort on
/// which the pipeline would not return (see the module comment).
#[verifier::external_body]
fn compile_tx_param_labels(src: &str, tx: &str) -> (r: Result<Vec<(String, String)>, CompileIssue>)
    requires
        literals_bounded(src@),
        lowering_returns(src@),
    ensures
        r is Ok <==> tx_available(src@, tx@),
        r matches Ok(v) ==> v.deep_view() == tx_param_labels(src@, tx@),
        r matches Ok(v) ==> labels_distinct(v.deep_view()),
        r matches Err(i) ==> (i is TxNotFound <==> compile_ok(src@)),
{
    let mut ws = tx3_lang::Workspace::from_string(src.to_string());
    if let Err(e) = ws.parse().and_then(|_| ws.analyze()).and_then(|_| ws.lower()) {
        return Err(CompileIssue::Rejected(e.to_string()));
    }
    let Some(tir) = ws.tir(tx) else { return Err(CompileIssue::TxNotFound) };
    let params = tx3_tir::reduce::Apply::params(tir);
    Ok(params.iter().map(|(n, t)| (n.clone(), format!("{:?}", t))).collect())
}

/// The declared type behind a compiler label.
fn type_from_label(label: String) -> (r: ParamType)
    ensures
        r@ == parse_type_label(label@),
{
    if crate::text::str_eq(label.as_str(), "Int") {
        ParamType::Int
    } else if crate::text::str_eq(label.as_str(), "Bool") {
        ParamType::Bool
    } else if crate::text::str_eq(label.as_str(), "Bytes") {
        ParamType::Bytes
    } else if crate::text::str_eq(label.as_str(), "Address") {
        ParamType::Address
    } else {
        ParamType::Other(label)
    }
}

/// Compiles a protocol and reads one transaction's parameter list: each
/// parameter's name and declared type, key-sorted with distinct keys.
pub fn compile_tx_params(src: &str, tx: &str) -> (r: Result<
    Vec<(String, ParamType)>,
    CompileIssue,
>)
    requires
        literals_bounded(src@),
        lowering_returns(src@),
    ensures
        r is Ok <==> tx_available(src@, tx@),
        r matches Ok(v) ==> v.deep_view() == tx_params(src@, tx@),
        r matches Ok(v) ==> params_distinct(v.deep_view()),
        r matches Err(i) ==> (i is TxNotFound <==> compile_ok(src@)),
{
    let labels = match compile_tx_param_labels(src, tx) {
        Ok(v) => v,
        Err(e) => {
            return Err(e);
        },
    };
    let ghost lv = labels.deep_view();
    let mut out: Vec<(String, ParamType)> = Vec::new();
    let mut k: usize = 0;
    proof {
        assert(out.deep_view() =~~= lv.take(0).map_values(label_entry()));
    }
    while k < labels.len()
        invariant
            k <= labels.len(),
            lv == labels.deep_view(),
            out@.len() == k as int,
            out.deep_view() =~~= lv.take(k as int).map_values(label_entry()),
        decreases labels.len() - k,
    {
        let (pname, label) = &labels[k];
        out.push((pname.clone(), type_from_label(label.clone())));
        proof {
            let f = label_entry();
            assert(out.deep_view()[k as int] == f(lv[k as int]));
            assert forall|l: int| 0 <= l < k + 1 implies #[trigger] out.deep_view()[l]
                == lv.take(k + 1).map_values(f)[l] by {
                assert(lv.take(k + 1)[l] == lv[l]);
                if l < k {
                    assert(out.deep_view()[l] == lv.take(k as int).map_values(f)[l]);
                    assert(lv.take(k as int)[l] == lv[l]);
                }
            }
            assert(out.deep_view() =~~= lv.take(k + 1).map_values(f));
        }
        k += 1;
    }
    proof {
        assert(lv.take(labels@.len() as int) =~= lv);
        assert(out.deep_view() =~~= tx_params(src@, tx@));
        assert forall|i: int, j: int| 0 <= i < j < out.deep_view().len() implies out.deep_view()[i].0
            != out.deep_view()[j].0 by {
            assert(out.deep_view()[i].0 == lv[i].0);
            assert(out.deep_view()[j].0 == lv[j].0);
        }
    }
    Ok(out)
}

/// Relies on `tx3_tir::encoding::to_bytes`: a lowered transaction
/// serializes to CBOR bytes tagged with the version `v1beta0`. The bytes
/// themselves may differ from process to process (hash-keyed maps inside
/// the model serialize in iteration order), so only the version is stated.
/// The preconditions rule out the literal shapes and the lowering abort
/// on which the pipeline would not return (see the module comment); the
/// last two clauses record at this boundary that a call which returned
/// saw its lowering return.
#[verifier::external_body]
pub fn compile_tx_ir(src: &str, tx: &str) -> (r: Result<(Vec<u8>, String), CompileIssue>)
    requires
        literals_bounded(src@),
        lowering_returns(src@),
    ensures
        r is Ok <==> tx_available(src@, tx@),
        r matches Ok(p) ==> p.1@ == "v1beta0"@,
        r matches Err(i) ==> (i is TxNotFound <==> compile_ok(src@)),
        r is Ok ==> lowering_returns(src@),
        r is Err ==> lowering_returns(src@),
{
    let mut ws = tx3_lang::Workspace::from_string(src.to_string());
    if let Err(e) = ws.parse().and_then(|_| ws.analyze()).and_then(|_| ws.lower()) {
        return Err(CompileIssue::Rejected(e.to_string()));
    }
    let Some(tir) = ws.tir(tx) else { return Err(CompileIssue::TxNotFound) };
    let (bytes, version) = tx3_tir::encoding::to_bytes(tir);
    Ok((bytes, version.to_string()))
}

} // verus!
