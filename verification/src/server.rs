//! The tool server's dispatch logic. An invocation decodes its operation
//! name, looks the protocol up among the loaded definitions, compiles it,
//! and either describes the transaction's parameters or coerces the
//! caller's arguments and builds the resolution request. The surrounding
//! lifecycle hooks are a fixed table: handled, empty result, or not
//! implemented.

use vstd::prelude::*;
use crate::coerce::{coerce_args, coerce_spec};
use crate::compiler::{all_lowerable, compile_ok, compile_tx_ir, compile_tx_params,
    lowering_returns, tx_names, tx_params, CompileIssue};
use crate::scan::{literals_bounded, source_literals_bounded};
use crate::errors::{ToolError, ToolErrorV};
use crate::forward::{build_resolution_request, hex_of, ResolutionRequest, ResolutionRequestV};
use crate::model::{result_view, ParamType, ParamTypeV, Protocol, ProtocolV};
use crate::opname::{route, route_spec};
use crate::text::str_eq;

verus! {

/// The configuration of the tool server: where the registry is queried and
/// where resolution requests are sent, with the key the resolver expects.
#[derive(Clone, Debug)]
pub struct ProtocolTool {
    pub registry_url: String,
    pub trp_url: String,
    pub trp_key: String,
}

impl ProtocolTool {
    /// A tool server configuration from its three endpoints.
    pub fn new(registry_url: &str, trp_url: &str, trp_key: &str) -> (r: ProtocolTool)
        ensures
            r.registry_url@ == registry_url@,
            r.trp_url@ == trp_url@,
            r.trp_key@ == trp_key@,
    {
        ProtocolTool {
            registry_url: String::from_str(registry_url),
            trp_url: String::from_str(trp_url),
            trp_key: String::from_str(trp_key),
        }
    }

    /// The instruction text the server advertises during negotiation.
    pub fn instructions(&self) -> (r: String)
        ensures
            r@
                == "This server provides a protocol tool that can be use to comunicate with tx3 files for listing and resolving the transactions inside them."@,
    {
        String::from_str(
            "This server provides a protocol tool that can be use to comunicate with tx3 files for listing and resolving the transactions inside them.",
        )
    }
}

/// The lifecycle hooks of the tool-invocation protocol.
#[derive(Clone, Copy, Debug, PartialEq, Eq, Structural)]
pub enum Hook {
    Ping,
    Initialize,
    ListTools,
    CallTool,
    Complete,
    SetLevel,
    GetPrompt,
    ListPrompts,
    ListResources,
    ListResourceTemplates,
    ReadResource,
    Subscribe,
    Unsubscribe,
}

/// What the facade does with a hook: perform the list or invoke logic,
/// answer with an empty or default result, or signal that the feature is
/// not implemented.
#[derive(Clone, Copy, Debug, PartialEq, Eq, Structural)]
pub enum HookDisposition {
    Handled,
    EmptyResult,
    NotImplemented,
}

/// The fixed disposition table of the facade: only tool listing, tool
/// invocation and initialization are handled; informational hooks get an
/// empty or default answer; everything else is not implemented.
pub open spec fn hook_disposition_spec(h: Hook) -> HookDisposition {
    match h {
        Hook::Ping => HookDisposition::EmptyResult,
        Hook::Initialize => HookDisposition::Handled,
        Hook::ListTools => HookDisposition::Handled,
        Hook::CallTool => HookDisposition::Handled,
        Hook::Complete => HookDisposition::NotImplemented,
        Hook::SetLevel => HookDisposition::NotImplemented,
        Hook::GetPrompt => HookDisposition::NotImplemented,
        Hook::ListPrompts => HookDisposition::EmptyResult,
        Hook::ListResources => HookDisposition::EmptyResult,
        Hook::ListResourceTemplates => HookDisposition::EmptyResult,
        Hook::ReadResource => HookDisposition::NotImplemented,
        Hook::Subscribe => HookDisposition::NotImplemented,
        Hook::Unsubscribe => HookDisposition::NotImplemented,
    }
}

/// How the facade answers each lifecycle hook.
pub fn hook_disposition(h: &Hook) -> (r: HookDisposition)
    ensures
        r == hook_disposition_spec(*h),
{
    match h {
        Hook::Initialize | Hook::ListTools | Hook::CallTool => HookDisposition::Handled,
        Hook::Ping | Hook::ListPrompts | Hook::ListResources | Hook::ListResourceTemplates => {
            HookDisposition::EmptyResult
        },
        _ => HookDisposition::NotImplemented,
    }
}

/// The display label of a declared parameter type, as the describe payload
/// reports it.
pub open spec fn type_label(t: ParamTypeV) -> Seq<char> {
    match t {
        ParamTypeV::Int => "Int"@,
        ParamTypeV::Bool => "Bool"@,
        ParamTypeV::Bytes => "Bytes"@,
        ParamTypeV::Address => "Address"@,
        ParamTypeV::Other(s) => s,
    }
}

/// One describe entry: the parameter's name and its type label.
pub open spec fn param_label_entry() -> spec_fn((Seq<char>, ParamTypeV)) -> (Seq<char>, Seq<char>) {
    |q: (Seq<char>, ParamTypeV)| (q.0, type_label(q.1))
}

/// The answer of a describe invocation: the protocol, the transaction, and
/// the declared parameters with their type labels.
#[derive(Clone, Debug)]
pub struct DescribePayload {
    pub protocol: String,
    pub transaction: String,
    pub parameters: Vec<(String, String)>,
}

/// Mathematical view of a [`DescribePayload`].
#[verifier::ext_equal]
pub struct DescribePayloadV {
    pub protocol: Seq<char>,
    pub transaction: Seq<char>,
    pub parameters: Seq<(Seq<char>, Seq<char>)>,
}

impl View for DescribePayload {
    type V = DescribePayloadV;

    open spec fn view(&self) -> DescribePayloadV {
        DescribePayloadV {
            protocol: self.protocol@,
            transaction: self.transaction@,
            parameters: self.parameters.deep_view(),
        }
    }
}

impl DeepView for DescribePayload {
    type V = DescribePayloadV;

    open spec fn deep_view(&self) -> DescribePayloadV {
        self@
    }
}

/// What a successful invocation produces: a describe payload, answered
/// directly, or a resolution request for the resolver service.
#[derive(Clone, Debug)]
pub enum CallOutcome {
    Describe(DescribePayload),
    Resolve(ResolutionRequest),
}

/// Mathematical view of a [`CallOutcome`].
#[verifier::ext_equal]
pub enum CallOutcomeV {
    Describe(DescribePayloadV),
    Resolve(ResolutionRequestV),
}

impl View for CallOutcome {
    type V = CallOutcomeV;

    open spec fn view(&self) -> CallOutcomeV {
        match self {
            CallOutcome::Describe(p) => CallOutcomeV::Describe(p@),
            CallOutcome::Resolve(r) => CallOutcomeV::Resolve(r@),
        }
    }
}

impl DeepView for CallOutcome {
    type V = CallOutcomeV;

    open spec fn deep_view(&self) -> CallOutcomeV {
        self@
    }
}

/// Looking a protocol up by name among the loaded definitions; the first
/// definition of the name decides.
pub open spec fn find_protocol(ps: Seq<ProtocolV>, name: Seq<char>) -> Option<ProtocolV>
    decreases ps.len(),
{
    if ps.len() == 0 {
        None
    } else if ps[0].name == name {
        Some(ps[0])
    } else {
        find_protocol(ps.skip(1), name)
    }
}

/// Finds the position of the protocol with the given name.
fn find_protocol_exec(ps: &Vec<Protocol>, name: &String) -> (r: Option<usize>)
    ensures
        r matches Some(idx) ==> idx < ps@.len() && find_protocol(ps.deep_view(), name@) == Some(
            ps.deep_view()[idx as int],
        ),
        r is None ==> find_protocol(ps.deep_view(), name@) is None,
{
    let ghost all = ps.deep_view();
    let mut i: usize = 0;
    proof {
        assert(all.skip(0) =~= all);
    }
    while i < ps.len()
        invariant
            i <= ps.len(),
            all == ps.deep_view(),
            find_protocol(all, name@) == find_protocol(all.skip(i as int), name@),
        decreases ps.len() - i,
    {
        let p = &ps[i];
        if str_eq(p.name.as_str(), name.as_str()) {
            proof {
                assert(all.skip(i as int)[0] == all[i as int]);
            }
            return Some(i);
        }
        proof {
            assert(all.skip(i as int)[0] == all[i as int]);
            assert(all.skip(i as int).skip(1) =~= all.skip(i + 1));
        }
        i += 1;
    }
    proof {
        assert(all.skip(ps.len() as int).len() == 0);
    }
    None
}

/// The display label of a declared parameter type.
fn label_of(t: &ParamType) -> (r: String)
    ensures
        r@ == type_label(t@),
{
    match t {
        ParamType::Int => String::from_str("Int"),
        ParamType::Bool => String::from_str("Bool"),
        ParamType::Bytes => String::from_str("Bytes"),
        ParamType::Address => String::from_str("Address"),
        ParamType::Other(s) => s.clone(),
    }
}

/// True when the caller supplied an argument of the given name.
pub open spec fn supplied(args: Seq<(Seq<char>, Option<Seq<char>>)>, name: Seq<char>) -> bool {
    exists|j: int| 0 <= j < args.len() && (#[trigger] args[j]).0 == name
}

/// True when every declared parameter has a supplied argument.
pub open spec fn all_params_supplied(
    params: Seq<(Seq<char>, ParamTypeV)>,
    args: Seq<(Seq<char>, Option<Seq<char>>)>,
) -> bool {
    forall|i: int| 0 <= i < params.len() ==> supplied(args, (#[trigger] params[i]).0)
}

/// The position of the first declared parameter without a supplied
/// argument.
pub open spec fn first_unsupplied(
    params: Seq<(Seq<char>, ParamTypeV)>,
    args: Seq<(Seq<char>, Option<Seq<char>>)>,
) -> int
    decreases params.len(),
{
    if params.len() == 0 {
        0
    } else if !supplied(args, params[0].0) {
        0
    } else {
        1 + first_unsupplied(params.skip(1), args)
    }
}

proof fn lemma_first_unsupplied(
    params: Seq<(Seq<char>, ParamTypeV)>,
    args: Seq<(Seq<char>, Option<Seq<char>>)>,
    k: int,
)
    requires
        0 <= k < params.len(),
        forall|j: int| 0 <= j < k ==> supplied(args, (#[trigger] params[j]).0),
        !supplied(args, params[k].0),
    ensures
        first_unsupplied(params, args) == k,
    decreases k,
{
    if k > 0 {
        let rest = params.skip(1);
        assert forall|j: int| 0 <= j < k - 1 implies supplied(args, (#[trigger] rest[j]).0) by {
            assert(rest[j] == params[j + 1]);
        }
        assert(rest[k - 1] == params[k]);
        lemma_first_unsupplied(rest, args, k - 1);
    }
}

/// Whether the caller supplied an argument of the given name.
fn args_contain(args: &Vec<(String, Option<String>)>, name: &String) -> (r: bool)
    ensures
        r == supplied(args.deep_view(), name@),
{
    let ghost av = args.deep_view();
    let mut j: usize = 0;
    while j < args.len()
        invariant
            j <= args.len(),
            av == args.deep_view(),
            forall|l: int| 0 <= l < j ==> (#[trigger] av[l]).0 != name@,
        decreases args.len() - j,
    {
        let (aname, _) = &args[j];
        if str_eq(aname.as_str(), name.as_str()) {
            proof {
                assert((av[j as int]).0 == name@);
            }
            return true;
        }
        j += 1;
    }
    false
}

/// What an invocation returns, for every decoded name, protocol list and
/// argument list. A source that fails the literal scan or that the
/// compiler rejects is a compilation report naming the protocol; its
/// message is not pinned. A declared parameter without a supplied
/// argument is reported before any request is built. Everything else is
/// exact; the bytecode of a resolution request is the hex encoding of
/// whatever IR the compiler serialized for this transaction.
pub open spec fn call_tool_post(
    r: Result<CallOutcomeV, ToolErrorV>,
    ps: Seq<ProtocolV>,
    name: Seq<char>,
    args: Seq<(Seq<char>, Option<Seq<char>>)>,
) -> bool {
    match route_spec(name) {
        Err(e) => r == Err::<CallOutcomeV, ToolErrorV>(e),
        Ok(key) => match find_protocol(ps, key.protocol) {
            None => r == Err::<CallOutcomeV, ToolErrorV>(
                ToolErrorV::ProtocolNotFound { protocol: key.protocol },
            ),
            Some(p) => if !literals_bounded(p.content) || !compile_ok(p.content) {
                r matches Err(ToolErrorV::Compilation { protocol, message }) && protocol
                    == key.protocol
            } else if !tx_names(p.content).contains(key.transaction) {
                r == Err::<CallOutcomeV, ToolErrorV>(
                    ToolErrorV::TransactionNotFound {
                        transaction: key.transaction,
                        protocol: key.protocol,
                    },
                )
            } else {
                let params = tx_params(p.content, key.transaction);
                if key.action == "describe"@ {
                    r == Ok::<CallOutcomeV, ToolErrorV>(
                        CallOutcomeV::Describe(
                            DescribePayloadV {
                                protocol: key.protocol,
                                transaction: key.transaction,
                                parameters: params.map_values(param_label_entry()),
                            },
                        ),
                    )
                } else {
                    match coerce_spec(params, args, key.transaction, key.protocol) {
                        Err(e) => r == Err::<CallOutcomeV, ToolErrorV>(e),
                        Ok(cargs) => if !all_params_supplied(params, args) {
                            r == Err::<CallOutcomeV, ToolErrorV>(
                                ToolErrorV::ParameterMissing {
                                    parameter: params[first_unsupplied(params, args)].0,
                                    transaction: key.transaction,
                                    protocol: key.protocol,
                                },
                            )
                        } else {
                            r matches Ok(CallOutcomeV::Resolve(req)) && req.encoding == "hex"@
                                && req.version == "v1beta0"@ && req.args == cargs && (exists|
                                b: Seq<u8>,
                            |
                                req.bytecode == hex_of(b))
                        },
                    }
                }
            },
        },
    }
}

/// Handles one invocation against the loaded protocol definitions: decodes
/// the operation name, finds and compiles the protocol, and either
/// describes the transaction or coerces the arguments and builds the
/// resolution request. The caller's arguments arrive as named raw values,
/// `None` standing for a value that was not a string. Dispatch asks the
/// compiler to lower the named protocol, so it requires that lowering
/// returns on every source of the list; the process boundary around the
/// library guards the residual abort per request.
pub fn call_tool(
    protocols: &Vec<Protocol>,
    name: &str,
    arguments: &Vec<(String, Option<String>)>,
) -> (r: Result<CallOutcome, ToolError>)
    requires
        all_lowerable(protocols.deep_view()),
    ensures
        call_tool_post(result_view(r), protocols.deep_view(), name@, arguments.deep_view()),
{
    let key = match route(name) {
        Ok(k) => k,
        Err(e) => {
            return Err(e);
        },
    };
    let idx = match find_protocol_exec(protocols, &key.protocol) {
        Some(i) => i,
        None => {
            return Err(ToolError::ProtocolNotFound { protocol: key.protocol });
        },
    };
    let proto = &protocols[idx];
    proof {
        assert(proto@ == protocols.deep_view()[idx as int]);
        assert(lowering_returns(proto@.content));
    }
    if !source_literals_bounded(proto.content.as_str()) {
        return Err(
            ToolError::Compilation {
                protocol: key.protocol,
                message: String::from_str(
                    "the source holds a hexadecimal or numeric literal outside the supported range",
                ),
            },
        );
    }
    let params_list = match compile_tx_params(proto.content.as_str(), key.transaction.as_str()) {
        Err(CompileIssue::Rejected(m)) => {
            return Err(ToolError::Compilation { protocol: key.protocol, message: m });
        },
        Err(CompileIssue::TxNotFound) => {
            return Err(
                ToolError::TransactionNotFound {
                    transaction: key.transaction,
                    protocol: key.protocol,
                },
            );
        },
        Ok(v) => v,
    };
    if str_eq(key.action.as_str(), "describe") {
        let ghost params = tx_params(proto@.content, key.transaction@);
        let mut labels: Vec<(String, String)> = Vec::new();
        let mut k: usize = 0;
        proof {
            assert(labels.deep_view() =~~= params.take(0).map_values(param_label_entry()));
        }
        while k < params_list.len()
            invariant
                k <= params_list.len(),
                params_list.deep_view() == params,
                labels@.len() == k as int,
                labels.deep_view() =~~= params.take(k as int).map_values(param_label_entry()),
            decreases params_list.len() - k,
        {
            let (pname, ty) = &params_list[k];
            labels.push((pname.clone(), label_of(ty)));
            proof {
                let f = param_label_entry();
                assert(labels.deep_view()[k as int] == f(params[k as int]));
                assert forall|l: int| 0 <= l < k + 1 implies #[trigger] labels.deep_view()[l]
                    == params.take(k + 1).map_values(f)[l] by {
                    assert(params.take(k + 1)[l] == params[l]);
                    if l < k {
                        assert(labels.deep_view()[l] == params.take(k as int).map_values(f)[l]);
                        assert(params.take(k as int)[l] == params[l]);
                    }
                }
                assert(labels.deep_view() =~~= params.take(k + 1).map_values(f));
            }
            k += 1;
        }
        proof {
            assert(params.take(params_list@.len() as int) =~= params);
        }
        let payload = DescribePayload {
            protocol: key.protocol,
            transaction: key.transaction,
            parameters: labels,
        };
        proof {
            assert(payload@ =~~= DescribePayloadV {
                protocol: route_spec(name@)->Ok_0.protocol,
                transaction: route_spec(name@)->Ok_0.transaction,
                parameters: params.map_values(param_label_entry()),
            });
        }
        return Ok(CallOutcome::Describe(payload));
    }
    let coerced = match coerce_args(
        &params_list,
        arguments,
        key.transaction.as_str(),
        key.protocol.as_str(),
    ) {
        Ok(v) => v,
        Err(e) => {
            return Err(e);
        },
    };
    let ghost paramsv = tx_params(proto@.content, key.transaction@);
    let ghost argsv = arguments.deep_view();
    let mut k: usize = 0;
    #[verifier::loop_isolation(false)]
    while k < params_list.len()
        invariant
            k <= params_list.len(),
            forall|j: int| 0 <= j < k ==> supplied(argsv, (#[trigger] paramsv[j]).0),
        decreases params_list.len() - k,
    {
        let (pname, _) = &params_list[k];
        if !args_contain(arguments, pname) {
            proof {
                assert(paramsv[k as int].0 == pname@);
                assert(!all_params_supplied(paramsv, argsv));
                lemma_first_unsupplied(paramsv, argsv, k as int);
            }
            return Err(
                ToolError::ParameterMissing {
                    parameter: pname.clone(),
                    transaction: key.transaction,
                    protocol: key.protocol,
                },
            );
        }
        k += 1;
    }
    let (ir, version) = match compile_tx_ir(proto.content.as_str(), key.transaction.as_str()) {
        Ok(p) => p,
        Err(_) => unreached(),
    };
    let request = build_resolution_request(&ir, version, coerced);
    proof {
        assert(request@.bytecode == hex_of(ir@));
    }
    Ok(CallOutcome::Resolve(request))
}

} // verus!
