//! The tool descriptor builder. For every transaction of every loaded
//! protocol two operations are advertised: a resolve operation whose input
//! schema requires one string property per declared parameter, and a
//! describe operation with an empty input schema. Descriptor order follows
//! the order of the protocols and of their transactions.

use vstd::prelude::*;
use crate::compiler::{
    all_lowerable, compile_ok, compile_tx_names, compile_tx_params, lowering_returns,
    source_accepted, tx_names, tx_params,
};
use crate::errors::{ToolError, ToolErrorV};
use crate::model::{ParamTypeV, Protocol, ProtocolV};
use crate::scan::{literals_bounded, source_literals_bounded};

verus! {

/// One advertised operation. A resolve descriptor carries the schema title
/// and the required parameter names of its input schema; a describe
/// descriptor's input schema is empty, so it carries neither.
#[derive(Clone, Debug)]
pub struct ToolDescriptor {
    pub name: String,
    pub title: String,
    pub description: String,
    pub schema_title: Option<String>,
    pub params: Vec<String>,
    pub read_only: bool,
    pub destructive: bool,
    pub idempotent: bool,
    pub open_world: bool,
}

/// Mathematical view of a [`ToolDescriptor`].
#[verifier::ext_equal]
pub struct ToolDescriptorV {
    pub name: Seq<char>,
    pub title: Seq<char>,
    pub description: Seq<char>,
    pub schema_title: Option<Seq<char>>,
    pub params: Seq<Seq<char>>,
    pub read_only: bool,
    pub destructive: bool,
    pub idempotent: bool,
    pub open_world: bool,
}

impl View for ToolDescriptor {
    type V = ToolDescriptorV;

    open spec fn view(&self) -> ToolDescriptorV {
        ToolDescriptorV {
            name: self.name@,
            title: self.title@,
            description: self.description@,
            schema_title: self.schema_title.deep_view(),
            params: self.params.deep_view(),
            read_only: self.read_only,
            destructive: self.destructive,
            idempotent: self.idempotent,
            open_world: self.open_world,
        }
    }
}

impl DeepView for ToolDescriptor {
    type V = ToolDescriptorV;

    open spec fn deep_view(&self) -> ToolDescriptorV {
        self@
    }
}

/// The name of one declared parameter.
pub open spec fn param_name_of() -> spec_fn((Seq<char>, ParamTypeV)) -> Seq<char> {
    |q: (Seq<char>, ParamTypeV)| q.0
}

/// The resolve descriptor of one transaction: operation name
/// `resolve-<protocol>-<transaction>`, an input schema requiring one string
/// property per declared parameter, and the fixed annotations.
pub open spec fn resolve_desc(
    p: Seq<char>,
    t: Seq<char>,
    params: Seq<(Seq<char>, ParamTypeV)>,
) -> ToolDescriptorV {
    ToolDescriptorV {
        name: "resolve-"@ + p + "-"@ + t,
        title: "Resolve "@ + p + " "@ + t,
        description: "Resolves the transaction '"@ + t + "' from the protocol '"@ + p + "'"@,
        schema_title: Some("resolve_"@ + p + "_"@ + t + "_params"@),
        params: params.map_values(param_name_of()),
        read_only: true,
        destructive: false,
        idempotent: false,
        open_world: true,
    }
}

/// The describe descriptor of one transaction: operation name
/// `describe-<protocol>-<transaction>`, an empty input schema, and the
/// same annotations.
pub open spec fn describe_desc(p: Seq<char>, t: Seq<char>) -> ToolDescriptorV {
    ToolDescriptorV {
        name: "describe-"@ + p + "-"@ + t,
        title: "Describe "@ + p + " "@ + t,
        description: "Describes the transaction '"@ + t + "' from the protocol '"@ + p
            + "' and shows the required parameters"@,
        schema_title: None,
        params: Seq::empty(),
        read_only: true,
        destructive: false,
        idempotent: false,
        open_world: true,
    }
}

/// The descriptors of one protocol: two per transaction, resolve before
/// describe, transactions in declared order.
pub open spec fn protocol_descs(p: ProtocolV, txs: Seq<Seq<char>>) -> Seq<ToolDescriptorV>
    decreases txs.len(),
{
    if txs.len() == 0 {
        Seq::empty()
    } else {
        protocol_descs(p, txs.drop_last()) + seq![
            resolve_desc(p.name, txs.last(), tx_params(p.content, txs.last())),
            describe_desc(p.name, txs.last()),
        ]
    }
}

/// The descriptors of a whole protocol list, in load order.
pub open spec fn build_spec(ps: Seq<ProtocolV>) -> Seq<ToolDescriptorV>
    decreases ps.len(),
{
    if ps.len() == 0 {
        Seq::empty()
    } else {
        build_spec(ps.drop_last()) + protocol_descs(ps.last(), tx_names(ps.last().content))
    }
}

/// True when every protocol of the list is accepted: literal shapes
/// bounded and the compiler content.
pub open spec fn all_compile(ps: Seq<ProtocolV>) -> bool {
    forall|i: int| 0 <= i < ps.len() ==> source_accepted((#[trigger] ps[i]).content)
}

/// The position of the first protocol that is not accepted.
pub open spec fn first_reject(ps: Seq<ProtocolV>) -> int
    decreases ps.len(),
{
    if ps.len() == 0 {
        0
    } else if !source_accepted(ps[0].content) {
        0
    } else {
        1 + first_reject(ps.skip(1))
    }
}

proof fn lemma_first_reject(ps: Seq<ProtocolV>, i: int)
    requires
        0 <= i < ps.len(),
        forall|j: int| 0 <= j < i ==> source_accepted((#[trigger] ps[j]).content),
        !source_accepted(ps[i].content),
    ensures
        first_reject(ps) == i,
    decreases i,
{
    if i > 0 {
        let rest = ps.skip(1);
        assert forall|j: int| 0 <= j < i - 1 implies source_accepted(
            (#[trigger] rest[j]).content,
        ) by {
            assert(rest[j] == ps[j + 1]);
        }
        assert(rest[i - 1] == ps[i]);
        lemma_first_reject(rest, i - 1);
    }
}

/// Builds the advertised operations for a protocol list: per transaction a
/// resolve and a describe descriptor. A protocol whose source fails the
/// literal scan or is rejected by the compiler fails the build with a
/// compilation report naming the first such protocol. The build asks the
/// compiler to lower each accepted protocol, so it requires that lowering
/// returns on every source of the list; the process boundary around the
/// library guards the residual abort per request.
pub fn build_tools(protocols: &Vec<Protocol>) -> (r: Result<Vec<ToolDescriptor>, ToolError>)
    requires
        all_lowerable(protocols.deep_view()),
    ensures
        r is Ok <==> all_compile(protocols.deep_view()),
        r matches Ok(v) ==> v.deep_view() == build_spec(protocols.deep_view()),
        r matches Err(e) ==> e@ matches ToolErrorV::Compilation { protocol, .. } && protocol
            == protocols.deep_view()[first_reject(protocols.deep_view())].name,
{
    let ghost ps = protocols.deep_view();
    let mut out: Vec<ToolDescriptor> = Vec::new();
    let mut i: usize = 0;
    proof {
        assert(out.deep_view() =~~= build_spec(ps.take(0)));
    }
    while i < protocols.len()
        invariant
            i <= protocols.len(),
            ps == protocols.deep_view(),
            all_lowerable(ps),
            forall|j: int| 0 <= j < i ==> source_accepted((#[trigger] ps[j]).content),
            out.deep_view() == build_spec(ps.take(i as int)),
        decreases protocols.len() - i,
    {
        let p = &protocols[i];
        if !source_literals_bounded(p.content.as_str()) {
            proof {
                assert(p@ == ps[i as int]);
                assert(!source_accepted(ps[i as int].content));
                lemma_first_reject(ps, i as int);
            }
            return Err(
                ToolError::Compilation {
                    protocol: p.name.clone(),
                    message: String::from_str(
                        "the source holds a hexadecimal or numeric literal outside the supported range",
                    ),
                },
            );
        }
        match compile_tx_names(p.content.as_str()) {
            Err(m) => {
                proof {
                    assert(p@ == ps[i as int]);
                    assert(!source_accepted(ps[i as int].content));
                    lemma_first_reject(ps, i as int);
                }
                return Err(ToolError::Compilation { protocol: p.name.clone(), message: m });
            },
            Ok(names) => {
                let ghost txs = names.deep_view();
                let mut j: usize = 0;
                proof {
                    assert(protocol_descs(ps[i as int], txs.take(0)) =~~= Seq::empty());
                }
                while j < names.len()
                    invariant
                        j <= names.len(),
                        i < protocols.len(),
                        ps == protocols.deep_view(),
                        p == &protocols[i as int],
                        literals_bounded(ps[i as int].content),
                        lowering_returns(ps[i as int].content),
                        compile_ok(ps[i as int].content),
                        txs == names.deep_view(),
                        txs == tx_names(ps[i as int].content),
                        out.deep_view() == build_spec(ps.take(i as int)) + protocol_descs(
                            ps[i as int],
                            txs.take(j as int),
                        ),
                    decreases names.len() - j,
                {
                    let t = &names[j];
                    proof {
                        assert(tx_names(ps[i as int].content)[j as int] == t@);
                        assert(lowering_returns(ps[i as int].content));
                    }
                    let params_list = match compile_tx_params(p.content.as_str(), t.as_str()) {
                        Ok(v) => v,
                        Err(_) => unreached(),
                    };
                    let mut pnames: Vec<String> = Vec::new();
                    let mut k: usize = 0;
                    while k < params_list.len()
                        invariant
                            k <= params_list.len(),
                            params_list.deep_view() == tx_params(ps[i as int].content, txs[j as int]),
                            pnames@.len() == k as int,
                            pnames.deep_view() =~~= params_list.deep_view().take(k as int)
                                .map_values(param_name_of()),
                            j < names.len(),
                        decreases params_list.len() - k,
                    {
                        let (pname, _) = &params_list[k];
                        pnames.push(pname.clone());
                        proof {
                            let dv = params_list.deep_view();
                            let f = param_name_of();
                            assert(pnames.deep_view()[k as int] == dv[k as int].0);
                            assert forall|l: int| 0 <= l < k + 1 implies #[trigger] pnames.deep_view()[l]
                                == dv.take(k + 1).map_values(f)[l] by {
                                assert(dv.take(k + 1)[l] == dv[l]);
                                if l < k {
                                    assert(pnames.deep_view()[l] == dv.take(k as int).map_values(
                                        f,
                                    )[l]);
                                    assert(dv.take(k as int)[l] == dv[l]);
                                }
                            }
                            assert(pnames.deep_view() =~~= dv.take(k + 1).map_values(f));
                        }
                        k += 1;
                    }
                    proof {
                        assert(params_list.deep_view().take(params_list.len() as int)
                            =~= params_list.deep_view());
                    }
                    let ghost pre_descs = out.deep_view();
                    let mut r_name = String::from_str("resolve-");
                    r_name.append(p.name.as_str());
                    r_name.append("-");
                    r_name.append(t.as_str());
                    let mut r_title = String::from_str("Resolve ");
                    r_title.append(p.name.as_str());
                    r_title.append(" ");
                    r_title.append(t.as_str());
                    let mut r_desc = String::from_str("Resolves the transaction '");
                    r_desc.append(t.as_str());
                    r_desc.append("' from the protocol '");
                    r_desc.append(p.name.as_str());
                    r_desc.append("'");
                    let mut r_schema = String::from_str("resolve_");
                    r_schema.append(p.name.as_str());
                    r_schema.append("_");
                    r_schema.append(t.as_str());
                    r_schema.append("_params");
                    out.push(
                        ToolDescriptor {
                            name: r_name,
                            title: r_title,
                            description: r_desc,
                            schema_title: Some(r_schema),
                            params: pnames,
                            read_only: true,
                            destructive: false,
                            idempotent: false,
                            open_world: true,
                        },
                    );
                    let mut d_name = String::from_str("describe-");
                    d_name.append(p.name.as_str());
                    d_name.append("-");
                    d_name.append(t.as_str());
                    let mut d_title = String::from_str("Describe ");
                    d_title.append(p.name.as_str());
                    d_title.append(" ");
                    d_title.append(t.as_str());
                    let mut d_desc = String::from_str("Describes the transaction '");
                    d_desc.append(t.as_str());
                    d_desc.append("' from the protocol '");
                    d_desc.append(p.name.as_str());
                    d_desc.append("' and shows the required parameters");
                    out.push(
                        ToolDescriptor {
                            name: d_name,
                            title: d_title,
                            description: d_desc,
                            schema_title: None,
                            params: Vec::new(),
                            read_only: true,
                            destructive: false,
                            idempotent: false,
                            open_world: true,
                        },
                    );
                    proof {
                        let rd = resolve_desc(
                            ps[i as int].name,
                            txs[j as int],
                            tx_params(ps[i as int].content, txs[j as int]),
                        );
                        let dd = describe_desc(ps[i as int].name, txs[j as int]);
                        let before = build_spec(ps.take(i as int)) + protocol_descs(
                            ps[i as int],
                            txs.take(j as int),
                        );
                        assert(pre_descs == before);
                        assert(out@.len() == before.len() + 2);
                        assert(out.deep_view()[out@.len() - 2] =~~= rd);
                        assert(out.deep_view()[out@.len() - 1] =~~= dd);
                        assert(txs.take(j + 1).drop_last() =~= txs.take(j as int));
                        assert(txs.take(j + 1).last() == txs[j as int]);
                        assert(protocol_descs(ps[i as int], txs.take(j + 1))
                            == protocol_descs(ps[i as int], txs.take(j as int)) + seq![rd, dd]);
                        assert forall|l: int| 0 <= l < before.len() implies #[trigger] out.deep_view()[l]
                            == before[l] by {
                            assert(out.deep_view()[l] == pre_descs[l]);
                        }
                        assert(out.deep_view() =~~= build_spec(ps.take(i as int))
                            + protocol_descs(ps[i as int], txs.take(j + 1)));
                    }
                    j += 1;
                }
                proof {
                    assert(txs.take(names.len() as int) =~= txs);
                    assert(ps.take(i + 1).drop_last() =~= ps.take(i as int));
                    assert(ps.take(i + 1).last() == ps[i as int]);
                    assert(out.deep_view() =~~= build_spec(ps.take(i + 1)));
                }
            },
        }
        i += 1;
    }
    proof {
        assert(ps.take(protocols.len() as int) =~= ps);
    }
    Ok(out)
}

} // verus!
