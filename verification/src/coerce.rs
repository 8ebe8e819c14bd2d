//! The argument coercer. Caller-supplied arguments arrive as named raw
//! values (a string, or `None` for a value that was not a string); each is
//! checked against the transaction's declared parameter types and converted
//! into the protocol's native representation. The walk stops at the first
//! offending argument and reports it.

use vstd::prelude::*;
use crate::errors::{ToolError, ToolErrorV};
use crate::model::{result_view, ArgValue, ArgValueV, ParamType, ParamTypeV};
use crate::parse::{
    bool_literal_value, fits_i128, int_literal_value, is_bool_literal, is_int_literal, parse_bool,
    parse_i128,
};

verus! {

/// Looking a parameter up by name in the declared parameter list; the
/// first entry of the name decides, which is the only entry when the list
/// comes from the compiler (its keys are distinct).
pub open spec fn param_lookup(params: Seq<(Seq<char>, ParamTypeV)>, name: Seq<char>) -> Option<
    ParamTypeV,
>
    decreases params.len(),
{
    if params.len() == 0 {
        None
    } else if params[0].0 == name {
        Some(params[0].1)
    } else {
        param_lookup(params.skip(1), name)
    }
}

/// The coercion of one raw string under a declared type: an `Int` must be
/// an integer literal whose value fits 128 signed bits, a `Bool` must be a
/// boolean literal, `Bytes` and `Address` pass the string through
/// unchanged, and any other declared type accepts no value.
pub open spec fn coerce_value(ty: ParamTypeV, raw: Seq<char>) -> Option<ArgValueV> {
    match ty {
        ParamTypeV::Int => if is_int_literal(raw) && fits_i128(int_literal_value(raw)) {
            Some(ArgValueV::Int(int_literal_value(raw)))
        } else {
            None
        },
        ParamTypeV::Bool => if is_bool_literal(raw) {
            Some(ArgValueV::Bool(bool_literal_value(raw)))
        } else {
            None
        },
        ParamTypeV::Bytes => Some(ArgValueV::Text(raw)),
        ParamTypeV::Address => Some(ArgValueV::Text(raw)),
        ParamTypeV::Other(_) => None,
    }
}

/// The coercion of a whole argument list, in order, stopping at the first
/// offending argument: a non-string value or an unparsable value is an
/// invalid-value report naming the parameter, an unknown name is a
/// not-found report naming parameter, transaction and protocol.
pub open spec fn coerce_spec(
    params: Seq<(Seq<char>, ParamTypeV)>,
    args: Seq<(Seq<char>, Option<Seq<char>>)>,
    transaction: Seq<char>,
    protocol: Seq<char>,
) -> Result<Seq<(Seq<char>, ArgValueV)>, ToolErrorV>
    decreases args.len(),
{
    if args.len() == 0 {
        Ok(Seq::empty())
    } else {
        let name = args[0].0;
        match args[0].1 {
            None => Err(ToolErrorV::InvalidValue { parameter: name }),
            Some(raw) => match param_lookup(params, name) {
                None => Err(
                    ToolErrorV::ParameterNotFound { parameter: name, transaction, protocol },
                ),
                Some(ty) => match coerce_value(ty, raw) {
                    None => Err(ToolErrorV::InvalidValue { parameter: name }),
                    Some(v) => match coerce_spec(params, args.skip(1), transaction, protocol) {
                        Ok(rest) => Ok(seq![(name, v)] + rest),
                        Err(e) => Err(e),
                    },
                },
            },
        }
    }
}

/// Finds the declared type of a parameter by name.
fn lookup_param(params: &Vec<(String, ParamType)>, name: &String) -> (r: Option<ParamType>)
    ensures
        r.deep_view() == param_lookup(params.deep_view(), name@),
{
    let ghost all = params.deep_view();
    let mut i: usize = 0;
    proof {
        assert(all.skip(0) =~= all);
    }
    while i < params.len()
        invariant
            i <= params.len(),
            all == params.deep_view(),
            param_lookup(all, name@) == param_lookup(all.skip(i as int), name@),
        decreases params.len() - i,
    {
        let (pname, ty) = &params[i];
        if crate::text::str_eq(pname.as_str(), name.as_str()) {
            proof {
                assert(all.skip(i as int)[0] == all[i as int]);
            }
            return Some(ty.duplicate());
        }
        proof {
            assert(all.skip(i as int)[0] == all[i as int]);
            assert(all.skip(i as int).skip(1) =~= all.skip(i + 1));
        }
        i += 1;
    }
    proof {
        assert(all.skip(params.len() as int).len() == 0);
    }
    None
}

/// Coerces one raw string under a declared type.
fn coerce_one(ty: &ParamType, raw: &String) -> (r: Option<ArgValue>)
    ensures
        r.deep_view() == coerce_value(ty@, raw@),
{
    match ty {
        ParamType::Int => match parse_i128(raw.as_str()) {
            Some(v) => Some(ArgValue::Int(v)),
            None => None,
        },
        ParamType::Bool => match parse_bool(raw.as_str()) {
            Some(b) => Some(ArgValue::Bool(b)),
            None => None,
        },
        ParamType::Bytes => Some(ArgValue::Text(raw.clone())),
        ParamType::Address => Some(ArgValue::Text(raw.clone())),
        ParamType::Other(_) => None,
    }
}

/// Coerces the arguments from position `i` on.
fn coerce_from(
    params: &Vec<(String, ParamType)>,
    args: &Vec<(String, Option<String>)>,
    i: usize,
    transaction: &str,
    protocol: &str,
) -> (r: Result<Vec<(String, ArgValue)>, ToolError>)
    requires
        i <= args@.len(),
    ensures
        result_view(r) == coerce_spec(
            params.deep_view(),
            args.deep_view().skip(i as int),
            transaction@,
            protocol@,
        ),
    decreases args@.len() - i,
{
    let ghost rest_args = args.deep_view().skip(i as int);
    if i == args.len() {
        let out: Vec<(String, ArgValue)> = Vec::new();
        proof {
            assert(rest_args.len() == 0);
            assert(out.deep_view() =~~= Seq::<(Seq<char>, ArgValueV)>::empty());
        }
        return Ok(out);
    }
    proof {
        assert(rest_args[0] == args.deep_view()[i as int]);
        assert(rest_args.skip(1) =~= args.deep_view().skip(i + 1));
    }
    let (name, rawopt) = &args[i];
    match rawopt {
        None => Err(ToolError::InvalidValue { parameter: name.clone() }),
        Some(raw) => match lookup_param(params, name) {
            None => Err(
                ToolError::ParameterNotFound {
                    parameter: name.clone(),
                    transaction: String::from_str(transaction),
                    protocol: String::from_str(protocol),
                },
            ),
            Some(ty) => match coerce_one(&ty, raw) {
                None => Err(ToolError::InvalidValue { parameter: name.clone() }),
                Some(v) => match coerce_from(params, args, i + 1, transaction, protocol) {
                    Ok(rest) => {
                        let mut out: Vec<(String, ArgValue)> = Vec::new();
                        out.push((name.clone(), v));
                        let mut tail = rest;
                        out.append(&mut tail);
                        proof {
                            assert(out.deep_view() =~~= coerce_spec(
                                params.deep_view(),
                                rest_args,
                                transaction@,
                                protocol@,
                            )->Ok_0);
                        }
                        Ok(out)
                    },
                    Err(e) => Err(e),
                },
            },
        },
    }
}

/// Coerces the caller's arguments against the transaction's declared
/// parameter types, reporting the first offending argument.
pub fn coerce_args(
    params: &Vec<(String, ParamType)>,
    args: &Vec<(String, Option<String>)>,
    transaction: &str,
    protocol: &str,
) -> (r: Result<Vec<(String, ArgValue)>, ToolError>)
    ensures
        result_view(r) == coerce_spec(
            params.deep_view(),
            args.deep_view(),
            transaction@,
            protocol@,
        ),
{
    proof {
        assert(args.deep_view().skip(0) =~= args.deep_view());
    }
    coerce_from(params, args, 0, transaction, protocol)
}

/// An unknown parameter name among the caller's arguments is reported as
/// not found, naming that parameter: when every argument before position
/// `k` coerces and the argument at `k` names no declared parameter, the
/// coercion fails with exactly that report.
pub proof fn lemma_unknown_parameter(
    params: Seq<(Seq<char>, ParamTypeV)>,
    args: Seq<(Seq<char>, Option<Seq<char>>)>,
    transaction: Seq<char>,
    protocol: Seq<char>,
    k: int,
)
    requires
        0 <= k < args.len(),
        args[k].1 is Some,
        param_lookup(params, args[k].0) is None,
        forall|j: int| 0 <= j < k ==> (#[trigger] args[j]).1 is Some,
        forall|j: int|
            0 <= j < k ==> param_lookup(params, (#[trigger] args[j]).0) is Some,
        forall|j: int|
            0 <= j < k ==> coerce_value(
                param_lookup(params, (#[trigger] args[j]).0)->0,
                args[j].1->0,
            ) is Some,
    ensures
        coerce_spec(params, args, transaction, protocol) == Err::<
            Seq<(Seq<char>, ArgValueV)>,
            ToolErrorV,
        >(ToolErrorV::ParameterNotFound { parameter: args[k].0, transaction, protocol }),
    decreases k,
{
    if k > 0 {
        let rest = args.skip(1);
        assert forall|j: int| 0 <= j < k - 1 implies (#[trigger] rest[j]).1 is Some
            && param_lookup(params, rest[j].0) is Some && coerce_value(
            param_lookup(params, rest[j].0)->0,
            rest[j].1->0,
        ) is Some by {
            assert(rest[j] == args[j + 1]);
        }
        assert(rest[k - 1] == args[k]);
        lemma_unknown_parameter(params, rest, transaction, protocol, k - 1);
    }
}

} // verus!
