//! Operation-name routing. An operation name packs an action, a protocol
//! name and a transaction name into one dash-delimited string; decoding
//! splits on every dash and consults the first three components, ignoring
//! any further ones.

use vstd::prelude::*;
use crate::errors::{ToolError, ToolErrorV};
use crate::model::result_view;

verus! {

/// Splitting a character sequence on every dash. The result always holds at
/// least one component; a dash at either end or two adjacent dashes yield
/// empty components, exactly as `str::split` does.
pub open spec fn split_dash(s: Seq<char>) -> Seq<Seq<char>>
    decreases s.len(),
{
    if s.len() == 0 {
        seq![Seq::<char>::empty()]
    } else if s[0] == '-' {
        seq![Seq::<char>::empty()] + split_dash(s.skip(1))
    } else {
        let rest = split_dash(s.skip(1));
        seq![seq![s[0]] + rest[0]] + rest.skip(1)
    }
}

/// A split never yields an empty component list.
pub proof fn lemma_split_dash_len(s: Seq<char>)
    ensures
        split_dash(s).len() >= 1,
    decreases s.len(),
{
    if s.len() > 0 {
        lemma_split_dash_len(s.skip(1));
    }
}

/// Splitting at the first dash: when no dash stands before position `i` and
/// position `i` holds one (or is the end), the split is the head component
/// followed by the split of the remainder.
proof fn lemma_split_dash_at(s: Seq<char>, i: int)
    requires
        0 <= i <= s.len(),
        forall|j: int| 0 <= j < i ==> s[j] != '-',
        i < s.len() ==> s[i] == '-',
    ensures
        i < s.len() ==> split_dash(s) =~~= seq![s.take(i)] + split_dash(s.skip(i + 1)),
        i == s.len() ==> split_dash(s) =~~= seq![s],
    decreases i,
{
    lemma_split_dash_len(s);
    if i == 0 {
        if 0 < s.len() {
            assert(s.take(0) =~= Seq::<char>::empty());
        }
    } else {
        let t = s.skip(1);
        lemma_split_dash_len(t);
        lemma_split_dash_at(t, i - 1);
        if i < s.len() {
            assert(t.skip(i) =~= s.skip(i + 1));
            let rest = split_dash(t);
            assert(rest[0] == t.take(i - 1));
            assert(seq![s[0]] + t.take(i - 1) =~= s.take(i));
            assert(split_dash(s) =~~= seq![s.take(i)] + split_dash(s.skip(i + 1)));
        } else {
            assert(seq![s[0]] + t =~= s);
        }
    }
}

/// Splits a string on every dash, returning the component strings in order.
pub fn split_dash_exec(s: &str) -> (r: Vec<String>)
    ensures
        r.deep_view() =~~= split_dash(s@),
        r.deep_view().len() >= 1,
    decreases s@.len(),
{
    proof {
        lemma_split_dash_len(s@);
    }
    let n = s.unicode_len();
    let mut i: usize = 0;
    while i < n && s.get_char(i) != '-'
        invariant
            0 <= i <= n,
            n == s@.len(),
            forall|j: int| 0 <= j < i ==> s@[j] != '-',
        decreases n - i,
    {
        i += 1;
    }
    if i == n {
        let mut v: Vec<String> = Vec::new();
        v.push(String::from_str(s));
        proof {
            lemma_split_dash_at(s@, n as int);
            assert(v.deep_view() =~~= split_dash(s@));
        }
        v
    } else {
        let head = s.substring_char(0, i);
        let tail = s.substring_char(i + 1, n);
        let mut v: Vec<String> = Vec::new();
        v.push(String::from_str(head));
        let mut rest = split_dash_exec(tail);
        v.append(&mut rest);
        proof {
            lemma_split_dash_at(s@, i as int);
            assert(v.deep_view() =~~= split_dash(s@));
        }
        v
    }
}

/// The decoded routing key of an operation name: its first three
/// dash-separated components.
#[derive(Clone, Debug)]
pub struct RouteKey {
    pub action: String,
    pub protocol: String,
    pub transaction: String,
}

/// Mathematical view of a [`RouteKey`].
#[verifier::ext_equal]
pub struct RouteKeyV {
    pub action: Seq<char>,
    pub protocol: Seq<char>,
    pub transaction: Seq<char>,
}

impl View for RouteKey {
    type V = RouteKeyV;

    open spec fn view(&self) -> RouteKeyV {
        RouteKeyV {
            action: self.action@,
            protocol: self.protocol@,
            transaction: self.transaction@,
        }
    }
}

impl DeepView for RouteKey {
    type V = RouteKeyV;

    open spec fn deep_view(&self) -> RouteKeyV {
        self@
    }
}

/// Decoding an operation name: the first three components of the dash
/// split, or the error naming the first missing component. A split always
/// has at least one component, so only the protocol and transaction names
/// can be missing.
pub open spec fn route_spec(name: Seq<char>) -> Result<RouteKeyV, ToolErrorV> {
    let parts = split_dash(name);
    if parts.len() < 2 {
        Err(ToolErrorV::ProtocolNameMissing)
    } else if parts.len() < 3 {
        Err(ToolErrorV::TransactionNameMissing)
    } else {
        Ok(RouteKeyV { action: parts[0], protocol: parts[1], transaction: parts[2] })
    }
}

/// Decodes an operation name into `{action, protocol, transaction}`,
/// requiring at least three dash-separated components; components beyond
/// the third are ignored.
pub fn route(name: &str) -> (r: Result<RouteKey, ToolError>)
    ensures
        result_view(r) == route_spec(name@),
{
    let mut parts = split_dash_exec(name);
    if parts.len() < 2 {
        return Err(ToolError::ProtocolNameMissing);
    }
    if parts.len() < 3 {
        return Err(ToolError::TransactionNameMissing);
    }
    let transaction = parts.remove(2);
    let protocol = parts.remove(1);
    let action = parts.remove(0);
    let key = RouteKey { action, protocol, transaction };
    proof {
        assert(key@ == route_spec(name@)->Ok_0);
    }
    Ok(key)
}

} // verus!
