//! Data model of the tool registry: protocol definitions as they come from a
//! registry query or a local directory scan, the parameter types a compiled
//! transaction declares, and the coerced argument values that are forwarded to
//! the resolver.

use vstd::prelude::*;

verus! {

/// A protocol definition: a name and the tx3 source text behind it.
#[derive(Clone, Debug)]
pub struct Protocol {
    pub name: String,
    pub content: String,
}

/// Mathematical view of a [`Protocol`].
#[verifier::ext_equal]
pub struct ProtocolV {
    pub name: Seq<char>,
    pub content: Seq<char>,
}

impl View for Protocol {
    type V = ProtocolV;

    open spec fn view(&self) -> ProtocolV {
        ProtocolV { name: self.name@, content: self.content@ }
    }
}

impl DeepView for Protocol {
    type V = ProtocolV;

    open spec fn deep_view(&self) -> ProtocolV {
        self@
    }
}

/// One node of the registry's answer: a scoped dapp entry whose `protocol`
/// field, when present, holds tx3 source text.
#[derive(Clone, Debug)]
pub struct Dapp {
    pub scope: String,
    pub name: String,
    pub protocol: Option<String>,
}

/// Mathematical view of a [`Dapp`].
#[verifier::ext_equal]
pub struct DappV {
    pub scope: Seq<char>,
    pub name: Seq<char>,
    pub protocol: Option<Seq<char>>,
}

impl View for Dapp {
    type V = DappV;

    open spec fn view(&self) -> DappV {
        DappV { scope: self.scope@, name: self.name@, protocol: self.protocol.deep_view() }
    }
}

impl DeepView for Dapp {
    type V = DappV;

    open spec fn deep_view(&self) -> DappV {
        self@
    }
}

/// The connection of dapp nodes a registry query returns.
#[derive(Clone, Debug)]
pub struct DappConnection {
    pub nodes: Vec<Dapp>,
}

impl View for DappConnection {
    type V = Seq<DappV>;

    open spec fn view(&self) -> Seq<DappV> {
        self.nodes.deep_view()
    }
}

/// The whole answer of a registry query.
#[derive(Clone, Debug)]
pub struct ProtocolsQuery {
    pub dapps: DappConnection,
}

impl View for ProtocolsQuery {
    type V = Seq<DappV>;

    open spec fn view(&self) -> Seq<DappV> {
        self.dapps@
    }
}

/// One entry of a local directory scan: the file's name and its contents,
/// `None` when the file could not be read.
#[derive(Clone, Debug)]
pub struct DirEntry {
    pub file_name: String,
    pub content: Option<String>,
}

/// Mathematical view of a [`DirEntry`].
#[verifier::ext_equal]
pub struct DirEntryV {
    pub file_name: Seq<char>,
    pub content: Option<Seq<char>>,
}

impl View for DirEntry {
    type V = DirEntryV;

    open spec fn view(&self) -> DirEntryV {
        DirEntryV { file_name: self.file_name@, content: self.content.deep_view() }
    }
}

impl DeepView for DirEntry {
    type V = DirEntryV;

    open spec fn deep_view(&self) -> DirEntryV {
        self@
    }
}

/// The type a transaction declares for one of its parameters. The four
/// variants the coercer understands are listed by name; every other type the
/// compiler may report is carried as [`ParamType::Other`] with its display
/// name, and a value for it is rejected at coercion time.
#[derive(Clone, Debug, PartialEq)]
pub enum ParamType {
    Int,
    Bool,
    Bytes,
    Address,
    Other(String),
}

/// Mathematical view of a [`ParamType`].
#[verifier::ext_equal]
pub enum ParamTypeV {
    Int,
    Bool,
    Bytes,
    Address,
    Other(Seq<char>),
}

impl View for ParamType {
    type V = ParamTypeV;

    open spec fn view(&self) -> ParamTypeV {
        match self {
            ParamType::Int => ParamTypeV::Int,
            ParamType::Bool => ParamTypeV::Bool,
            ParamType::Bytes => ParamTypeV::Bytes,
            ParamType::Address => ParamTypeV::Address,
            ParamType::Other(s) => ParamTypeV::Other(s@),
        }
    }
}

impl DeepView for ParamType {
    type V = ParamTypeV;

    open spec fn deep_view(&self) -> ParamTypeV {
        self@
    }
}

impl ParamType {
    /// An owned copy with the same view.
    pub fn duplicate(&self) -> (r: ParamType)
        ensures
            r@ == self@,
    {
        match self {
            ParamType::Int => ParamType::Int,
            ParamType::Bool => ParamType::Bool,
            ParamType::Bytes => ParamType::Bytes,
            ParamType::Address => ParamType::Address,
            ParamType::Other(s) => ParamType::Other(s.clone()),
        }
    }
}

/// The view of a `Result` whose two sides have deep views of their own.
pub open spec fn result_view<T: DeepView, E: DeepView>(r: Result<T, E>) -> Result<
    T::V,
    E::V,
> {
    match r {
        Ok(t) => Ok(t.deep_view()),
        Err(e) => Err(e.deep_view()),
    }
}

/// A coerced caller argument in the protocol's native representation. `Bytes`
/// and `Address` parameters both coerce to the `Text` variant: the raw string
/// is passed through unchanged.
#[derive(Clone, Debug, PartialEq)]
pub enum ArgValue {
    Int(i128),
    Bool(bool),
    Text(String),
}

/// Mathematical view of an [`ArgValue`].
#[verifier::ext_equal]
pub enum ArgValueV {
    Int(int),
    Bool(bool),
    Text(Seq<char>),
}

impl View for ArgValue {
    type V = ArgValueV;

    open spec fn view(&self) -> ArgValueV {
        match self {
            ArgValue::Int(i) => ArgValueV::Int(*i as int),
            ArgValue::Bool(b) => ArgValueV::Bool(*b),
            ArgValue::Text(s) => ArgValueV::Text(s@),
        }
    }
}

impl DeepView for ArgValue {
    type V = ArgValueV;

    open spec fn deep_view(&self) -> ArgValueV {
        self@
    }
}

} // verus!
