//! Errors reported to the caller of the tool server. Every variant carries
//! the data its message is built from; [`ToolError::message`] renders the
//! exact text, and [`ToolError::is_internal`] separates upstream resolution
//! failures (internal errors) from not-found and invalid-argument reports.

use vstd::prelude::*;

verus! {

/// A structured error of the tool registry and dispatch layer.
#[derive(Clone, Debug, PartialEq)]
pub enum ToolError {
    /// The operation name had no second dash-separated component.
    ProtocolNameMissing,
    /// The operation name had no third dash-separated component.
    TransactionNameMissing,
    /// No loaded protocol definition carries the decoded protocol name.
    ProtocolNotFound { protocol: String },
    /// The compiled protocol exposes no transaction of the decoded name.
    TransactionNotFound { transaction: String, protocol: String },
    /// A caller argument was not a string, failed to parse as the declared
    /// type, or the declared type is not one the coercer understands.
    InvalidValue { parameter: String },
    /// A caller argument's name is not among the transaction's parameters.
    ParameterNotFound { parameter: String, transaction: String, protocol: String },
    /// A declared parameter of the transaction has no supplied argument.
    ParameterMissing { parameter: String, transaction: String, protocol: String },
    /// The protocol's source text was rejected by the compiler.
    Compilation { protocol: String, message: String },
    /// The resolver service failed; the upstream message is carried verbatim.
    Resolution { message: String },
}

/// Mathematical view of a [`ToolError`].
#[verifier::ext_equal]
pub enum ToolErrorV {
    ProtocolNameMissing,
    TransactionNameMissing,
    ProtocolNotFound { protocol: Seq<char> },
    TransactionNotFound { transaction: Seq<char>, protocol: Seq<char> },
    InvalidValue { parameter: Seq<char> },
    ParameterNotFound { parameter: Seq<char>, transaction: Seq<char>, protocol: Seq<char> },
    ParameterMissing { parameter: Seq<char>, transaction: Seq<char>, protocol: Seq<char> },
    Compilation { protocol: Seq<char>, message: Seq<char> },
    Resolution { message: Seq<char> },
}

impl View for ToolError {
    type V = ToolErrorV;

    open spec fn view(&self) -> ToolErrorV {
        match self {
            ToolError::ProtocolNameMissing => ToolErrorV::ProtocolNameMissing,
            ToolError::TransactionNameMissing => ToolErrorV::TransactionNameMissing,
            ToolError::ProtocolNotFound { protocol } => ToolErrorV::ProtocolNotFound {
                protocol: protocol@,
            },
            ToolError::TransactionNotFound { transaction, protocol } => {
                ToolErrorV::TransactionNotFound { transaction: transaction@, protocol: protocol@ }
            },
            ToolError::InvalidValue { parameter } => ToolErrorV::InvalidValue {
                parameter: parameter@,
            },
            ToolError::ParameterNotFound { parameter, transaction, protocol } => {
                ToolErrorV::ParameterNotFound {
                    parameter: parameter@,
                    transaction: transaction@,
                    protocol: protocol@,
                }
            },
            ToolError::ParameterMissing { parameter, transaction, protocol } => {
                ToolErrorV::ParameterMissing {
                    parameter: parameter@,
                    transaction: transaction@,
                    protocol: protocol@,
                }
            },
            ToolError::Compilation { protocol, message } => ToolErrorV::Compilation {
                protocol: protocol@,
                message: message@,
            },
            ToolError::Resolution { message } => ToolErrorV::Resolution { message: message@ },
        }
    }
}

impl DeepView for ToolError {
    type V = ToolErrorV;

    open spec fn deep_view(&self) -> ToolErrorV {
        self@
    }
}

/// The exact message text of each error, as [`ToolError::message`] builds it.
pub open spec fn error_message(e: ToolErrorV) -> Seq<char> {
    match e {
        ToolErrorV::ProtocolNameMissing => "Protocol name not found"@,
        ToolErrorV::TransactionNameMissing => "Transaction name not found"@,
        ToolErrorV::ProtocolNotFound { protocol } => "Protocol "@ + protocol + " not found"@,
        ToolErrorV::TransactionNotFound { transaction, protocol } => {
            "Transaction "@ + transaction + " not found for protocol "@ + protocol
        },
        ToolErrorV::InvalidValue { parameter } => {
            "Invalid value provided for parameter "@ + parameter
        },
        ToolErrorV::ParameterNotFound { parameter, transaction, protocol } => {
            "Parameter "@ + parameter + " not found for transaction "@ + transaction
                + " in protocol "@ + protocol
        },
        ToolErrorV::ParameterMissing { parameter, transaction, protocol } => {
            "Required parameter "@ + parameter + " missing for transaction "@ + transaction
                + " in protocol "@ + protocol
        },
        ToolErrorV::Compilation { protocol, message } => {
            "Error compiling protocol "@ + protocol + ": "@ + message
        },
        ToolErrorV::Resolution { message } => "Error resolving transaction: "@ + message,
    }
}

impl ToolError {
    /// Renders the message reported to the caller.
    pub fn message(&self) -> (r: String)
        ensures
            r@ == error_message(self@),
    {
        match self {
            ToolError::ProtocolNameMissing => String::from_str("Protocol name not found"),
            ToolError::TransactionNameMissing => String::from_str("Transaction name not found"),
            ToolError::ProtocolNotFound { protocol } => {
                let mut m = String::from_str("Protocol ");
                m.append(protocol.as_str());
                m.append(" not found");
                proof {
                    assert(m@ =~= error_message(self@));
                }
                m
            },
            ToolError::TransactionNotFound { transaction, protocol } => {
                let mut m = String::from_str("Transaction ");
                m.append(transaction.as_str());
                m.append(" not found for protocol ");
                m.append(protocol.as_str());
                proof {
                    assert(m@ =~= error_message(self@));
                }
                m
            },
            ToolError::InvalidValue { parameter } => {
                let mut m = String::from_str("Invalid value provided for parameter ");
                m.append(parameter.as_str());
                proof {
                    assert(m@ =~= error_message(self@));
                }
                m
            },
            ToolError::ParameterNotFound { parameter, transaction, protocol } => {
                let mut m = String::from_str("Parameter ");
                m.append(parameter.as_str());
                m.append(" not found for transaction ");
                m.append(transaction.as_str());
                m.append(" in protocol ");
                m.append(protocol.as_str());
                proof {
                    assert(m@ =~= error_message(self@));
                }
                m
            },
            ToolError::ParameterMissing { parameter, transaction, protocol } => {
                let mut m = String::from_str("Required parameter ");
                m.append(parameter.as_str());
                m.append(" missing for transaction ");
                m.append(transaction.as_str());
                m.append(" in protocol ");
                m.append(protocol.as_str());
                proof {
                    assert(m@ =~= error_message(self@));
                }
                m
            },
            ToolError::Compilation { protocol, message } => {
                let mut m = String::from_str("Error compiling protocol ");
                m.append(protocol.as_str());
                m.append(": ");
                m.append(message.as_str());
                proof {
                    assert(m@ =~= error_message(self@));
                }
                m
            },
            ToolError::Resolution { message } => {
                let mut m = String::from_str("Error resolving transaction: ");
                m.append(message.as_str());
                proof {
                    assert(m@ =~= error_message(self@));
                }
                m
            },
        }
    }

    /// True for the errors reported with an internal-error signal; the rest
    /// are reported as resource-not-found.
    pub fn is_internal(&self) -> (r: bool)
        ensures
            r == (self@ is Resolution),
    {
        match self {
            ToolError::Resolution { .. } => true,
            _ => false,
        }
    }
}

} // verus!
