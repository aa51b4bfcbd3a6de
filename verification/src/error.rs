use crate::descriptor::debug_text;
use crate::model::Fault;
use vstd::prelude::*;
use vstd::string::StringExecFns;

verus! {

/// Why an operation of the session failed.
#[derive(Debug, PartialEq, Eq)]
pub enum Error {
    /// A name holds a NUL character.
    BadSymbolName,
    /// The store could not be created, or could not write its output.
    LLVMError,
    /// A structure or a function signature was asked for as such and is not known; `ty` is
    /// the description that was asked for, as `{:?}` prints it.
    BadType { ty: String },
    /// A pointer to a structure that is not registered; `ty` is the structure's name.
    UnknownType { ty: String },
}

/// A composition of types that no request expresses.
#[derive(Debug, Clone, Copy, PartialEq, Eq, Structural)]
pub enum Unsupported {
    /// A pointer to an array.
    PointerToArray,
    /// A pointer to a function signature.
    PointerToFunctionPointer,
}

/// Why an operation that takes every input stopped.
#[derive(Debug, PartialEq, Eq)]
pub enum Stop {
    /// The operation failed with this error.
    Failed(Error),
    /// Resolving came to a composition that no request expresses.
    Unsupported(Unsupported),
}

impl Stop {
    /// Whether this stop reports the given fault.
    pub open spec fn reports(&self, fault: Fault) -> bool {
        match self {
            Stop::Failed(error) => error.reports(fault),
            Stop::Unsupported(what) => fault == (Fault::Unsupported { what: *what }),
        }
    }
}

impl Error {
    /// Whether this error reports the given fault.
    pub open spec fn reports(&self, fault: Fault) -> bool {
        match fault {
            Fault::BadSymbolName => self is BadSymbolName,
            Fault::LLVMError => self is LLVMError,
            Fault::BadType { ty } => self matches Error::BadType { ty: text } && text@
                == debug_text(ty),
            Fault::UnknownType { name } => self matches Error::UnknownType { ty } && ty@ == name,
            Fault::Unsupported { .. } => false,
        }
    }

    /// The text of [`Error::message`].
    pub open spec fn spec_message(&self) -> Seq<char> {
        match self {
            Error::BadSymbolName => "Bad symbol name, names may not contain null bytes!"@,
            Error::LLVMError => "LLVM failed to generate a valid PDB, please double check all paths or file a bug!"@,
            Error::BadType { .. } => "Tried to create a complex type!"@,
            Error::UnknownType { ty } => "Unknown type "@ + ty@ + " was used!"@,
        }
    }

    /// Returns a sentence that says what went wrong.
    pub fn message(&self) -> (text: String)
        ensures
            text@ == self.spec_message(),
    {
        match self {
            Error::BadSymbolName => String::from_str(
                "Bad symbol name, names may not contain null bytes!",
            ),
            Error::LLVMError => String::from_str(
                "LLVM failed to generate a valid PDB, please double check all paths or file a bug!",
            ),
            Error::BadType { .. } => String::from_str("Tried to create a complex type!"),
            Error::UnknownType { ty } => String::from_str("Unknown type ").concat(
                ty.as_str(),
            ).concat(" was used!"),
        }
    }
}

/// Whether what an operation returned is what the model says of it: the same value, or an
/// error that reports the same fault.
pub open spec fn agrees<T>(result: Result<T, Error>, outcome: Result<T, Fault>) -> bool {
    match (result, outcome) {
        (Ok(value), Ok(expected)) => value == expected,
        (Err(error), Err(fault)) => error.reports(fault),
        _ => false,
    }
}

/// Whether what an operation that takes every input returned is what the model says of it:
/// the same value, or a stop that reports the same fault.
pub open spec fn matches_outcome<T>(result: Result<T, Stop>, outcome: Result<T, Fault>) -> bool {
    match (result, outcome) {
        (Ok(value), Ok(expected)) => value == expected,
        (Err(stop), Err(fault)) => stop.reports(fault),
        _ => false,
    }
}

} // verus!
