//! The errors of the runtime: traps, runtime errors, and the failures of
//! linking and instantiation.

use crate::types::{ExternType, ExternTypeView};
use vstd::prelude::*;
use vstd::string::StringExecFns;

verus! {

/// The reason for a trap.
#[derive(Copy, Clone, Debug, PartialEq, Eq, Hash, Structural)]
pub enum TrapCode {
    /// The stack space was exhausted.
    StackOverflow,
    /// An access to linear memory was out of bounds.
    HeapAccessOutOfBounds,
    /// An access to linear memory was misaligned.
    HeapMisaligned,
    /// An access to a table was out of bounds.
    TableAccessOutOfBounds,
    /// Another bounds check failed.
    OutOfBounds,
    /// An indirect call went through a null table entry.
    IndirectCallToNull,
    /// The type found did not match the type expected.
    BadSignature,
    /// An integer operation overflowed.
    IntegerOverflow,
    /// An integer was divided by zero.
    IntegerDivisionByZero,
    /// A float could not be converted to an integer.
    BadConversionToInteger,
    /// Code marked unreachable was reached.
    UnreachableCodeReached,
    /// An atomic access was not aligned.
    UnalignedAtomic,
}

impl TrapCode {
    /// The message that describes the trap code.
    pub open spec fn spec_message(self) -> Seq<char> {
        match self {
            TrapCode::StackOverflow => "call stack exhausted"@,
            TrapCode::HeapAccessOutOfBounds => "out of bounds memory access"@,
            TrapCode::HeapMisaligned => "misaligned heap"@,
            TrapCode::TableAccessOutOfBounds => "undefined element: out of bounds table access"@,
            TrapCode::OutOfBounds => "out of bounds"@,
            TrapCode::IndirectCallToNull => "uninitialized element"@,
            TrapCode::BadSignature => "indirect call type mismatch"@,
            TrapCode::IntegerOverflow => "integer overflow"@,
            TrapCode::IntegerDivisionByZero => "integer divide by zero"@,
            TrapCode::BadConversionToInteger => "invalid conversion to integer"@,
            TrapCode::UnreachableCodeReached => "unreachable"@,
            TrapCode::UnalignedAtomic => "unaligned atomic access"@,
        }
    }

    /// Returns the message for this trap code.
    pub fn message(&self) -> (r: &'static str)
        ensures
            r@ == self.spec_message(),
    {
        match self {
            TrapCode::StackOverflow => "call stack exhausted",
            TrapCode::HeapAccessOutOfBounds => "out of bounds memory access",
            TrapCode::HeapMisaligned => "misaligned heap",
            TrapCode::TableAccessOutOfBounds => "undefined element: out of bounds table access",
            TrapCode::OutOfBounds => "out of bounds",
            TrapCode::IndirectCallToNull => "uninitialized element",
            TrapCode::BadSignature => "indirect call type mismatch",
            TrapCode::IntegerOverflow => "integer overflow",
            TrapCode::IntegerDivisionByZero => "integer divide by zero",
            TrapCode::BadConversionToInteger => "invalid conversion to integer",
            TrapCode::UnreachableCodeReached => "unreachable",
            TrapCode::UnalignedAtomic => "unaligned atomic access",
        }
    }
}

/// A fault raised by the storage layer of the virtual machine.
#[derive(Copy, Clone, Debug, PartialEq, Eq, Hash, Structural)]
pub enum Trap {
    /// A trap raised by a runtime routine, with its code.
    Lib {
        /// The code of the trap.
        trap_code: TrapCode,
    },
    /// The runtime could not allocate memory.
    OOM,
}

impl Trap {
    /// A trap raised by a runtime routine with the given code.
    pub fn lib(trap_code: TrapCode) -> (r: Trap)
        ensures
            r == (Trap::Lib { trap_code }),
    {
        Trap::Lib { trap_code }
    }

    /// A trap that reports exhausted memory.
    pub fn oom() -> (r: Trap)
        ensures
            r == Trap::OOM,
    {
        Trap::OOM
    }
}

/// What a [`RuntimeError`] holds, as a mathematical value.
pub enum RuntimeErrorView {
    /// An error described by a message.
    Generic(Seq<char>),
    /// The virtual machine ran out of memory.
    OutOfMemory,
    /// A trap with its code.
    Trap(TrapCode),
}

impl RuntimeErrorView {
    /// The message that an error with this content reports.
    pub open spec fn message(self) -> Seq<char> {
        match self {
            RuntimeErrorView::Generic(msg) => msg,
            RuntimeErrorView::OutOfMemory => "Wasmer VM out of memory"@,
            RuntimeErrorView::Trap(code) => code.spec_message(),
        }
    }
}

#[derive(Clone, Debug, PartialEq, Eq)]
enum RuntimeErrorSource {
    Generic(String),
    OutOfMemory,
    Trap(TrapCode),
}

/// An aborted operation, with the cause of the abort.
#[derive(Clone, Debug, PartialEq, Eq)]
pub struct RuntimeError {
    source: RuntimeErrorSource,
}

impl View for RuntimeError {
    type V = RuntimeErrorView;

    closed spec fn view(&self) -> RuntimeErrorView {
        match self.source {
            RuntimeErrorSource::Generic(msg) => RuntimeErrorView::Generic(msg@),
            RuntimeErrorSource::OutOfMemory => RuntimeErrorView::OutOfMemory,
            RuntimeErrorSource::Trap(code) => RuntimeErrorView::Trap(code),
        }
    }
}

impl RuntimeError {
    /// The content of the error that a trap turns into.
    pub open spec fn spec_from_trap(trap: Trap) -> RuntimeErrorView {
        match trap {
            Trap::Lib { trap_code } => RuntimeErrorView::Trap(trap_code),
            Trap::OOM => RuntimeErrorView::OutOfMemory,
        }
    }

    /// A generic error with the given message.
    pub fn new(message: &str) -> (r: RuntimeError)
        ensures
            r@ == RuntimeErrorView::Generic(message@),
    {
        RuntimeError { source: RuntimeErrorSource::Generic(String::from_str(message)) }
    }

    /// The error that reports the given trap.
    pub fn from_trap(trap: Trap) -> (r: RuntimeError)
        ensures
            r@ == Self::spec_from_trap(trap),
    {
        match trap {
            Trap::Lib { trap_code } => RuntimeError { source: RuntimeErrorSource::Trap(trap_code) },
            Trap::OOM => RuntimeError { source: RuntimeErrorSource::OutOfMemory },
        }
    }

    /// Returns the message of the error.
    pub fn message(&self) -> (r: String)
        ensures
            r@ == self@.message(),
    {
        match &self.source {
            RuntimeErrorSource::Generic(msg) => msg.clone(),
            RuntimeErrorSource::OutOfMemory => String::from_str("Wasmer VM out of memory"),
            RuntimeErrorSource::Trap(code) => String::from_str(code.message()),
        }
    }

    /// Returns the trap code, if the error reports a trap.
    pub fn to_trap(self) -> (r: Option<TrapCode>)
        ensures
            r == (match self@ {
                RuntimeErrorView::Trap(code) => Some(code),
                _ => None,
            }),
    {
        match self.source {
            RuntimeErrorSource::Trap(code) => Some(code),
            _ => None,
        }
    }
}

/// An import error as a mathematical value.
pub enum ImportErrorView {
    /// The import was declared with the first type and supplied with a value
    /// of the second.
    IncompatibleType(ExternTypeView, ExternTypeView),
    /// An import of this type was declared and nothing was supplied.
    UnknownImport(ExternTypeView),
}

/// Why an import could not be bound.
#[derive(Clone, Debug, PartialEq, Eq)]
pub enum ImportError {
    /// The import was declared with the first type and supplied with a value
    /// of the second.
    IncompatibleType(ExternType, ExternType),
    /// An import of this type was declared and nothing was supplied.
    UnknownImport(ExternType),
}

impl View for ImportError {
    type V = ImportErrorView;

    open spec fn view(&self) -> ImportErrorView {
        match self {
            ImportError::IncompatibleType(expected, supplied) => ImportErrorView::IncompatibleType(
                expected@,
                supplied@,
            ),
            ImportError::UnknownImport(expected) => ImportErrorView::UnknownImport(expected@),
        }
    }
}

/// A link error as a mathematical value.
pub enum LinkErrorView {
    /// The import with this module name and field name could not be bound.
    Import(Seq<char>, Seq<char>, ImportErrorView),
    /// Code that runs as part of linking trapped.
    Trap(RuntimeErrorView),
    /// The resources for linking were not available.
    Resource(Seq<char>),
}

/// A failure while linking a module, other than a trap of its start
/// function.
#[derive(Clone, Debug, PartialEq, Eq)]
pub enum LinkError {
    /// The import with this module name and field name could not be bound.
    Import(String, String, ImportError),
    /// Code that runs as part of linking trapped.
    Trap(RuntimeError),
    /// The resources for linking were not available.
    Resource(String),
}

impl View for LinkError {
    type V = LinkErrorView;

    open spec fn view(&self) -> LinkErrorView {
        match self {
            LinkError::Import(module, field, cause) => LinkErrorView::Import(
                module@,
                field@,
                cause@,
            ),
            LinkError::Trap(e) => LinkErrorView::Trap(e@),
            LinkError::Resource(msg) => LinkErrorView::Resource(msg@),
        }
    }
}

/// An instantiation error as a mathematical value.
pub enum InstantiationErrorView {
    /// Linking failed.
    Link(LinkErrorView),
    /// The module needs a CPU feature that the host lacks.
    CpuFeature(Seq<char>),
    /// The start function of the module trapped.
    Start(RuntimeErrorView),
}

/// A failure while instantiating a module.
#[derive(Clone, Debug, PartialEq, Eq)]
pub enum InstantiationError {
    /// Linking failed.
    Link(LinkError),
    /// The module needs a CPU feature that the host lacks.
    CpuFeature(String),
    /// The start function of the module trapped.
    Start(RuntimeError),
}

impl View for InstantiationError {
    type V = InstantiationErrorView;

    open spec fn view(&self) -> InstantiationErrorView {
        match self {
            InstantiationError::Link(e) => InstantiationErrorView::Link(e@),
            InstantiationError::CpuFeature(feature) => InstantiationErrorView::CpuFeature(
                feature@,
            ),
            InstantiationError::Start(e) => InstantiationErrorView::Start(e@),
        }
    }
}

/// Why an extern could not be used as the kind that was asked for.
#[derive(Clone, Debug, PartialEq, Eq)]
pub enum ExportError {
    /// The extern is of another kind.
    IncompatibleType,
    /// No export of this name exists.
    Missing(String),
}

} // verus!
