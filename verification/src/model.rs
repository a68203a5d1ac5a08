//! The canonical argument model: the fully resolved tuple that the invoker
//! receives, the value the endpoint hands back, and the shared error channel.

use vstd::prelude::*;

verus! {

/// Mathematical view of a fully resolved argument tuple: the identifier as a
/// character sequence and the two optional arguments as plain optional values.
pub ghost struct ArgsView {
    pub name: Seq<char>,
    pub opt1: Option<u32>,
    pub opt2: Option<i32>,
}

/// The canonical tuple that a construction style delivers once the three
/// logical arguments are known.
pub open spec fn canonical_args(name: Seq<char>, opt1: Option<u32>, opt2: Option<i32>) -> ArgsView {
    ArgsView { name, opt1, opt2 }
}

/// The canonical, fully resolved arguments of one endpoint call.
#[derive(Debug, PartialEq, Eq)]
pub struct ArgumentTuple {
    pub name: String,
    pub opt1: Option<u32>,
    pub opt2: Option<i32>,
}

impl View for ArgumentTuple {
    type V = ArgsView;

    open spec fn view(&self) -> ArgsView {
        ArgsView { name: self.name@, opt1: self.opt1, opt2: self.opt2 }
    }
}

/// What the endpoint returns. The modeled endpoint is a pure function of its
/// three logical arguments, so the value records exactly the tuple that was
/// delivered to it.
#[derive(Debug, PartialEq, Eq)]
pub struct Value {
    pub args: ArgumentTuple,
}

impl View for Value {
    type V = ArgsView;

    open spec fn view(&self) -> ArgsView {
        self.args@
    }
}

/// The one caller-facing error channel shared by every fallible call path.
///
/// `Construction` reports a required field that was never supplied to a
/// fallible builder; the call is never attempted. `Invocation` is the slot for
/// an opaque transport failure; the transport modeled here is pure and never
/// produces one, but the channel carries both kinds so that callers of any
/// builder-mediated path see a single fallible result type.
#[derive(Debug, PartialEq, Eq, Clone, Copy)]
pub enum ApiError {
    Construction,
    Invocation,
}

/// The result type of every endpoint call.
pub type ReturnedValue = Result<Value, ApiError>;

/// Ghost state of a record builder: the identifier is pending until set, the
/// optional fields default to absent.
pub ghost struct RecordBuilderView {
    pub name: Option<Seq<char>>,
    pub opt1: Option<u32>,
    pub opt2: Option<i32>,
}

/// What finalizing a record builder yields: the canonical tuple when the
/// identifier was supplied, a construction error when it never was.
pub open spec fn finalize_record(b: RecordBuilderView) -> Result<ArgsView, ApiError> {
    match b.name {
        Some(n) => Ok(canonical_args(n, b.opt1, b.opt2)),
        None => Err(ApiError::Construction),
    }
}

} // verus!
