//! Plain parameter records: a directly constructed record with no validation,
//! and a record built through a validated builder that demands the identifier
//! before finalization.

use vstd::prelude::*;

use crate::model::{canonical_args, finalize_record, ApiError, ArgsView, RecordBuilderView};
use vstd::string::StringExecFns;

verus! {

/// An unvalidated parameter record: any combination of fields is
/// constructible, including an empty identifier.
#[derive(Debug, PartialEq, Eq)]
pub struct ApproachC {
    pub name: String,
    pub opt1: Option<u32>,
    pub opt2: Option<i32>,
}

impl View for ApproachC {
    type V = ArgsView;

    open spec fn view(&self) -> ArgsView {
        ArgsView { name: self.name@, opt1: self.opt1, opt2: self.opt2 }
    }
}

impl Default for ApproachC {
    /// An empty identifier and both optionals absent.
    fn default() -> (r: ApproachC)
        ensures
            r@ == canonical_args(Seq::<char>::empty(), None, None),
    {
        ApproachC { name: String::new(), opt1: None, opt2: None }
    }
}

/// A parameter record built through the validated builder: the identifier is
/// guaranteed to have been supplied.
#[derive(Debug, PartialEq, Eq)]
pub struct ApproachD {
    pub name: String,
    pub opt1: Option<u32>,
    pub opt2: Option<i32>,
}

impl View for ApproachD {
    type V = ArgsView;

    open spec fn view(&self) -> ArgsView {
        ArgsView { name: self.name@, opt1: self.opt1, opt2: self.opt2 }
    }
}

/// The validated builder for [`ApproachD`]: the identifier must be supplied
/// before finalization, the optional fields default to absent.
pub struct ApproachDBuilder {
    name: Option<String>,
    opt1: Option<u32>,
    opt2: Option<i32>,
}

impl View for ApproachDBuilder {
    type V = RecordBuilderView;

    closed spec fn view(&self) -> RecordBuilderView {
        RecordBuilderView {
            name: match self.name {
                Some(n) => Some(n@),
                None => None,
            },
            opt1: self.opt1,
            opt2: self.opt2,
        }
    }
}

impl Default for ApproachDBuilder {
    /// A fresh builder: no field set yet.
    fn default() -> (r: ApproachDBuilder)
        ensures
            r@ == (RecordBuilderView { name: None, opt1: None, opt2: None }),
    {
        ApproachDBuilder { name: None, opt1: None, opt2: None }
    }
}

impl ApproachDBuilder {
    /// Supply the required identifier.
    pub fn name(self, value: &str) -> (r: ApproachDBuilder)
        ensures
            r@ == (RecordBuilderView { name: Some(value@), ..self@ }),
    {
        ApproachDBuilder { name: Some(String::from_str(value)), ..self }
    }

    /// Supply the first optional argument.
    pub fn opt1(self, value: u32) -> (r: ApproachDBuilder)
        ensures
            r@ == (RecordBuilderView { opt1: Some(value), ..self@ }),
    {
        ApproachDBuilder { opt1: Some(value), ..self }
    }

    /// Supply the second optional argument.
    pub fn opt2(self, value: i32) -> (r: ApproachDBuilder)
        ensures
            r@ == (RecordBuilderView { opt2: Some(value), ..self@ }),
    {
        ApproachDBuilder { opt2: Some(value), ..self }
    }

    /// Finalize the record: yields the record exactly when the identifier was
    /// supplied, and a construction error exactly when it never was.
    pub fn build(&self) -> (r: Result<ApproachD, ApiError>)
        ensures
            finalize_record(self@) matches Ok(a) ==> (r matches Ok(d) && d@ == a),
            finalize_record(self@) matches Err(e) ==> r == Err::<ApproachD, ApiError>(e),
    {
        match &self.name {
            Some(n) => Ok(ApproachD { name: n.clone(), opt1: self.opt1, opt2: self.opt2 }),
            None => Err(ApiError::Construction),
        }
    }
}

} // verus!
