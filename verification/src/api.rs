//! The API client: the canonical invoker every construction style funnels
//! into, the direct-call adapters, and the factory methods for the bound and
//! group builders.

use vstd::prelude::*;

use crate::builders::{ApproachFBuilder, FBuilderView, GroupBuilder, GroupBuilderView};
use crate::convert::{IntoOptionI32, IntoOptionU32};
use crate::model::{canonical_args, ArgumentTuple, ReturnedValue, Value};
use crate::params::{ApproachC, ApproachD};
use vstd::string::StringExecFns;

verus! {

/// The API client that owns the endpoint. It holds no mutable state of its
/// own; every endpoint call goes through its canonical invoker.
#[derive(Debug, Clone, Copy)]
pub struct APIClient;

impl Default for APIClient {
    fn default() -> (r: APIClient)
        ensures
            r == (APIClient {  }),
    {
        APIClient {  }
    }
}

impl APIClient {
    /// The canonical invoker: the single choke point that receives the fully
    /// resolved arguments. The modeled endpoint is a pure function of its
    /// three arguments, so the returned value records exactly the tuple that
    /// was delivered.
    pub(crate) fn actual_endpoint(
        &self,
        name: &str,
        opt1: Option<u32>,
        opt2: Option<i32>,
    ) -> (result: ReturnedValue)
        ensures
            result matches Ok(v) && v@ == canonical_args(name@, opt1, opt2),
    {
        Ok(Value { args: ArgumentTuple { name: String::from_str(name), opt1, opt2 } })
    }

    /// Direct call with plain optional values: absence is spelled out by the
    /// caller.
    pub fn approach_a(&self, name: &str, opt1: Option<u32>, opt2: Option<i32>) -> (result:
        ReturnedValue)
        ensures
            result matches Ok(v) && v@ == canonical_args(name@, opt1, opt2),
    {
        self.actual_endpoint(name, opt1, opt2)
    }

    /// Direct call with values convertible into optionals: a bare value or an
    /// explicit optional, normalized before delegation.
    pub fn approach_b<T1, T2>(&self, name: &str, opt1: T1, opt2: T2) -> (result: ReturnedValue) where
        T1: IntoOptionU32,
        T2: IntoOptionI32,

        ensures
            result matches Ok(v) && v@ == canonical_args(
                name@,
                opt1.option_spec(),
                opt2.option_spec(),
            ),
    {
        self.actual_endpoint(name, opt1.into_option(), opt2.into_option())
    }

    /// Call with an unvalidated parameter record, passed by reference and
    /// forwarded field by field.
    pub fn approach_c(&self, data: &ApproachC) -> (result: ReturnedValue)
        ensures
            result matches Ok(v) && v@ == data@,
    {
        self.actual_endpoint(data.name.as_str(), data.opt1, data.opt2)
    }

    /// Call with a builder-validated parameter record, passed by reference
    /// and forwarded field by field.
    pub fn approach_d(&self, data: &ApproachD) -> (result: ReturnedValue)
        ensures
            result matches Ok(v) && v@ == data@,
    {
        self.actual_endpoint(data.name.as_str(), data.opt1, data.opt2)
    }

    /// Create a bound builder: the client handle and the identifier are
    /// pre-populated in one step, so finalization is guaranteed to succeed.
    pub fn approach_f(&self, name: &str) -> (r: ApproachFBuilder<'_>)
        ensures
            r@ == (FBuilderView {
                client_set: true,
                name: Some(name@),
                opt1: None,
                opt2: None,
            }),
    {
        ApproachFBuilder::default().client(self).name(name)
    }

    /// Create a group builder: the client handle is pre-populated; the shared
    /// optionals are collected once and read by every finishing operation.
    pub fn group(&self) -> (r: GroupBuilder<'_>)
        ensures
            r@ == (GroupBuilderView { client_set: true, opt1: None, opt2: None }),
    {
        GroupBuilder::default().client(self)
    }
}

} // verus!
