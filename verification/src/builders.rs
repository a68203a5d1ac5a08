//! The builder family: a fallible builder whose finalize-and-call either
//! fails before any call is attempted or delegates to the invoker; a bound
//! builder that closes over the client so finalization and invocation fuse
//! into one operation; and a group builder that collects the shared optionals
//! once and offers several finishing operations.

use vstd::prelude::*;

use crate::api::APIClient;
use crate::model::{
    canonical_args, finalize_record, ApiError, ArgsView, RecordBuilderView, ReturnedValue, Value,
};
use vstd::pervasive::unreached;
use vstd::string::StringExecFns;

verus! {

/// A parameter record for the endpoint-oriented style. Callers never see it:
/// it exists between finalization and invocation inside a combined call.
pub struct ApproachE {
    pub name: String,
    pub opt1: Option<u32>,
    pub opt2: Option<i32>,
}

impl View for ApproachE {
    type V = ArgsView;

    open spec fn view(&self) -> ArgsView {
        ArgsView { name: self.name@, opt1: self.opt1, opt2: self.opt2 }
    }
}

/// The fallible builder: all three fields are settable, and the combined
/// finalize-and-call operation surfaces a construction error when the
/// identifier was never supplied — the call is never attempted in that case.
pub struct ApproachEBuilder {
    name: Option<String>,
    opt1: Option<u32>,
    opt2: Option<i32>,
}

impl View for ApproachEBuilder {
    type V = RecordBuilderView;

    closed spec fn view(&self) -> RecordBuilderView {
        RecordBuilderView {
            name: match self.name {
                Some(n) => Some(n@),
                None => None,
            },
            opt1: self.opt1,
            opt2: self.opt2,
        }
    }
}

impl Default for ApproachEBuilder {
    /// A fresh builder: no field set yet.
    fn default() -> (r: ApproachEBuilder)
        ensures
            r@ == (RecordBuilderView { name: None, opt1: None, opt2: None }),
    {
        ApproachEBuilder { name: None, opt1: None, opt2: None }
    }
}

impl ApproachEBuilder {
    /// Supply the required identifier.
    pub fn name(self, value: &str) -> (r: ApproachEBuilder)
        ensures
            r@ == (RecordBuilderView { name: Some(value@), ..self@ }),
    {
        ApproachEBuilder { name: Some(String::from_str(value)), ..self }
    }

    /// Supply the first optional argument.
    pub fn opt1(self, value: u32) -> (r: ApproachEBuilder)
        ensures
            r@ == (RecordBuilderView { opt1: Some(value), ..self@ }),
    {
        ApproachEBuilder { opt1: Some(value), ..self }
    }

    /// Supply the second optional argument.
    pub fn opt2(self, value: i32) -> (r: ApproachEBuilder)
        ensures
            r@ == (RecordBuilderView { opt2: Some(value), ..self@ }),
    {
        ApproachEBuilder { opt2: Some(value), ..self }
    }

    /// Finalize the intermediate record; fails exactly when the identifier
    /// was never supplied.
    fn build(&self) -> (r: Result<ApproachE, ApiError>)
        ensures
            finalize_record(self@) matches Ok(a) ==> (r matches Ok(d) && d@ == a),
            finalize_record(self@) matches Err(e) ==> r == Err::<ApproachE, ApiError>(e),
    {
        match &self.name {
            Some(n) => Ok(ApproachE { name: n.clone(), opt1: self.opt1, opt2: self.opt2 }),
            None => Err(ApiError::Construction),
        }
    }

    /// Finalize and call in one operation: delegates to the invoker exactly
    /// when the identifier was supplied, and reports the construction error
    /// through the shared error channel otherwise.
    pub fn call(&self, client: &APIClient) -> (result: ReturnedValue)
        ensures
            finalize_record(self@) matches Ok(a) ==> (result matches Ok(v) && v@ == a),
            finalize_record(self@) matches Err(e) ==> result == Err::<Value, ApiError>(e),
    {
        match self.build() {
            Ok(data) => client.actual_endpoint(data.name.as_str(), data.opt1, data.opt2),
            Err(e) => Err(e),
        }
    }
}

/// Ghost state of the bound builder: whether the client handle and the
/// identifier are set, and the two optional arguments.
pub ghost struct FBuilderView {
    pub client_set: bool,
    pub name: Option<Seq<char>>,
    pub opt1: Option<u32>,
    pub opt2: Option<i32>,
}

/// The tuple a bound builder delivers when its terminal operation runs.
pub open spec fn f_delivery(b: FBuilderView) -> ArgsView
    recommends
        b.name is Some,
{
    canonical_args(b.name->0, b.opt1, b.opt2)
}

/// The record behind the bound builder, carrying the captured client handle.
/// Callers never see it: it exists between finalization and invocation.
pub struct ApproachF<'a> {
    client: Option<&'a APIClient>,
    pub name: String,
    pub opt1: Option<u32>,
    pub opt2: Option<i32>,
}

impl View for ApproachF<'_> {
    type V = ArgsView;

    closed spec fn view(&self) -> ArgsView {
        ArgsView { name: self.name@, opt1: self.opt1, opt2: self.opt2 }
    }
}

/// The bound builder: created through the client's factory method, which
/// pre-populates the client handle and the identifier, so the terminal
/// operation is guaranteed to succeed. Setters consume the builder and return
/// a new one; the builder is spent by its terminal operation.
pub struct ApproachFBuilder<'a> {
    client: Option<&'a APIClient>,
    name: Option<String>,
    opt1: Option<u32>,
    opt2: Option<i32>,
}

impl View for ApproachFBuilder<'_> {
    type V = FBuilderView;

    closed spec fn view(&self) -> FBuilderView {
        FBuilderView {
            client_set: self.client is Some,
            name: match self.name {
                Some(n) => Some(n@),
                None => None,
            },
            opt1: self.opt1,
            opt2: self.opt2,
        }
    }
}

impl Default for ApproachFBuilder<'_> {
    /// A fresh builder with neither client handle nor fields set. The only
    /// sanctioned construction path is the client's factory method, which
    /// sets both the handle and the identifier at once.
    fn default() -> (r: ApproachFBuilder<'static>)
        ensures
            r@ == (FBuilderView { client_set: false, name: None, opt1: None, opt2: None }),
    {
        ApproachFBuilder { client: None, name: None, opt1: None, opt2: None }
    }
}

impl<'a> ApproachFBuilder<'a> {
    /// Capture the non-owning client handle.
    pub(crate) fn client(self, value: &'a APIClient) -> (r: ApproachFBuilder<'a>)
        ensures
            r@ == (FBuilderView { client_set: true, ..self@ }),
    {
        ApproachFBuilder { client: Some(value), name: self.name, opt1: self.opt1, opt2: self.opt2 }
    }

    /// Supply the required identifier.
    pub fn name(self, value: &str) -> (r: ApproachFBuilder<'a>)
        ensures
            r@ == (FBuilderView { name: Some(value@), ..self@ }),
    {
        ApproachFBuilder {
            client: self.client,
            name: Some(String::from_str(value)),
            opt1: self.opt1,
            opt2: self.opt2,
        }
    }

    /// Supply the first optional argument.
    pub fn opt1(self, value: u32) -> (r: ApproachFBuilder<'a>)
        ensures
            r@ == (FBuilderView { opt1: Some(value), ..self@ }),
    {
        ApproachFBuilder {
            client: self.client,
            name: self.name,
            opt1: Some(value),
            opt2: self.opt2,
        }
    }

    /// Supply the second optional argument.
    pub fn opt2(self, value: i32) -> (r: ApproachFBuilder<'a>)
        ensures
            r@ == (FBuilderView { opt2: Some(value), ..self@ }),
    {
        ApproachFBuilder {
            client: self.client,
            name: self.name,
            opt1: self.opt1,
            opt2: Some(value),
        }
    }

    /// Finalize the intermediate record; fails exactly when the identifier
    /// was never supplied, and carries the captured client handle through.
    fn build(self) -> (r: Result<ApproachF<'a>, ApiError>)
        ensures
            self@.name matches Some(n) ==> (r matches Ok(d) && d@ == canonical_args(
                n,
                self@.opt1,
                self@.opt2,
            ) && d.client == self.client),
            self@.name is None ==> r == Err::<ApproachF<'a>, ApiError>(ApiError::Construction),
    {
        match self.name {
            Some(n) => Ok(
                ApproachF { client: self.client, name: n, opt1: self.opt1, opt2: self.opt2 },
            ),
            None => Err(ApiError::Construction),
        }
    }

    /// Finalize and invoke in one terminal operation. The sanctioned
    /// construction path — the client's factory method — guarantees the
    /// preconditions; violating them means the builder was constructed
    /// through a bypassed path, a programming error rather than an input.
    pub fn call(self) -> (result: ReturnedValue)
        requires
            self@.client_set,
            self@.name is Some,
        ensures
            result matches Ok(v) && v@ == f_delivery(self@),
    {
        match self.build() {
            Ok(data) => {
                let client = data.client.unwrap();
                client.actual_endpoint(data.name.as_str(), data.opt1, data.opt2)
            },
            Err(_) => unreached(),
        }
    }
}

/// Ghost state of the group builder: whether the client handle is set, and
/// the two shared optional arguments.
pub ghost struct GroupBuilderView {
    pub client_set: bool,
    pub opt1: Option<u32>,
    pub opt2: Option<i32>,
}

/// The tuple the full finishing operation delivers for a given identifier:
/// both shared optionals apply unmodified.
pub open spec fn g_delivery(b: GroupBuilderView, name: Seq<char>) -> ArgsView {
    canonical_args(name, b.opt1, b.opt2)
}

/// The tuple the restricted finishing operation delivers for a given
/// identifier: the first shared optional does not apply, only the second.
pub open spec fn h_delivery(b: GroupBuilderView, name: Seq<char>) -> ArgsView {
    canonical_args(name, None, b.opt2)
}

/// The shared-optional record behind the group builder, carrying the captured
/// client handle. Callers never see it: it exists between finalization and
/// invocation.
pub struct Group<'a> {
    client: Option<&'a APIClient>,
    pub opt1: Option<u32>,
    pub opt2: Option<i32>,
}

/// The group builder: created through the client's factory method, it
/// collects only the optionals shared by a family of calls; each finishing
/// operation supplies its own identifier and consumes the builder, so shared
/// state cannot be reused across two finishing calls.
pub struct GroupBuilder<'a> {
    client: Option<&'a APIClient>,
    opt1: Option<u32>,
    opt2: Option<i32>,
}

impl View for GroupBuilder<'_> {
    type V = GroupBuilderView;

    closed spec fn view(&self) -> GroupBuilderView {
        GroupBuilderView { client_set: self.client is Some, opt1: self.opt1, opt2: self.opt2 }
    }
}

impl Default for GroupBuilder<'_> {
    /// A fresh builder with neither client handle nor shared optionals set.
    /// The only sanctioned construction path is the client's factory method.
    fn default() -> (r: GroupBuilder<'static>)
        ensures
            r@ == (GroupBuilderView { client_set: false, opt1: None, opt2: None }),
    {
        GroupBuilder { client: None, opt1: None, opt2: None }
    }
}

impl<'a> GroupBuilder<'a> {
    /// Capture the non-owning client handle.
    pub(crate) fn client(self, value: &'a APIClient) -> (r: GroupBuilder<'a>)
        ensures
            r@ == (GroupBuilderView { client_set: true, ..self@ }),
    {
        GroupBuilder { client: Some(value), opt1: self.opt1, opt2: self.opt2 }
    }

    /// Supply the first shared optional argument.
    pub fn opt1(self, value: u32) -> (r: GroupBuilder<'a>)
        ensures
            r@ == (GroupBuilderView { opt1: Some(value), ..self@ }),
    {
        GroupBuilder { client: self.client, opt1: Some(value), opt2: self.opt2 }
    }

    /// Supply the second shared optional argument.
    pub fn opt2(self, value: i32) -> (r: GroupBuilder<'a>)
        ensures
            r@ == (GroupBuilderView { opt2: Some(value), ..self@ }),
    {
        GroupBuilder { client: self.client, opt1: self.opt1, opt2: Some(value) }
    }

    /// Finalize the shared state. The group has no required field, so
    /// finalization cannot fail; the captured client handle carries through.
    fn build(self) -> (r: Group<'a>)
        ensures
            r.client == self.client,
            r.opt1 == self@.opt1,
            r.opt2 == self@.opt2,
    {
        Group { client: self.client, opt1: self.opt1, opt2: self.opt2 }
    }

    /// The full finishing operation: calls the endpoint with the given
    /// identifier and both shared optionals unmodified, consuming the
    /// builder.
    pub fn approach_g(self, name: &str) -> (result: ReturnedValue)
        requires
            self@.client_set,
        ensures
            result matches Ok(v) && v@ == g_delivery(self@, name@),
    {
        let data = self.build();
        let client = data.client.unwrap();
        client.actual_endpoint(name, data.opt1, data.opt2)
    }

    /// The restricted finishing operation: the first shared optional cannot
    /// be honored here, so it must be absent — a caller that set it and then
    /// finishes through this operation has violated the usage contract, a
    /// programming error rather than routine input. Only the second shared
    /// optional applies.
    pub fn approach_h(self, name: &str) -> (result: ReturnedValue)
        requires
            self@.client_set,
            self@.opt1 is None,
        ensures
            result matches Ok(v) && v@ == h_delivery(self@, name@),
    {
        let data = self.build();
        let client = data.client.unwrap();
        client.actual_endpoint(name, None, data.opt2)
    }
}

} // verus!
