//! Laws that relate the construction styles: whatever style a caller picks,
//! the same logical arguments reach the invoker as the same canonical tuple,
//! and tuple equality depends on field values alone.

use vstd::prelude::*;

use crate::builders::{f_delivery, g_delivery, h_delivery, FBuilderView, GroupBuilderView};
use crate::convert::{IntoOptionI32, IntoOptionU32};
use crate::model::{canonical_args, finalize_record, ApiError, ArgsView, RecordBuilderView};

verus! {

/// Every construction style, given the same logical arguments, delivers the
/// same canonical tuple to the invoker: the convertible-into-optional style
/// normalizes to the very optionals the plain style passes; a record builder
/// whose identifier was supplied finalizes to the canonical tuple; the bound
/// builder and the group's full finishing operation deliver it as well; and
/// the restricted finishing operation agrees whenever the first optional is
/// absent — the only case in which it may be invoked.
pub proof fn lemma_styles_agree(name: Seq<char>, opt1: Option<u32>, opt2: Option<i32>)
    ensures
        opt1.option_spec() == opt1,
        opt2.option_spec() == opt2,
        opt1 matches Some(x) ==> x.option_spec() == opt1,
        opt2 matches Some(y) ==> y.option_spec() == opt2,
        finalize_record(RecordBuilderView { name: Some(name), opt1, opt2 }) == Ok::<
            ArgsView,
            ApiError,
        >(canonical_args(name, opt1, opt2)),
        f_delivery(FBuilderView { client_set: true, name: Some(name), opt1, opt2 })
            == canonical_args(name, opt1, opt2),
        g_delivery(GroupBuilderView { client_set: true, opt1, opt2 }, name) == canonical_args(
            name,
            opt1,
            opt2,
        ),
        opt1 is None ==> h_delivery(GroupBuilderView { client_set: true, opt1, opt2 }, name)
            == canonical_args(name, opt1, opt2),
{
}

/// Tuple equality is value equality: two argument tuples whose three fields
/// agree are equal, with no dependence on the identity of the records they
/// were resolved from.
pub proof fn lemma_tuple_value_equality(a: ArgsView, b: ArgsView)
    requires
        a.name == b.name,
        a.opt1 == b.opt1,
        a.opt2 == b.opt2,
    ensures
        a == b,
{
}

} // verus!
