use api_builders::api::APIClient;
use api_builders::builders::ApproachEBuilder;
use api_builders::model::{ApiError, ArgumentTuple, Value};
use api_builders::params::{ApproachC, ApproachDBuilder};

fn tuple(v: Value) -> ArgumentTuple {
    v.args
}

#[test]
fn all_styles_deliver_the_same_tuple_with_both_optionals_absent() {
    let api = APIClient {};
    let expected = ArgumentTuple { name: "same".to_string(), opt1: None, opt2: None };

    let a = tuple(api.approach_a("same", None, None).unwrap());
    let b = tuple(api.approach_b("same", None::<u32>, None::<i32>).unwrap());
    let c_record = ApproachC { name: "same".to_string(), opt1: None, opt2: None };
    let c = tuple(api.approach_c(&c_record).unwrap());
    let d_record = ApproachDBuilder::default().name("same").build().unwrap();
    let d = tuple(api.approach_d(&d_record).unwrap());
    let e = tuple(ApproachEBuilder::default().name("same").call(&api).unwrap());
    let f = tuple(api.approach_f("same").call().unwrap());
    let g = tuple(api.group().approach_g("same").unwrap());
    let h = tuple(api.group().approach_h("same").unwrap());

    assert_eq!(a, expected);
    assert_eq!(b, expected);
    assert_eq!(c, expected);
    assert_eq!(d, expected);
    assert_eq!(e, expected);
    assert_eq!(f, expected);
    assert_eq!(g, expected);
    assert_eq!(h, expected);
}

#[test]
fn all_full_styles_deliver_the_same_tuple_with_both_optionals_present() {
    let api = APIClient {};
    let expected = ArgumentTuple { name: "same".to_string(), opt1: Some(324), opt2: Some(-7) };

    let a = tuple(api.approach_a("same", Some(324), Some(-7)).unwrap());
    let b_bare = tuple(api.approach_b("same", 324u32, -7i32).unwrap());
    let b_explicit = tuple(api.approach_b("same", Some(324u32), Some(-7i32)).unwrap());
    let c_record = ApproachC { name: "same".to_string(), opt1: Some(324), opt2: Some(-7) };
    let c = tuple(api.approach_c(&c_record).unwrap());
    let d_record = ApproachDBuilder::default().name("same").opt1(324).opt2(-7).build().unwrap();
    let d = tuple(api.approach_d(&d_record).unwrap());
    let e = tuple(ApproachEBuilder::default().name("same").opt1(324).opt2(-7).call(&api).unwrap());
    let f = tuple(api.approach_f("same").opt1(324).opt2(-7).call().unwrap());
    let g = tuple(api.group().opt1(324).opt2(-7).approach_g("same").unwrap());

    assert_eq!(a, expected);
    assert_eq!(b_bare, expected);
    assert_eq!(b_explicit, expected);
    assert_eq!(c, expected);
    assert_eq!(d, expected);
    assert_eq!(e, expected);
    assert_eq!(f, expected);
    assert_eq!(g, expected);
}

#[test]
fn direct_adapters_keep_explicit_absence_and_bare_values() {
    let api = APIClient {};

    let absent = tuple(api.approach_a("direct", None, None).unwrap());
    assert_eq!(absent.opt1, None);
    assert_eq!(absent.opt2, None);

    let absent_b = tuple(api.approach_b("direct", None::<u32>, None::<i32>).unwrap());
    assert_eq!(absent_b.opt1, None);
    assert_eq!(absent_b.opt2, None);

    let present = tuple(api.approach_a("direct", Some(1), Some(2)).unwrap());
    assert_eq!(present.opt1, Some(1));
    assert_eq!(present.opt2, Some(2));

    let present_b = tuple(api.approach_b("direct", 1u32, 2i32).unwrap());
    assert_eq!(present_b.opt1, Some(1));
    assert_eq!(present_b.opt2, Some(2));
}

#[test]
fn validated_builder_without_identifier_is_a_construction_error() {
    let r = ApproachDBuilder::default().build();
    assert_eq!(r.unwrap_err(), ApiError::Construction);

    let r_with_optionals = ApproachDBuilder::default().opt1(5).opt2(-5).build();
    assert_eq!(r_with_optionals.unwrap_err(), ApiError::Construction);
}

#[test]
fn validated_builder_with_only_identifier_defaults_both_optionals() {
    let record = ApproachDBuilder::default().name("only-name").build().unwrap();
    assert_eq!(record.name, "only-name");
    assert_eq!(record.opt1, None);
    assert_eq!(record.opt2, None);
}

#[test]
fn fallible_builder_call_with_identifier_only_forwards_absent_optionals() {
    let api = APIClient {};
    let v = tuple(ApproachEBuilder::default().name("fallible").call(&api).unwrap());
    assert_eq!(v, ArgumentTuple { name: "fallible".to_string(), opt1: None, opt2: None });
}

#[test]
fn fallible_builder_call_without_identifier_is_a_construction_error() {
    let api = APIClient {};
    let r = ApproachEBuilder::default().opt1(9).call(&api);
    assert_eq!(r.unwrap_err(), ApiError::Construction);
}

#[test]
fn bound_builder_delivers_set_and_unset_optionals() {
    let api = APIClient {};

    let with_opt1 = tuple(api.approach_f("x").opt1(5).call().unwrap());
    assert_eq!(with_opt1, ArgumentTuple { name: "x".to_string(), opt1: Some(5), opt2: None });

    let bare = tuple(api.approach_f("x").call().unwrap());
    assert_eq!(bare, ArgumentTuple { name: "x".to_string(), opt1: None, opt2: None });
}

#[test]
fn restricted_finishing_operation_uses_only_the_second_optional() {
    let api = APIClient {};
    let v = tuple(api.group().opt2(7).approach_h("g").unwrap());
    assert_eq!(v, ArgumentTuple { name: "g".to_string(), opt1: None, opt2: Some(7) });
}

#[test]
fn full_finishing_operation_uses_both_shared_optionals() {
    let api = APIClient {};
    let v = tuple(api.group().opt1(324).opt2(2222).approach_g("grouped").unwrap());
    assert_eq!(v, ArgumentTuple { name: "grouped".to_string(), opt1: Some(324), opt2: Some(2222) });
}

#[test]
fn independently_built_records_with_equal_fields_give_equal_tuples() {
    let api = APIClient {};

    let first_record = ApproachDBuilder::default().name("twin").opt1(8).build().unwrap();
    let second_record = ApproachDBuilder::default().name("twin").opt1(8).build().unwrap();
    assert_eq!(first_record, second_record);

    let first = tuple(api.approach_d(&first_record).unwrap());
    let second = tuple(api.approach_d(&second_record).unwrap());
    assert_eq!(first, second);
}

#[test]
fn unvalidated_record_accepts_an_empty_identifier() {
    let api = APIClient {};
    let record = ApproachC { name: String::new(), opt1: None, opt2: Some(-1) };
    let v = tuple(api.approach_c(&record).unwrap());
    assert_eq!(v, ArgumentTuple { name: String::new(), opt1: None, opt2: Some(-1) });
}

#[test]
fn unvalidated_record_default_is_empty_identifier_and_absent_optionals() {
    let record = ApproachC::default();
    assert_eq!(record.name, "");
    assert_eq!(record.opt1, None);
    assert_eq!(record.opt2, None);
}
