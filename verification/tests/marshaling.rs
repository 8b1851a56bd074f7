use hoo_engine::hoo_meta::basic_types::{
    try_from_coerced, try_from_truthiness, try_unit_from, JsPrimitive,
};
use hoo_engine::hoo_meta::calls::{
    check_argument_count, complete_call, field_or_error, object_or_error, CallOutcome,
};
use hoo_engine::hoo_meta::compound_types::get_js_value_of_result;
use hoo_engine::hoo_meta::objects::{
    get_external_internal_value_from_js_object, register_object_enabling_bigc, unregister_object,
    InternalField, JsObjectReading, Registry,
};
use hoo_engine::hoo_meta::text::to_decimal;
use hoo_engine::hoo_meta::types::{JsException, TryFromJsValueError};
use hoo_engine::hoo_object::{ObjectId, RcObject};

#[derive(Debug, PartialEq)]
struct Pair {
    x: i32,
    y: i32,
}

fn import_pair(object: Option<Vec<(&'static str, i32)>>) -> Result<Pair, TryFromJsValueError> {
    let object = object_or_error(object)?;
    let find = |name: &str| object.iter().find(|(key, _)| *key == name).map(|(_, v)| *v);
    let x = try_from_coerced(JsPrimitive::Int32, Some(field_or_error("x", find("x"))?))?;
    let y = try_from_coerced(JsPrimitive::Int32, Some(field_or_error("y", find("y"))?))?;
    Ok(Pair { x, y })
}

fn proxy_of(slot: usize) -> Option<JsObjectReading> {
    Some(JsObjectReading { internal_fields: vec![InternalField::External(slot)] })
}

#[test]
fn decimal_numerals() {
    assert_eq!(to_decimal(0), "0");
    assert_eq!(to_decimal(7), "7");
    assert_eq!(to_decimal(10), "10");
    assert_eq!(to_decimal(109), "109");
    assert_eq!(to_decimal(1234567890), "1234567890");
    assert_eq!(to_decimal(usize::MAX), format!("{}", usize::MAX));
}

#[test]
fn errors_carry_their_message() {
    assert_eq!(TryFromJsValueError::new("not a i32").error_message(), "not a i32");
    assert_eq!(TryFromJsValueError::new("").error_message(), "");
    assert_eq!(JsException::new("a or b is not positive").error_message(), "a or b is not positive");
}

#[test]
fn primitive_import_keeps_a_coerced_value() {
    assert_eq!(try_from_coerced(JsPrimitive::Int32, Some(-3i32)).unwrap(), -3);
    assert_eq!(try_from_coerced(JsPrimitive::Uint32, Some(3u32)).unwrap(), 3);
    assert_eq!(try_from_coerced(JsPrimitive::Int64, Some(1i64 << 40)).unwrap(), 1i64 << 40);
    assert_eq!(try_from_coerced(JsPrimitive::Float64, Some(0.5f64)).unwrap(), 0.5);
    assert_eq!(try_from_coerced(JsPrimitive::Float32, Some(0.25f32)).unwrap(), 0.25);
    assert_eq!(try_from_coerced(JsPrimitive::Text, Some(String::from("hi"))).unwrap(), "hi");
    assert_eq!(try_from_truthiness(true).unwrap(), true);
    assert_eq!(try_from_truthiness(false).unwrap(), false);
    assert!(try_unit_from(true).is_ok());
}

#[test]
fn primitive_import_names_the_expected_kind() {
    let message = |kind| try_from_coerced::<i32>(kind, None).unwrap_err().error_message();
    assert_eq!(message(JsPrimitive::Int32), "not a i32");
    assert_eq!(message(JsPrimitive::Uint32), "not a u32");
    assert_eq!(message(JsPrimitive::Int64), "not a i64");
    assert_eq!(message(JsPrimitive::Float32), "not a f32");
    assert_eq!(message(JsPrimitive::Float64), "not a f64");
    assert_eq!(message(JsPrimitive::Text), "not a string");
    assert_eq!(try_unit_from(false).unwrap_err().error_message(), "not null or undefined");
}

#[test]
fn result_export_raises_the_failure_text() {
    assert_eq!(get_js_value_of_result(Ok::<i32, String>(3)).unwrap(), 3);
    let raised = get_js_value_of_result(Err::<i32, String>(String::from("a or b is not positive")));
    assert_eq!(raised.unwrap_err().error_message(), "a or b is not positive");
}

#[test]
fn argument_count_of_functions_and_methods() {
    assert!(check_argument_count(2, 2, false).is_ok());
    assert!(check_argument_count(0, 0, false).is_ok());
    assert!(check_argument_count(1, 2, true).is_ok());
    assert!(check_argument_count(0, 1, true).is_ok());
    for (given, declared, is_method) in [(1, 2, false), (3, 2, false), (2, 2, true), (-1, 0, false), (0, 0, true)] {
        assert_eq!(
            check_argument_count(given, declared, is_method).unwrap_err().error_message(),
            "incorrect number of arguments"
        );
    }
    assert!(check_argument_count(i32::MAX, i32::MAX as u32, false).is_ok());
    assert!(check_argument_count(i32::MAX, u32::MAX, false).is_err());
}

#[test]
fn value_type_import_reads_every_declared_field() {
    assert_eq!(import_pair(Some(vec![("x", 1), ("y", 2)])).unwrap(), Pair { x: 1, y: 2 });
    assert_eq!(import_pair(Some(vec![("y", 2), ("z", 0), ("x", 1)])).unwrap(), Pair { x: 1, y: 2 });
}

#[test]
fn value_type_import_names_the_missing_field() {
    let error = import_pair(Some(vec![("x", 1)])).unwrap_err();
    assert_eq!(error.error_message(), "field does not exist: y");
    assert!(error.error_message().contains("y"));

    let error = import_pair(Some(vec![])).unwrap_err();
    assert_eq!(error.error_message(), "field does not exist: x");

    let error = import_pair(None).unwrap_err();
    assert_eq!(error.error_message(), "not an object");
}

#[test]
fn call_returns_or_throws() {
    match complete_call(Ok(Ok(2i32))) {
        CallOutcome::Return(value) => assert_eq!(value, 2),
        CallOutcome::Throw(msg) => panic!("threw {}", msg),
    }
    match complete_call::<i32>(Ok(Err(JsException::new("a or b is not positive")))) {
        CallOutcome::Return(_) => panic!("returned"),
        CallOutcome::Throw(msg) => assert_eq!(msg, "a or b is not positive"),
    }
    match complete_call::<i32>(Err(TryFromJsValueError::new("incorrect number of arguments"))) {
        CallOutcome::Return(_) => panic!("returned"),
        CallOutcome::Throw(msg) => assert_eq!(msg, "incorrect number of arguments"),
    }
}

#[test]
fn internal_field_reading() {
    let object = JsObjectReading {
        internal_fields: vec![InternalField::External(64), InternalField::Other],
    };
    assert_eq!(get_external_internal_value_from_js_object(&object, 0).unwrap(), 64);
    assert_eq!(
        get_external_internal_value_from_js_object(&object, 1).unwrap_err().error_message(),
        "internal field 1 is not external"
    );
    assert_eq!(
        get_external_internal_value_from_js_object(&object, 2).unwrap_err().error_message(),
        "no internal field 2"
    );
    assert_eq!(
        get_external_internal_value_from_js_object(&object, 12).unwrap_err().error_message(),
        "no internal field 12"
    );
}

#[test]
fn handle_import_succeeds_for_a_registered_proxy() {
    let mut registry: Registry<u32> = Registry::new();
    let pair = RcObject::new(Pair { x: 1, y: 2 });
    let slot = register_object_enabling_bigc(&mut registry, pair.clone().into_any(), 0);
    let imported = RcObject::<Pair>::try_from_js_value(&registry, &proxy_of(slot)).unwrap();
    assert_eq!(imported.id(), pair.id());
    assert_eq!(imported, pair);
    assert_eq!(*imported.borrow(), Pair { x: 1, y: 2 });
}

#[test]
fn handle_import_rejects_what_is_no_proxy() {
    let mut registry: Registry<u32> = Registry::new();
    let pair = RcObject::new(Pair { x: 1, y: 2 });
    let slot = register_object_enabling_bigc(&mut registry, pair.clone().into_any(), 0);
    let message = |val: Option<JsObjectReading>| {
        RcObject::<Pair>::try_from_js_value(&registry, &val).unwrap_err().error_message()
    };

    assert_eq!(message(None), "not a object");
    assert_eq!(
        message(Some(JsObjectReading { internal_fields: vec![] })),
        "internal_field_count != 1, got 0"
    );
    assert_eq!(
        message(Some(JsObjectReading {
            internal_fields: vec![InternalField::External(slot), InternalField::External(slot)],
        })),
        "internal_field_count != 1, got 2"
    );
    assert_eq!(
        message(Some(JsObjectReading { internal_fields: vec![InternalField::Other] })),
        "internal field 0 is not external"
    );
}

#[test]
fn handle_import_names_the_identity_it_could_not_use() {
    let mut registry: Registry<u32> = Registry::new();
    let pair = RcObject::new(Pair { x: 1, y: 2 });
    let slot = register_object_enabling_bigc(&mut registry, pair.clone().into_any(), 0);

    let wrong_type = RcObject::<String>::try_from_js_value(&registry, &proxy_of(slot)).unwrap_err();
    assert_eq!(
        wrong_type.error_message(),
        format!("downcast to RcObject<T> failed, obj_id: {:?}", pair.id())
    );
    assert_eq!(
        wrong_type.error_message(),
        format!("downcast to RcObject<T> failed, obj_id: ObjectId {{ id: {} }}", slot)
    );

    let stranger = RcObject::<Pair>::try_from_js_value(&registry, &proxy_of(24)).unwrap_err();
    assert_eq!(stranger.error_message(), "no object with id ObjectId { id: 24 }");
    assert_eq!(
        stranger.error_message(),
        format!("no object with id {:?}", ObjectId::from_ptr(24))
    );

    unregister_object(&mut registry, pair.id());
    let gone = RcObject::<Pair>::try_from_js_value(&registry, &proxy_of(slot)).unwrap_err();
    assert_eq!(gone.error_message(), format!("no object with id {:?}", pair.id()));
}

#[test]
fn failed_import_leaves_the_registry_as_it_was() {
    let mut registry: Registry<u32> = Registry::new();
    let pair = RcObject::new(Pair { x: 1, y: 2 });
    let slot = register_object_enabling_bigc(&mut registry, pair.clone().into_any(), 5);
    assert!(RcObject::<String>::try_from_js_value(&registry, &proxy_of(slot)).is_err());
    assert!(RcObject::<Pair>::try_from_js_value(&registry, &None).is_err());
    assert_eq!(pair.get_js_value(&registry), Some(&5));
    assert!(RcObject::<Pair>::try_from_js_value(&registry, &proxy_of(slot)).is_ok());
}
