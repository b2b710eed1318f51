use std::borrow::Cow;

use fluent::types::FluentNumber;
use fluent::types::FluentNumberOptions;
use fluent::FluentArgs;
use fluent::FluentValue;
use fluent_serde::ser::ArgsSerializer;
use fluent_serde::ser::Error;
use fluent_serde::ser::Value;
use fluent_serde::ser::ValueSerializer;

fn fluent_number(value: f64) -> FluentValue<'static> {
    FluentValue::Number(FluentNumber::new(value, FluentNumberOptions::default()))
}

fn fluent_string(text: &str) -> FluentValue<'static> {
    FluentValue::String(Cow::Owned(text.to_string()))
}

fn key(text: &str) -> Result<Value, Error> {
    ValueSerializer::new().serialize_str(text)
}

fn names(args: &FluentArgs<'static>) -> Vec<String> {
    args.iter().map(|(k, _)| k.to_string()).collect()
}

#[test]
fn new_serializer_has_no_arguments() {
    let args = ArgsSerializer::new().done();
    assert_eq!(args.iter().count(), 0);
}

#[test]
fn default_serializer_has_no_arguments() {
    let args = ArgsSerializer::default().done();
    assert_eq!(args.iter().count(), 0);
}

#[test]
fn two_maps_merge_into_the_same_arguments() {
    let mut ser = ArgsSerializer::new();
    {
        let mut map = ser.serialize_map(Some(1)).unwrap();
        assert_eq!(map.serialize_key(key("foo")), Ok(()));
        assert_eq!(map.serialize_value(ValueSerializer::new().serialize_i32(42)), Ok(()));
        assert_eq!(map.end(), Ok(()));
    }
    {
        let mut map = ser.serialize_map(Some(1)).unwrap();
        assert_eq!(map.serialize_key(key("bar")), Ok(()));
        assert_eq!(map.serialize_value(ValueSerializer::new().serialize_str("baz")), Ok(()));
        assert_eq!(map.end(), Ok(()));
    }
    let args = ser.done();
    assert_eq!(args.get("foo"), Some(&fluent_number(42.0)));
    assert_eq!(args.get("bar"), Some(&fluent_string("baz")));
    assert_eq!(args.iter().count(), 2);
}

#[test]
fn struct_field_becomes_an_argument() {
    let mut ser = ArgsSerializer::new();
    {
        let mut fields = ser.serialize_struct("Foo", 1).unwrap();
        assert_eq!(
            fields.serialize_field("foo", ValueSerializer::new().serialize_i32(42)),
            Ok(())
        );
        assert_eq!(fields.end(), Ok(()));
    }
    let args = ser.done();
    assert_eq!(args.get("foo"), Some(&fluent_number(42.0)));
    assert_eq!(names(&args), vec!["foo".to_string()]);
}

#[test]
fn two_structs_merge_into_the_same_arguments() {
    let mut ser = ArgsSerializer::new();
    {
        let mut fields = ser.serialize_struct("Foo", 1).unwrap();
        fields.serialize_field("foo", ValueSerializer::new().serialize_i32(42)).unwrap();
        fields.end().unwrap();
    }
    {
        let mut fields = ser.serialize_struct("Bar", 1).unwrap();
        fields.serialize_field("bar", ValueSerializer::new().serialize_str("bar")).unwrap();
        fields.end().unwrap();
    }
    let args = ser.done();
    assert_eq!(args.get("foo"), Some(&fluent_number(42.0)));
    assert_eq!(args.get("bar"), Some(&fluent_string("bar")));
}

#[test]
fn struct_variant_fields_become_arguments() {
    let mut ser = ArgsSerializer::new();
    {
        let mut fields = ser.serialize_struct_variant("Shape", 1, "Rect", 2).unwrap();
        assert_eq!(
            fields.serialize_field("width", ValueSerializer::new().serialize_u8(3)),
            Ok(())
        );
        assert_eq!(
            fields.serialize_field("height", ValueSerializer::new().serialize_u8(4)),
            Ok(())
        );
        assert_eq!(fields.end(), Ok(()));
    }
    let args = ser.done();
    assert_eq!(args.get("width"), Some(&fluent_number(3.0)));
    assert_eq!(args.get("height"), Some(&fluent_number(4.0)));
    assert_eq!(args.iter().count(), 2);
}

#[test]
fn absent_value_is_stored_as_none() {
    let mut ser = ArgsSerializer::new();
    {
        let mut fields = ser.serialize_struct("Foo", 1).unwrap();
        fields.serialize_field("gone", ValueSerializer::new().serialize_none()).unwrap();
        fields.end().unwrap();
    }
    let args = ser.done();
    assert!(matches!(args.iter().next(), Some(("gone", FluentValue::None))));
}

#[test]
fn float_value_is_stored_as_it_was_given() {
    let mut ser = ArgsSerializer::new();
    {
        let mut fields = ser.serialize_struct("Foo", 1).unwrap();
        let value = ValueSerializer::new().serialize_f64(FluentNumber::from(2.5f64));
        fields.serialize_field("ratio", value).unwrap();
        fields.end().unwrap();
    }
    assert_eq!(ser.done().get("ratio"), Some(&fluent_number(2.5)));
}

#[test]
fn two_keys_in_a_row_are_an_invalid_sequence() {
    let mut ser = ArgsSerializer::new();
    let mut map = ser.serialize_map(None).unwrap();
    assert_eq!(map.serialize_key(key("first")), Ok(()));
    assert_eq!(map.serialize_key(key("second")), Err(Error::InvalidSerMap));
}

#[test]
fn second_key_replaces_the_pending_one() {
    let mut ser = ArgsSerializer::new();
    {
        let mut map = ser.serialize_map(None).unwrap();
        assert_eq!(map.serialize_key(key("first")), Ok(()));
        assert_eq!(map.serialize_key(key("second")), Err(Error::InvalidSerMap));
        assert_eq!(map.serialize_value(ValueSerializer::new().serialize_u8(1)), Ok(()));
        assert_eq!(map.end(), Ok(()));
    }
    let args = ser.done();
    assert_eq!(args.get("second"), Some(&fluent_number(1.0)));
    assert_eq!(args.get("first"), None);
}

#[test]
fn ending_with_a_pending_key_is_an_invalid_sequence() {
    let mut ser = ArgsSerializer::new();
    {
        let mut map = ser.serialize_map(Some(1)).unwrap();
        assert_eq!(map.serialize_key(key("foo")), Ok(()));
        assert_eq!(map.end(), Err(Error::InvalidSerMap));
    }
    assert_eq!(ser.done().iter().count(), 0);
}

#[test]
fn ending_an_empty_map_succeeds() {
    let mut ser = ArgsSerializer::new();
    assert_eq!(ser.serialize_map(Some(0)).unwrap().end(), Ok(()));
    assert_eq!(ser.done().iter().count(), 0);
}

#[test]
fn value_without_a_key_is_an_invalid_sequence() {
    let mut ser = ArgsSerializer::new();
    {
        let mut map = ser.serialize_map(None).unwrap();
        assert_eq!(
            map.serialize_value(ValueSerializer::new().serialize_i32(1)),
            Err(Error::InvalidSerMap)
        );
        assert_eq!(map.serialize_value(Err(Error::NonUtf8Bytes)), Err(Error::InvalidSerMap));
        assert_eq!(map.end(), Ok(()));
    }
    assert_eq!(ser.done().iter().count(), 0);
}

#[test]
fn two_values_in_a_row_are_an_invalid_sequence() {
    let mut ser = ArgsSerializer::new();
    {
        let mut map = ser.serialize_map(None).unwrap();
        map.serialize_key(key("foo")).unwrap();
        assert_eq!(map.serialize_value(ValueSerializer::new().serialize_i32(1)), Ok(()));
        assert_eq!(
            map.serialize_value(ValueSerializer::new().serialize_i32(2)),
            Err(Error::InvalidSerMap)
        );
    }
    assert_eq!(ser.done().get("foo"), Some(&fluent_number(1.0)));
}

#[test]
fn number_key_is_unsupported() {
    let mut ser = ArgsSerializer::new();
    let mut map = ser.serialize_map(None).unwrap();
    assert_eq!(
        map.serialize_key(ValueSerializer::new().serialize_i32(1)),
        Err(Error::UnsupportedType)
    );
    assert_eq!(map.end(), Ok(()));
}

#[test]
fn absent_key_is_unsupported() {
    let mut ser = ArgsSerializer::new();
    let mut map = ser.serialize_map(None).unwrap();
    assert_eq!(
        map.serialize_key(ValueSerializer::new().serialize_unit()),
        Err(Error::UnsupportedType)
    );
}

#[test]
fn unsupported_key_leaves_the_pending_key_in_place() {
    let mut ser = ArgsSerializer::new();
    {
        let mut map = ser.serialize_map(None).unwrap();
        map.serialize_key(key("kept")).unwrap();
        assert_eq!(
            map.serialize_key(ValueSerializer::new().serialize_bool(true)),
            Err(Error::UnsupportedType)
        );
        assert_eq!(map.serialize_value(ValueSerializer::new().serialize_u8(5)), Ok(()));
    }
    assert_eq!(ser.done().get("kept"), Some(&fluent_number(5.0)));
}

#[test]
fn key_conversion_error_is_passed_on() {
    let mut ser = ArgsSerializer::new();
    let mut map = ser.serialize_map(None).unwrap();
    assert_eq!(
        map.serialize_key(ValueSerializer::new().serialize_bytes(&[0xFF])),
        Err(Error::NonUtf8Bytes)
    );
    assert_eq!(
        map.serialize_key(Err(Error::custom("bad key".to_string()))),
        Err(Error::Custom("bad key".to_string()))
    );
    assert_eq!(map.end(), Ok(()));
}

#[test]
fn character_and_unit_struct_keys_are_strings() {
    let mut ser = ArgsSerializer::new();
    {
        let mut map = ser.serialize_map(None).unwrap();
        map.serialize_key(ValueSerializer::new().serialize_char('x')).unwrap();
        map.serialize_value(ValueSerializer::new().serialize_u8(1)).unwrap();
        map.serialize_key(ValueSerializer::new().serialize_unit_struct("Marker")).unwrap();
        map.serialize_value(ValueSerializer::new().serialize_u8(2)).unwrap();
        map.serialize_key(ValueSerializer::new().serialize_bytes(&[102, 111, 111])).unwrap();
        map.serialize_value(ValueSerializer::new().serialize_u8(3)).unwrap();
        map.end().unwrap();
    }
    let args = ser.done();
    assert_eq!(args.get("x"), Some(&fluent_number(1.0)));
    assert_eq!(args.get("Marker"), Some(&fluent_number(2.0)));
    assert_eq!(args.get("foo"), Some(&fluent_number(3.0)));
}

#[test]
fn value_conversion_error_is_passed_on_and_uses_up_the_key() {
    let mut ser = ArgsSerializer::new();
    {
        let mut map = ser.serialize_map(None).unwrap();
        map.serialize_key(key("foo")).unwrap();
        assert!(matches!(
            map.serialize_value(Err(Error::UnsupportedType)),
            Err(Error::UnsupportedType)
        ));
        assert_eq!(map.end(), Ok(()));
    }
    assert_eq!(ser.done().iter().count(), 0);
}

#[test]
fn same_key_twice_keeps_the_last_value() {
    let mut ser = ArgsSerializer::new();
    {
        let mut map = ser.serialize_map(None).unwrap();
        map.serialize_key(key("foo")).unwrap();
        map.serialize_value(ValueSerializer::new().serialize_i32(1)).unwrap();
        map.serialize_key(key("foo")).unwrap();
        map.serialize_value(ValueSerializer::new().serialize_str("two")).unwrap();
        map.end().unwrap();
    }
    let args = ser.done();
    assert_eq!(args.get("foo"), Some(&fluent_string("two")));
    assert_eq!(names(&args), vec!["foo".to_string()]);
}

#[test]
fn later_struct_overwrites_the_field_of_an_earlier_one() {
    let mut ser = ArgsSerializer::new();
    {
        let mut fields = ser.serialize_struct("First", 2).unwrap();
        fields.serialize_field("shared", ValueSerializer::new().serialize_i32(1)).unwrap();
        fields.serialize_field("own", ValueSerializer::new().serialize_i32(2)).unwrap();
        fields.end().unwrap();
    }
    {
        let mut fields = ser.serialize_struct("Second", 1).unwrap();
        fields.serialize_field("shared", ValueSerializer::new().serialize_i32(3)).unwrap();
        fields.end().unwrap();
    }
    let args = ser.done();
    assert_eq!(args.get("shared"), Some(&fluent_number(3.0)));
    assert_eq!(args.get("own"), Some(&fluent_number(2.0)));
    assert_eq!(args.iter().count(), 2);
}

#[test]
fn failed_field_keeps_the_earlier_fields() {
    let mut ser = ArgsSerializer::new();
    {
        let mut fields = ser.serialize_struct("Foo", 2).unwrap();
        assert_eq!(
            fields.serialize_field("good", ValueSerializer::new().serialize_i32(1)),
            Ok(())
        );
        assert!(matches!(
            fields.serialize_field("bad", Err(Error::UnsupportedType)),
            Err(Error::UnsupportedType)
        ));
    }
    let args = ser.done();
    assert_eq!(args.get("good"), Some(&fluent_number(1.0)));
    assert_eq!(args.get("bad"), None);
}

#[test]
fn failed_variant_field_is_passed_on() {
    let mut ser = ArgsSerializer::new();
    {
        let mut fields = ser.serialize_struct_variant("E", 0, "V", 1).unwrap();
        assert_eq!(
            fields.serialize_field("bytes", ValueSerializer::new().serialize_bytes(&[0x80])),
            Err(Error::NonUtf8Bytes)
        );
        assert_eq!(fields.end(), Ok(()));
    }
    assert_eq!(ser.done().iter().count(), 0);
}

#[test]
fn existing_arguments_are_kept_and_extended() {
    let mut existing = FluentArgs::new();
    existing.set("old", "value");
    existing.set("count", 1);
    let mut ser = ArgsSerializer::from_existing(existing);
    {
        let mut fields = ser.serialize_struct("Foo", 2).unwrap();
        fields.serialize_field("count", ValueSerializer::new().serialize_i32(2)).unwrap();
        fields.serialize_field("new", ValueSerializer::new().serialize_bool(true)).unwrap();
        fields.end().unwrap();
    }
    let args = ser.done();
    assert_eq!(args.get("old"), Some(&fluent_string("value")));
    assert_eq!(args.get("count"), Some(&fluent_number(2.0)));
    assert_eq!(args.get("new"), Some(&fluent_number(1.0)));
    assert_eq!(args.iter().count(), 3);
}

#[test]
fn from_fluent_args_keeps_the_arguments() {
    let mut existing = FluentArgs::new();
    existing.set("old", "value");
    let ser = ArgsSerializer::from(existing);
    let args = ser.done();
    assert_eq!(args.get("old"), Some(&fluent_string("value")));
    assert_eq!(args.iter().count(), 1);
}

#[test]
fn scalars_at_the_top_level_are_unsupported() {
    let mut ser = ArgsSerializer::new();
    assert_eq!(ser.serialize_bool(true), Err(Error::UnsupportedType));
    assert_eq!(ser.serialize_i8(1), Err(Error::UnsupportedType));
    assert_eq!(ser.serialize_i16(1), Err(Error::UnsupportedType));
    assert_eq!(ser.serialize_i32(1), Err(Error::UnsupportedType));
    assert_eq!(ser.serialize_i64(1), Err(Error::UnsupportedType));
    assert_eq!(ser.serialize_i128(1), Err(Error::UnsupportedType));
    assert_eq!(ser.serialize_u8(1), Err(Error::UnsupportedType));
    assert_eq!(ser.serialize_u16(1), Err(Error::UnsupportedType));
    assert_eq!(ser.serialize_u32(1), Err(Error::UnsupportedType));
    assert_eq!(ser.serialize_u64(1), Err(Error::UnsupportedType));
    assert_eq!(ser.serialize_u128(1), Err(Error::UnsupportedType));
    assert_eq!(ser.serialize_f32(FluentNumber::from(1.0f32)), Err(Error::UnsupportedType));
    assert_eq!(ser.serialize_f64(FluentNumber::from(1.0f64)), Err(Error::UnsupportedType));
    assert_eq!(ser.serialize_char('c'), Err(Error::UnsupportedType));
    assert_eq!(ser.serialize_str("text"), Err(Error::UnsupportedType));
    assert_eq!(ser.serialize_bytes(&[102, 111, 111]), Err(Error::UnsupportedType));
    assert_eq!(ser.done().iter().count(), 0);
}

#[test]
fn sequences_and_tuples_at_the_top_level_are_unsupported() {
    let mut ser = ArgsSerializer::new();
    assert!(matches!(ser.serialize_seq(Some(3)), Err(Error::UnsupportedType)));
    assert!(matches!(ser.serialize_tuple(2), Err(Error::UnsupportedType)));
    assert!(matches!(ser.serialize_tuple_struct("Pair", 2), Err(Error::UnsupportedType)));
    assert!(matches!(
        ser.serialize_tuple_variant("Enum", 0, "Pair", 2),
        Err(Error::UnsupportedType)
    ));
    assert_eq!(ser.done().iter().count(), 0);
}

#[test]
fn absent_and_unit_shapes_add_nothing() {
    let mut existing = FluentArgs::new();
    existing.set("old", "value");
    let mut ser = ArgsSerializer::from_existing(existing);
    assert_eq!(ser.serialize_none(), Ok(()));
    assert_eq!(ser.serialize_unit(), Ok(()));
    assert_eq!(ser.serialize_unit_struct("Marker"), Ok(()));
    assert_eq!(ser.serialize_unit_variant("Enum", 0, "Marker"), Ok(()));
    assert_eq!(names(&ser.done()), vec!["old".to_string()]);
}

#[test]
fn wrappers_pass_the_inner_outcome_through() {
    let mut ser = ArgsSerializer::new();
    assert_eq!(ser.serialize_some(Ok(())), Ok(()));
    assert_eq!(ser.serialize_some(Err(Error::UnsupportedType)), Err(Error::UnsupportedType));
    assert_eq!(ser.serialize_newtype_struct("Wrapper", Ok(())), Ok(()));
    assert_eq!(
        ser.serialize_newtype_struct("Wrapper", Err(Error::InvalidSerMap)),
        Err(Error::InvalidSerMap)
    );
    assert_eq!(ser.serialize_newtype_variant("Enum", 0, "Wrapped", Ok(())), Ok(()));
    assert_eq!(
        ser.serialize_newtype_variant("Enum", 0, "Wrapped", Err(Error::NonUtf8Bytes)),
        Err(Error::NonUtf8Bytes)
    );
}

#[test]
fn option_of_a_struct_merges_the_struct() {
    let mut ser = ArgsSerializer::new();
    let inner = {
        let mut fields = ser.serialize_struct("Foo", 1).unwrap();
        fields.serialize_field("foo", ValueSerializer::new().serialize_i32(42)).unwrap();
        fields.end()
    };
    assert_eq!(ser.serialize_some(inner), Ok(()));
    assert_eq!(ser.done().get("foo"), Some(&fluent_number(42.0)));
}

#[test]
fn arguments_come_out_ordered_by_name() {
    let mut ser = ArgsSerializer::new();
    {
        let mut fields = ser.serialize_struct("Foo", 3).unwrap();
        fields.serialize_field("b", ValueSerializer::new().serialize_u8(2)).unwrap();
        fields.serialize_field("c", ValueSerializer::new().serialize_u8(3)).unwrap();
        fields.serialize_field("a", ValueSerializer::new().serialize_u8(1)).unwrap();
        fields.end().unwrap();
    }
    assert_eq!(
        names(&ser.done()),
        vec!["a".to_string(), "b".to_string(), "c".to_string()]
    );
}
