use ext_php_rs::bindings::{ZendObject, ZendResource};
use ext_php_rs::php::types::array::ZendHashTable;
use ext_php_rs::php::types::long::ZendLong;
use ext_php_rs::php::types::string::{StringStorage, ZendString};
use ext_php_rs::php::types::zval::{DoubleValue, StringValue, Zval};

fn one_of_each() -> Vec<Zval> {
    vec![
        Zval::Null,
        Zval::True,
        Zval::False,
        Zval::Long(-3),
        Zval::Double(0x3ff8_0000_0000_0000),
        Zval::String(ZendString::new("text", false)),
        Zval::Array(ZendHashTable(0x100)),
        Zval::Object(ZendObject(0x200)),
        Zval::Resource(ZendResource(0x300)),
        Zval::Reference(Box::new(Zval::Long(9))),
        Zval::Callable,
    ]
}

fn types_of(zv: &Zval) -> Vec<bool> {
    vec![
        zv.is_null(),
        zv.is_true(),
        zv.is_false(),
        zv.is_long(),
        zv.is_double(),
        zv.is_string(),
        zv.is_array(),
        zv.is_object(),
        zv.is_resource(),
        zv.is_reference(),
    ]
}

#[test]
fn a_new_zval_is_null() {
    let zv = Zval::new();
    assert!(zv.is_null());
    assert_eq!(zv, Zval::Null);
}

#[test]
fn a_zval_is_of_exactly_one_type() {
    let all = one_of_each();
    for (position, zv) in all.iter().enumerate().take(10) {
        let types = types_of(zv);
        for (index, is) in types.iter().enumerate() {
            assert_eq!(*is, index == position);
        }
    }
}

#[test]
fn the_mark_of_a_callable_is_of_no_type() {
    assert!(types_of(&Zval::Callable).iter().all(|is| !is));
    assert!(!Zval::Callable.is_bool());
    assert_eq!(Zval::Callable.long(), None);
    assert_eq!(Zval::Callable.bool(), None);
    assert_eq!(Zval::Callable.double(), None);
    assert_eq!(Zval::Callable.string(), None);
    assert_eq!(Zval::Callable.resource(), None);
    assert_eq!(Zval::Callable.array(), None);
    assert_eq!(Zval::Callable.object(), None);
    assert_eq!(Zval::Callable.reference(), None);
}

#[test]
fn is_bool_holds_of_true_and_false_only() {
    for zv in one_of_each() {
        assert_eq!(zv.is_bool(), zv.is_true() || zv.is_false());
    }
    assert!(Zval::True.is_bool());
    assert!(Zval::False.is_bool());
    assert!(!Zval::Null.is_bool());
    assert!(!Zval::Long(1).is_bool());
}

#[test]
fn readers_return_a_value_where_the_type_is_theirs() {
    for zv in one_of_each() {
        assert_eq!(zv.long().is_some(), zv.is_long());
        assert_eq!(zv.bool().is_some(), zv.is_bool());
        assert_eq!(zv.double().is_some(), zv.is_double() || zv.is_long());
        assert_eq!(
            zv.string().is_some(),
            zv.is_string() || zv.is_double() || zv.is_long()
        );
        assert_eq!(zv.resource().is_some(), zv.is_resource());
        assert_eq!(zv.array().is_some(), zv.is_array());
        assert_eq!(zv.object().is_some(), zv.is_object());
        assert_eq!(zv.reference().is_some(), zv.is_reference());
    }
}

#[test]
fn long_is_read_back() {
    for val in [0, 1, -1, 42, ZendLong::MAX, ZendLong::MIN] {
        assert_eq!(Zval::from(val).long(), Some(val));
        let mut zv = Zval::new();
        zv.set_long(val);
        assert_eq!(zv, Zval::Long(val));
        assert_eq!(zv.long(), Some(val));
    }
}

#[test]
fn bool_is_read_back() {
    assert_eq!(Zval::from(true).bool(), Some(true));
    assert_eq!(Zval::from(false).bool(), Some(false));
    let mut zv = Zval::new();
    zv.set_bool(true);
    assert_eq!(zv, Zval::True);
    assert!(zv.is_true());
    zv.set_bool(false);
    assert_eq!(zv, Zval::False);
    assert!(zv.is_false());
}

#[test]
fn double_is_read_back_bit_for_bit() {
    let patterns = [
        1.5f64.to_bits(),
        (-0.0f64).to_bits(),
        f64::INFINITY.to_bits(),
        f64::MIN_POSITIVE.to_bits(),
        f64::NAN.to_bits(),
        0x7ff8_0000_0000_0001,
    ];
    for bits in patterns {
        let mut zv = Zval::new();
        zv.set_double(bits);
        assert!(zv.is_double());
        assert_eq!(zv, Zval::Double(bits));
        assert_eq!(zv.double(), Some(DoubleValue::Bits(bits)));
    }
    let mut zv = Zval::new();
    zv.set_double(2.25f64.to_bits());
    match zv.double() {
        Some(DoubleValue::Bits(bits)) => assert_eq!(f64::from_bits(bits), 2.25),
        other => panic!("not a double: {:?}", other),
    }
}

#[test]
fn string_is_read_back() {
    for text in ["", "a", "hello world", "gr\u{fc}n", "\u{1f600} and more"] {
        assert_eq!(
            Zval::from(text).string(),
            Some(StringValue::Text(String::from(text)))
        );
        assert_eq!(
            Zval::from(String::from(text)).string(),
            Some(StringValue::Text(String::from(text)))
        );
        let mut zv = Zval::new();
        zv.set_string(text);
        assert_eq!(zv.string(), Some(StringValue::Text(String::from(text))));
    }
}

#[test]
fn double_widens_a_long() {
    assert_eq!(Zval::Long(5).double(), Some(DoubleValue::Long(5)));
    assert_eq!(Zval::Long(-5).double(), Some(DoubleValue::Long(-5)));
    assert_eq!(
        Zval::Long(ZendLong::MAX).double(),
        Some(DoubleValue::Long(ZendLong::MAX))
    );
}

#[test]
fn long_does_not_take_a_double() {
    assert_eq!(Zval::Double(5.0f64.to_bits()).long(), None);
    assert_eq!(Zval::Double(0).long(), None);
}

#[test]
fn string_writes_out_a_number() {
    assert_eq!(
        Zval::Long(5).string(),
        Some(StringValue::Number(DoubleValue::Long(5)))
    );
    assert_eq!(
        Zval::Double(1.5f64.to_bits()).string(),
        Some(StringValue::Number(DoubleValue::Bits(1.5f64.to_bits())))
    );
}

#[test]
fn string_takes_no_other_type() {
    assert_eq!(Zval::Null.string(), None);
    assert_eq!(Zval::True.string(), None);
    assert_eq!(Zval::False.string(), None);
    assert_eq!(Zval::Array(ZendHashTable(1)).string(), None);
    assert_eq!(Zval::Object(ZendObject(1)).string(), None);
    assert_eq!(Zval::Resource(ZendResource(1)).string(), None);
    assert_eq!(Zval::Reference(Box::new(Zval::from("text"))).string(), None);
}

#[test]
fn numbers_do_not_read_a_string() {
    assert_eq!(Zval::from("5").long(), None);
    assert_eq!(Zval::from("5").double(), None);
    assert_eq!(Zval::from("true").bool(), None);
}

#[test]
fn the_three_string_setters_differ_in_storage() {
    let mut zv = Zval::new();
    zv.set_string("text");
    assert_eq!(zv, Zval::String(ZendString::new("text", false)));
    match &zv {
        Zval::String(string) => assert_eq!(string.storage(), StringStorage::Request),
        _ => panic!("not a string"),
    }
    zv.set_persistent_string("text");
    assert_eq!(zv, Zval::String(ZendString::new("text", true)));
    match &zv {
        Zval::String(string) => assert_eq!(string.storage(), StringStorage::Persistent),
        _ => panic!("not a string"),
    }
    zv.set_interned_string("text");
    assert_eq!(zv, Zval::String(ZendString::new_interned("text")));
    match &zv {
        Zval::String(string) => {
            assert_eq!(string.storage(), StringStorage::Interned);
            assert_eq!(string.as_str(), "text");
            assert_eq!(string.to_text(), String::from("text"));
        }
        _ => panic!("not a string"),
    }
    assert_eq!(zv.string(), Some(StringValue::Text(String::from("text"))));
}

#[test]
fn handles_are_read_back() {
    let mut zv = Zval::new();
    zv.set_resource(ZendResource(0x30));
    assert_eq!(zv.resource(), Some(ZendResource(0x30)));
    assert_eq!(zv.object(), None);
    zv.set_object(ZendObject(0x40), false);
    assert_eq!(zv.object(), Some(ZendObject(0x40)));
    assert_eq!(zv.array(), None);
    zv.set_object(ZendObject(0x41), true);
    assert_eq!(zv.object(), Some(ZendObject(0x41)));
    zv.set_array(ZendHashTable(0x50));
    assert_eq!(zv.array(), Some(ZendHashTable(0x50)));
    assert_eq!(zv.resource(), None);
}

#[test]
fn set_null_empties_the_zval() {
    for mut zv in one_of_each() {
        zv.set_null();
        assert_eq!(zv, Zval::Null);
        assert!(zv.is_null());
        assert_eq!(zv.long(), None);
        assert_eq!(zv.string(), None);
    }
}

#[test]
fn a_setter_replaces_what_was_there() {
    let mut zv = Zval::from("text");
    zv.set_long(3);
    assert!(!zv.is_string());
    assert_eq!(zv.long(), Some(3));
    zv.set_bool(true);
    assert_eq!(zv.long(), None);
    assert_eq!(zv.double(), None);
    assert_eq!(zv.bool(), Some(true));
}

#[test]
fn reference_reads_the_target() {
    let zv = Zval::Reference(Box::new(Zval::from("target")));
    assert_eq!(zv.reference(), Some(Zval::from("target")));
    assert_eq!(zv.long(), None);
    let nested = Zval::Reference(Box::new(Zval::Reference(Box::new(Zval::Long(1)))));
    assert_eq!(
        nested.reference(),
        Some(Zval::Reference(Box::new(Zval::Long(1))))
    );
    assert_eq!(Zval::Long(1).reference(), None);
}

#[test]
fn a_clone_equals_its_source() {
    for zv in one_of_each() {
        assert_eq!(zv.clone(), zv);
    }
    let nested = Zval::Reference(Box::new(Zval::Reference(Box::new(Zval::from("deep")))));
    assert_eq!(nested.clone(), nested);
}

#[test]
fn try_from_follows_the_readers() {
    assert_eq!(ZendLong::try_from(&Zval::Long(4)), Ok(4));
    assert_eq!(ZendLong::try_from(&Zval::True), Err(()));
    assert_eq!(bool::try_from(&Zval::True), Ok(true));
    assert_eq!(bool::try_from(&Zval::False), Ok(false));
    assert_eq!(bool::try_from(&Zval::Long(1)), Err(()));
    assert_eq!(DoubleValue::try_from(&Zval::Double(7)), Ok(DoubleValue::Bits(7)));
    assert_eq!(DoubleValue::try_from(&Zval::Long(7)), Ok(DoubleValue::Long(7)));
    assert_eq!(DoubleValue::try_from(&Zval::Null), Err(()));
    assert_eq!(
        StringValue::try_from(&Zval::from("text")),
        Ok(StringValue::Text(String::from("text")))
    );
    assert_eq!(
        StringValue::try_from(&Zval::Long(7)),
        Ok(StringValue::Number(DoubleValue::Long(7)))
    );
    assert_eq!(StringValue::try_from(&Zval::Null), Err(()));
    assert_eq!(
        ZendHashTable::try_from(&Zval::Array(ZendHashTable(8))),
        Ok(ZendHashTable(8))
    );
    assert_eq!(ZendHashTable::try_from(&Zval::Long(8)), Err(()));
}

#[test]
fn from_makes_the_value_of_its_type() {
    assert_eq!(Zval::from(4 as ZendLong), Zval::Long(4));
    assert_eq!(Zval::from(true), Zval::True);
    assert_eq!(Zval::from(false), Zval::False);
    assert_eq!(Zval::from("text"), Zval::String(ZendString::new("text", false)));
    assert_eq!(
        Zval::from(String::from("text")),
        Zval::String(ZendString::new("text", false))
    );
}
