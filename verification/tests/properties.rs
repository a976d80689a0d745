use multi_trait_object::{
    create_object, fat_pointer, u32_to_dec, value_debug, IntoMultitrait, MultitraitObject,
    TraitDesc, TryClone, TryPartialEq, Value, FAT_POINTER_SIZE, TRAIT_ID_ANY, TRAIT_ID_DEBUG,
    TRAIT_ID_PARTIAL_EQ_ANY, TRAIT_ID_RAW_CLONE, TYPE_ID_RECORD, TYPE_ID_TEXT,
};

/// An interface identifier no test ever registers.
const TRAIT_ID_UNUSED: u32 = 9000;

fn record(a: u32, text: &str) -> Value {
    Value::Record {
        a,
        text: String::from(text),
    }
}

fn record_a(mto: &MultitraitObject) -> u32 {
    match mto.downcast_ref(TYPE_ID_RECORD).unwrap() {
        Value::Record { a, .. } => *a,
        _ => panic!("stored value is a record"),
    }
}

#[test]
fn scenario_clone_compare_mutate() {
    let original = record(5, "Hello World").into_multitrait();
    let mut cloned = original.try_clone().unwrap();

    match original.downcast_ref(TYPE_ID_RECORD).unwrap() {
        Value::Record { a, text } => {
            assert_eq!(*a, 5);
            assert_eq!(text, "Hello World");
        }
        _ => panic!("stored value is a record"),
    }
    match cloned.downcast_ref(TYPE_ID_RECORD).unwrap() {
        Value::Record { a, text } => {
            assert_eq!(*a, 5);
            assert_eq!(text, "Hello World");
        }
        _ => panic!("stored value is a record"),
    }
    assert_eq!(original.try_eq(&cloned), Some(true));

    match cloned.downcast_mut(TYPE_ID_RECORD).unwrap() {
        Value::Record { a, .. } => *a = 6,
        _ => panic!("stored value is a record"),
    }
    assert_eq!(record_a(&cloned), 6);
    assert_eq!(record_a(&original), 5);
    assert_eq!(original.try_eq(&cloned), Some(false));
}

#[test]
fn unregistered_interface_is_absent() {
    let mto = record(1, "x").into_multitrait();
    assert!(!mto.implements(TRAIT_ID_UNUSED));
    assert!(mto.downcast_trait(&TraitDesc::interface(TRAIT_ID_UNUSED)).is_none());
}

#[test]
fn wrong_concrete_type_is_absent() {
    let mto = Value::Text(String::from("hi")).into_multitrait();
    assert!(mto.downcast_ref(TYPE_ID_RECORD).is_none());
    assert!(mto.downcast(TYPE_ID_RECORD).is_none());
}

#[test]
fn equality_without_capability_is_indeterminate() {
    let plain = MultitraitObject::new(record(1, "x"));
    let full = record(1, "x").into_multitrait();
    assert_eq!(plain.try_eq(&full), None);
    assert_eq!(full.try_eq(&plain), None);
    assert_eq!(plain.try_eq(&plain), None);
    assert_eq!(full.try_eq(&full), Some(true));
}

#[test]
fn equality_of_unequal_values_is_false() {
    let a = record(1, "x").into_multitrait();
    let b = record(2, "x").into_multitrait();
    let c = Value::Text(String::from("x")).into_multitrait();
    assert_eq!(a.try_eq(&b), Some(false));
    assert_eq!(a.try_eq(&c), Some(false));
}

#[test]
fn cloning_without_capability_is_absent() {
    let plain = MultitraitObject::new(record(1, "x"));
    assert!(plain.try_clone().is_none());
}

#[test]
fn debug_renders_the_record() {
    let mto = record(5, "Hello World").into_multitrait();
    assert_eq!(mto.fmt_debug(), "Record { a: 5, text: \"Hello World\" }");
}

#[test]
fn debug_renders_the_text() {
    let mto = Value::Text(String::from("Hello World")).into_multitrait();
    assert_eq!(mto.fmt_debug(), "\"Hello World\"");
}

#[test]
fn debug_without_capability_is_a_placeholder() {
    let mto = MultitraitObject::new(record(5, "Hello World"));
    assert_eq!(mto.fmt_debug(), "<unavailable>");
}

#[test]
fn boxed_interface_renders_like_the_value() {
    let value = record(3, "abc");
    let rendered = value_debug(&value);
    let boxed = value
        .into_multitrait()
        .downcast_trait_boxed(&TraitDesc::interface(TRAIT_ID_DEBUG))
        .unwrap();
    assert_eq!(boxed.debug_fmt(), rendered);
}

#[test]
fn decimal_rendering_is_exact() {
    assert_eq!(u32_to_dec(0), "0");
    assert_eq!(u32_to_dec(7), "7");
    assert_eq!(u32_to_dec(905), "905");
    assert_eq!(u32_to_dec(u32::MAX), "4294967295");
}

#[test]
fn dispatch_tables_differ_between_pairs() {
    let debug_desc = TraitDesc::interface(TRAIT_ID_DEBUG);
    let clone_desc = TraitDesc::interface(TRAIT_ID_RAW_CLONE);
    let record_debug = fat_pointer(TYPE_ID_RECORD, &debug_desc).unwrap().vptr;
    let text_debug = fat_pointer(TYPE_ID_TEXT, &debug_desc).unwrap().vptr;
    let record_clone = fat_pointer(TYPE_ID_RECORD, &clone_desc).unwrap().vptr;
    assert_ne!(record_debug, text_debug);
    assert_ne!(record_debug, record_clone);
}

#[test]
fn wrong_shape_is_rejected() {
    let bad = TraitDesc {
        id: TRAIT_ID_DEBUG,
        ref_size: 8,
    };
    assert!(fat_pointer(TYPE_ID_RECORD, &bad).is_none());

    let mut mto = record(1, "x").into_multitrait();
    assert!(!mto.register_trait(&bad));
    assert!(mto.downcast_trait(&bad).is_none());
    assert!(mto.downcast_trait_mut(&bad).is_none());
    assert!(mto.downcast_trait_boxed(&bad).is_none());
}

#[test]
fn create_object_registers_the_accepted_list() {
    let traits = vec![
        TraitDesc::interface(TRAIT_ID_RAW_CLONE),
        TraitDesc {
            id: TRAIT_ID_PARTIAL_EQ_ANY,
            ref_size: 8,
        },
    ];
    let mto = create_object(record(2, "y"), &traits);
    assert!(mto.implements(TRAIT_ID_ANY));
    assert!(mto.implements(TRAIT_ID_RAW_CLONE));
    assert!(!mto.implements(TRAIT_ID_PARTIAL_EQ_ANY));
    assert!(mto.try_clone().is_some());
    assert_eq!(mto.try_eq(&record(2, "y").into_multitrait()), None);
}

#[test]
fn clone_keeps_the_registry() {
    let mut mto = record(2, "y").into_multitrait();
    mto.register_trait(&TraitDesc::interface(77));
    let cloned = mto.try_clone().unwrap();
    assert!(cloned.implements(TRAIT_ID_ANY));
    assert!(cloned.implements(TRAIT_ID_RAW_CLONE));
    assert!(cloned.implements(TRAIT_ID_PARTIAL_EQ_ANY));
    assert!(cloned.implements(TRAIT_ID_DEBUG));
    assert!(cloned.implements(77));
    assert!(!cloned.implements(TRAIT_ID_UNUSED));
}

#[test]
fn interface_descriptors_have_the_two_word_shape() {
    let desc = TraitDesc::interface(TRAIT_ID_ANY);
    assert_eq!(desc.ref_size, FAT_POINTER_SIZE);
    let fp = fat_pointer(TYPE_ID_RECORD, &desc).unwrap();
    assert_eq!(fp.data, 0);
}
