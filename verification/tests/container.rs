use multi_trait_object::{
    fat_pointer, IntoMultitrait, MultitraitObject, TraitDesc, TryClone, Value, TRAIT_ID_DEBUG,
    TRAIT_ID_RAW_CLONE, TYPE_ID_RECORD,
};

/// Interface identifier a test registers beside the built-in ones, standing
/// for a caller-defined mutation interface.
const TRAIT_ID_CHANGE: u32 = 90;

fn test_record() -> Value {
    Value::Record {
        a: 5,
        text: String::from("Hello World"),
    }
}

#[test]
fn it_creates_fat_pointers() {
    let debug_vtable1 = fat_pointer(TYPE_ID_RECORD, &TraitDesc::interface(TRAIT_ID_DEBUG))
        .unwrap()
        .vptr;
    let dclone_vtable1 = fat_pointer(TYPE_ID_RECORD, &TraitDesc::interface(TRAIT_ID_RAW_CLONE))
        .unwrap()
        .vptr;
    let debug_vtable2 = fat_pointer(TYPE_ID_RECORD, &TraitDesc::interface(TRAIT_ID_DEBUG))
        .unwrap()
        .vptr;
    assert_eq!(debug_vtable1, debug_vtable2);
    let dclone_vtable2 = fat_pointer(TYPE_ID_RECORD, &TraitDesc::interface(TRAIT_ID_RAW_CLONE))
        .unwrap()
        .vptr;
    assert_eq!(dclone_vtable1, dclone_vtable2);
}

#[test]
fn it_constructs() {
    test_record().into_multitrait();
}

#[test]
fn it_downcasts_traits() {
    let mto = test_record().into_multitrait();
    let debug = mto.downcast_trait(&TraitDesc::interface(TRAIT_ID_DEBUG)).unwrap();
    let _ = debug.debug_fmt();
}

#[test]
fn it_downcasts_trait_mutable() {
    let mut mto = test_record().into_multitrait();
    mto.register_trait(&TraitDesc::interface(TRAIT_ID_CHANGE));
    let change_struct = mto
        .downcast_trait_mut(&TraitDesc::interface(TRAIT_ID_CHANGE))
        .unwrap();
    match change_struct {
        Value::Record { a, .. } => *a = 6,
        _ => panic!("stored value is a record"),
    }
}

#[test]
fn it_downcasts_boxed_traits() {
    let mto = test_record().into_multitrait();
    let boxed = mto.downcast_trait_boxed(&TraitDesc::interface(TRAIT_ID_DEBUG)).unwrap();
    let _ = boxed.debug_fmt();
}

#[test]
fn it_downcasts_to_original() {
    let mut mto = test_record().into_multitrait();
    {
        mto.downcast_ref(TYPE_ID_RECORD).unwrap();
    }
    {
        mto.downcast_mut(TYPE_ID_RECORD).unwrap();
    }
    let result = mto.downcast(TYPE_ID_RECORD).unwrap();
    match result {
        Value::Record { a, text } => {
            assert_eq!(a, 5);
            assert_eq!(text, String::from("Hello World"));
        }
        _ => panic!("stored value is a record"),
    }
}

#[test]
fn it_tries_cloning() {
    let mto = test_record().into_multitrait();
    let mto2 = mto.try_clone().unwrap();
    let obj1 = mto.downcast(TYPE_ID_RECORD);
    let obj2 = mto2.downcast(TYPE_ID_RECORD);
    assert_eq!(obj1, obj2);
}

#[test]
fn construction_registers_only_the_universal_capability() {
    let mto = MultitraitObject::new(test_record());
    assert!(mto.implements(multi_trait_object::TRAIT_ID_ANY));
    assert!(!mto.implements(TRAIT_ID_DEBUG));
    assert!(!mto.implements(TRAIT_ID_RAW_CLONE));
    assert!(mto.is(TYPE_ID_RECORD));
    assert!(!mto.is(multi_trait_object::TYPE_ID_TEXT));
}
