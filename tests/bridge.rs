use jni_bridge::cstr::c_string;
use jni_bridge::env::{JNIEnv, NativeInterface};
use jni_bridge::handle::{jclass, jmethodID, jobject, jvalue};
use jni_bridge::jint;
use jni_bridge::layout::{
    JNINativeInterface, Slot, SlotKind, CALL_OBJECT_METHOD_A_SLOT, GET_METHOD_ID_SLOT,
    GET_OBJECT_CLASS_SLOT, GET_VERSION_SLOT, SLOT_COUNT,
};
use jni_bridge::round_trip::call_from_rust;

const CLASS_C: usize = 0x1000;
const METHOD_M: usize = 0x2000;

/// A table whose slots answer with fixed values and record what they were handed.
struct Stub {
    version: jint,
    version_calls: usize,
    class_calls: Vec<jobject>,
    lookups: Vec<(jclass, Vec<u8>, Vec<u8>)>,
    invocations: Vec<(jobject, jmethodID, Vec<jvalue>)>,
}

impl Stub {
    fn new(version: jint) -> Stub {
        Stub {
            version,
            version_calls: 0,
            class_calls: Vec::new(),
            lookups: Vec::new(),
            invocations: Vec::new(),
        }
    }
}

impl NativeInterface for Stub {
    fn get_version(&mut self) -> jint {
        self.version_calls += 1;
        self.version
    }

    fn get_object_class(&mut self, obj: jobject) -> jclass {
        self.class_calls.push(obj);
        jclass::from_addr(CLASS_C)
    }

    fn get_method_id(&mut self, class: jclass, name: &[u8], sig: &[u8]) -> jmethodID {
        self.lookups.push((class, name.to_vec(), sig.to_vec()));
        if class == jclass::from_addr(CLASS_C) && name == b"showFromJava\0" && sig == b"()V\0" {
            jmethodID::from_addr(METHOD_M)
        } else {
            jmethodID::null()
        }
    }

    fn call_object_method_a(&mut self, obj: jobject, method: jmethodID, args: &[jvalue]) -> jobject {
        self.invocations.push((obj, method, args.to_vec()));
        jobject::null()
    }
}

fn word() -> usize {
    std::mem::size_of::<usize>()
}

#[test]
fn runtime_table_has_every_slot_in_order() {
    let t = JNINativeInterface::runtime_table();
    assert_eq!(t.len(), SLOT_COUNT);
    assert_eq!(t.len(), 37);
    assert_eq!(t.slot(0).name, "reserved0");
    assert_eq!(t.slot(3).name, "reserved3");
    assert_eq!(t.slot(GET_VERSION_SLOT).name, "GetVersion");
    assert_eq!(t.slot(GET_OBJECT_CLASS_SLOT).name, "GetObjectClass");
    assert_eq!(t.slot(GET_METHOD_ID_SLOT).name, "GetMethodId");
    assert_eq!(t.slot(CALL_OBJECT_METHOD_A_SLOT).name, "CallObjectMethodA");
    assert_eq!(t.slot(34).name, "CallObjectMethod");
    assert_eq!(t.slot(5).name, "DefineClass");
    assert_eq!(t.slot(0).kind, SlotKind::Reserved);
    assert_eq!(t.slot(5).kind, SlotKind::Unbound);
    assert_eq!(t.slot(GET_METHOD_ID_SLOT).kind, SlotKind::Bound);
}

#[test]
fn runtime_table_offsets_match_frozen_layout() {
    let t = JNINativeInterface::runtime_table();
    let w = word();
    assert_eq!(t.offset_of(0), 0);
    assert_eq!(t.offset_of(GET_VERSION_SLOT), 4 * w);
    assert_eq!(t.offset_of(GET_OBJECT_CLASS_SLOT), 31 * w);
    assert_eq!(t.offset_of(GET_METHOD_ID_SLOT), 33 * w);
    assert_eq!(t.offset_of(CALL_OBJECT_METHOD_A_SLOT), 36 * w);
    assert_eq!(t.size(), 37 * w);
}

#[test]
fn every_offset_is_the_sum_of_the_sizes_before_it() {
    let t = JNINativeInterface::runtime_table();
    let mut sum = 0;
    for i in 0..t.len() {
        assert_eq!(t.offset_of(i), sum);
        sum += t.slot(i).size;
    }
    assert_eq!(t.size(), sum);
}

#[test]
fn offsets_of_mixed_sizes() {
    let mut t = JNINativeInterface::new();
    assert_eq!(t.len(), 0);
    assert_eq!(t.size(), 0);
    t.push(Slot { name: "a", kind: SlotKind::Reserved, size: 8 });
    t.push(Slot { name: "b", kind: SlotKind::Bound, size: 4 });
    t.push(Slot { name: "c", kind: SlotKind::Unbound, size: 2 });
    assert_eq!(t.offset_of(0), 0);
    assert_eq!(t.offset_of(1), 8);
    assert_eq!(t.offset_of(2), 12);
    assert_eq!(t.size(), 14);
    assert_eq!(t.slot(1).kind, SlotKind::Bound);
}

#[test]
fn version_query_returns_stubbed_value_every_time() {
    let mut env = JNIEnv::new(Stub::new(0x00010008));
    assert_eq!(env.GetVersion(), 0x00010008);
    assert_eq!(env.GetVersion(), 0x00010008);
    assert_eq!(env.GetVersion(), 0x00010008);
    assert_eq!(env.functions().version_calls, 3);
}

#[test]
fn object_class_is_returned_unchanged() {
    let mut env = JNIEnv::new(Stub::new(1));
    let obj = jobject::from_addr(0x42);
    let class = env.GetObjectClass(obj);
    assert_eq!(class, jclass::from_addr(CLASS_C));
    assert_eq!(env.functions().class_calls, vec![obj]);
}

#[test]
fn nul_in_name_fails_without_lookup() {
    let mut env = JNIEnv::new(Stub::new(1));
    let r = env.GetMethodID(jclass::from_addr(CLASS_C), "show\0FromJava", "()V");
    let e = r.unwrap_err();
    assert_eq!(e.nul_position(), 4);
    assert!(env.functions().lookups.is_empty());
}

#[test]
fn nul_in_signature_fails_without_lookup() {
    let mut env = JNIEnv::new(Stub::new(1));
    let r = env.GetMethodID(jclass::from_addr(CLASS_C), "showFromJava", "()\0V");
    assert_eq!(r.unwrap_err().nul_position(), 2);
    assert!(env.functions().lookups.is_empty());
}

#[test]
fn recognized_method_resolves_to_same_id_each_time() {
    let mut env = JNIEnv::new(Stub::new(1));
    let c = jclass::from_addr(CLASS_C);
    let m1 = env.GetMethodID(c, "showFromJava", "()V").unwrap();
    let m2 = env.GetMethodID(c, "showFromJava", "()V").unwrap();
    assert!(!m1.is_null());
    assert_eq!(m1, m2);
    assert_eq!(m1, jmethodID::from_addr(METHOD_M));
    let lookups = &env.functions().lookups;
    assert_eq!(lookups.len(), 2);
    assert_eq!(lookups[0], (c, b"showFromJava\0".to_vec(), b"()V\0".to_vec()));
    assert_eq!(lookups[0], lookups[1]);
}

#[test]
fn unrecognized_method_resolves_to_null() {
    let mut env = JNIEnv::new(Stub::new(1));
    let c = jclass::from_addr(CLASS_C);
    let missing = env.GetMethodID(c, "noSuchMethod", "(I)V").unwrap();
    assert!(missing.is_null());
    assert_eq!(missing.addr(), 0);
    let found = env.GetMethodID(c, "showFromJava", "()V").unwrap();
    assert_ne!(missing, found);
    assert_eq!(env.functions().lookups.len(), 2);
}

#[test]
fn invocation_passes_arguments_in_order() {
    let mut env = JNIEnv::new(Stub::new(1));
    let obj = jobject::from_addr(0x10);
    let m = jmethodID::from_addr(METHOD_M);
    let args = [jvalue::object(jobject::from_addr(0x20)), jvalue::object(jobject::null())];
    let r = env.CallObjectMethod(obj, m, &args);
    assert!(r.is_null());
    let inv = &env.functions().invocations;
    assert_eq!(inv.len(), 1);
    assert_eq!(inv[0].0, obj);
    assert_eq!(inv[0].1, m);
    assert_eq!(inv[0].2, args.to_vec());
}

#[test]
fn round_trip_scenario() {
    let mut env = JNIEnv::new(Stub::new(0x00010008));
    let this = jobject::from_addr(0x77);
    let r = call_from_rust(&mut env, this);
    assert_eq!(r.version, 0x00010008);
    assert_eq!(r.class, jclass::from_addr(CLASS_C));
    assert_eq!(r.method, jmethodID::from_addr(METHOD_M));
    assert!(r.result.is_null());
    let stub = env.into_functions();
    assert_eq!(stub.version_calls, 1);
    assert_eq!(stub.class_calls, vec![this]);
    assert_eq!(stub.lookups, vec![(jclass::from_addr(CLASS_C), b"showFromJava\0".to_vec(), b"()V\0".to_vec())]);
    assert_eq!(stub.invocations.len(), 1);
    assert_eq!(stub.invocations[0].0, this);
    assert_eq!(stub.invocations[0].1, jmethodID::from_addr(METHOD_M));
    assert!(stub.invocations[0].2.is_empty());
}

#[test]
fn c_string_appends_terminator() {
    assert_eq!(c_string("abc").unwrap(), vec![97u8, 98, 99, 0]);
    assert_eq!(c_string("").unwrap(), vec![0u8]);
    assert_eq!(c_string("\u{e9}").unwrap(), vec![0xc3u8, 0xa9, 0]);
}

#[test]
fn c_string_reports_first_nul() {
    assert_eq!(c_string("a\0b\0").unwrap_err().nul_position(), 1);
    assert_eq!(c_string("\0").unwrap_err().nul_position(), 0);
}

#[test]
fn handles_compare_by_address() {
    assert!(jobject::null().is_null());
    assert!(jclass::null().is_null());
    assert!(jmethodID::null().is_null());
    assert!(!jobject::from_addr(8).is_null());
    assert_eq!(jobject::from_addr(8), jobject::from_addr(8));
    assert_ne!(jobject::from_addr(8), jobject::from_addr(16));
    assert_eq!(jclass::from_addr(24).addr(), 24);
    let v = jvalue::object(jobject::from_addr(5));
    assert_eq!(v.as_object(), jobject::from_addr(5));
    assert_eq!(v.0.addr(), 5);
}

#[test]
fn runtime_table_names_every_slot_in_order() {
    let expected = [
        "reserved0", "reserved1", "reserved2", "reserved3", "GetVersion", "DefineClass",
        "FindClass", "FromReflectedMethod", "FromReflectedField", "ToReflectedMethod",
        "GetSuperclass", "IsAssignableFrom", "ToReflectedField", "Throw", "ThrowNew",
        "ExceptionOccurred", "ExceptionDescribe", "ExceptionClear", "FatalError",
        "PushLocalFrame", "PopLocalFrame", "NewGlobalRef", "DeleteGlobalRef", "DeleteLocalRef",
        "IsSameObject", "NewLocalRef", "EnsureLocalCapacity", "AllocObject", "NewObject",
        "NewObjectV", "NewObjectA", "GetObjectClass", "IsInstanceOf", "GetMethodId",
        "CallObjectMethod", "CallObjectMethodV", "CallObjectMethodA",
    ];
    let t = JNINativeInterface::runtime_table();
    assert_eq!(t.len(), expected.len());
    for (i, name) in expected.iter().enumerate() {
        assert_eq!(t.slot(i).name, *name);
        assert_eq!(t.slot(i).size, word());
    }
}
