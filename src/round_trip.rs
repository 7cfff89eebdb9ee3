//! A call from native code back into the runtime: look up a method of the
//! receiver's own class and invoke it.

use vstd::prelude::*;
use vstd::string::StringSliceAdditionalSpecFns;

use crate::cstr::{c_bytes, nul_free};
use crate::env::{JNIEnv, NativeInterface, TableEvent};
use crate::handle::{jclass, jmethodID, jobject, jvalue};
use crate::jint;

verus! {

/// What each step of the call back got back from the runtime.
#[derive(Clone, Copy, Debug)]
pub struct Callback {
    pub class: jclass,
    pub method: jmethodID,
    pub result: jobject,
}

/// What each step of the round trip got back from the runtime.
#[derive(Clone, Copy, Debug)]
pub struct RoundTrip {
    pub version: jint,
    pub class: jclass,
    pub method: jmethodID,
    pub result: jobject,
}

/// The null-terminated name of the method called back.
pub open spec fn callback_name() -> Seq<u8> {
    c_bytes("showFromJava")
}

/// The null-terminated signature of that method: no argument, no result.
pub open spec fn callback_signature() -> Seq<u8> {
    c_bytes("()V")
}

/// Text of ASCII characters other than the null character encodes to
/// bytes with no zero byte.
proof fn lemma_ascii_nul_free(s: &str)
    requires
        forall|i: int| 0 <= i < s@.len() ==> '\u{1}' <= #[trigger] s@[i] <= '\u{7f}',
    ensures
        nul_free(s.spec_bytes()),
{
    vstd::utf8::is_ascii_chars_encode_utf8(s@);
    assert forall|i: int| 0 <= i < s.spec_bytes().len() implies s.spec_bytes()[i] != 0u8 by {
        assert('\u{1}' <= s@[i] <= '\u{7f}');
        assert(s@[i] as u8 == s.spec_bytes()[i]);
    }
}

/// Resolves the class of `this`, looks up its method `showFromJava` taking
/// and returning nothing, and calls it on `this` with no argument. Each
/// result is handed to the next step unchecked: the runtime's failure signal
/// is a null handle, which the next call receives as it is.
pub fn call_show_from_java<R: NativeInterface>(env: &mut JNIEnv<R>, this: jobject) -> (r: Callback)
    ensures
        final(env).spec_functions().history() == old(env).spec_functions().history() + seq![
            TableEvent::GetObjectClass(this, r.class),
            TableEvent::GetMethodId(r.class, callback_name(), callback_signature(), r.method),
            TableEvent::CallObjectMethodA(this, r.method, Seq::<jvalue>::empty(), r.result),
        ],
{
    let class = env.GetObjectClass(this);
    proof {
        reveal_strlit("showFromJava");
        reveal_strlit("()V");
        assert("showFromJava"@ =~= seq!['s', 'h', 'o', 'w', 'F', 'r', 'o', 'm', 'J', 'a', 'v', 'a']);
        assert("()V"@ =~= seq!['(', ')', 'V']);
        lemma_ascii_nul_free("showFromJava");
        lemma_ascii_nul_free("()V");
    }
    let method = env.GetMethodID(class, "showFromJava", "()V").unwrap();
    let args: Vec<jvalue> = Vec::new();
    let result = env.CallObjectMethod(this, method, args.as_slice());
    Callback { class, method, result }
}

/// Queries the runtime's version, then makes the call back of
/// `call_show_from_java`.
pub fn call_from_rust<R: NativeInterface>(env: &mut JNIEnv<R>, this: jobject) -> (r: RoundTrip)
    ensures
        final(env).spec_functions().history() == old(env).spec_functions().history() + seq![
            TableEvent::GetVersion(r.version),
            TableEvent::GetObjectClass(this, r.class),
            TableEvent::GetMethodId(r.class, callback_name(), callback_signature(), r.method),
            TableEvent::CallObjectMethodA(this, r.method, Seq::<jvalue>::empty(), r.result),
        ],
{
    let version = env.GetVersion();
    let c = call_show_from_java(env, this);
    RoundTrip { version, class: c.class, method: c.method, result: c.result }
}

} // verus!
