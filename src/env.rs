//! The environment handle and its typed calls into the runtime's table.
#![allow(non_snake_case)]

use vstd::prelude::*;
use vstd::string::StringSliceAdditionalSpecFns;

use crate::cstr::{c_bytes, c_string, is_c_string, lemma_c_bytes_is_c_string, nul_free, NulError};
use crate::handle::{jclass, jmethodID, jobject, jvalue};
use crate::jint;
use crate::layout::{
    JNINativeInterface, SlotKind, CALL_OBJECT_METHOD_A_SLOT, GET_METHOD_ID_SLOT,
    GET_OBJECT_CLASS_SLOT, GET_VERSION_SLOT, SLOT_COUNT,
};

verus! {

/// The capabilities of the runtime's function table that this library binds.
///
/// The runtime supplies the table; each method is one indirect call through
/// the slot of the same name. What a slot returns is the runtime's to decide.
/// `history` is the sequence of calls made on the table so far, each with
/// what it was handed and what it returned: a call adds exactly its own event.
pub trait NativeInterface {
    /// An implementation states its own history; this default says nothing
    /// of it.
    closed spec fn history(&self) -> Seq<TableEvent> {
        arbitrary()
    }

    /// The runtime's interface version.
    fn get_version(&mut self) -> (r: jint)
        ensures
            final(self).history() == old(self).history().push(TableEvent::GetVersion(r)),
    ;

    /// The class of `obj`, or the null class on failure.
    fn get_object_class(&mut self, obj: jobject) -> (r: jclass)
        ensures
            final(self).history() == old(self).history().push(TableEvent::GetObjectClass(obj, r)),
    ;

    /// The method of `class` with this name and signature, or the null
    /// method on failure. Both strings are null-terminated.
    fn get_method_id(&mut self, class: jclass, name: &[u8], sig: &[u8]) -> (r: jmethodID)
        requires
            is_c_string(name@),
            is_c_string(sig@),
        ensures
            final(self).history() == old(self).history().push(
                TableEvent::GetMethodId(class, name@, sig@, r),
            ),
    ;

    /// Calls `method` on `obj` with the arguments laid out contiguously, in
    /// order, and returns the object it returned (null if none or on failure).
    fn call_object_method_a(&mut self, obj: jobject, method: jmethodID, args: &[jvalue]) -> (r:
        jobject)
        ensures
            final(self).history() == old(self).history().push(
                TableEvent::CallObjectMethodA(obj, method, args@, r),
            ),
    ;
}

/// One call through the table: what was handed to the slot, then what it
/// returned.
pub enum TableEvent {
    GetVersion(jint),
    GetObjectClass(jobject, jclass),
    GetMethodId(jclass, Seq<u8>, Seq<u8>, jmethodID),
    CallObjectMethodA(jobject, jmethodID, Seq<jvalue>, jobject),
}

/// Index of the table slot through which the call `e` was made.
pub open spec fn event_slot(e: TableEvent) -> int {
    match e {
        TableEvent::GetVersion(..) => GET_VERSION_SLOT as int,
        TableEvent::GetObjectClass(..) => GET_OBJECT_CLASS_SLOT as int,
        TableEvent::GetMethodId(..) => GET_METHOD_ID_SLOT as int,
        TableEvent::CallObjectMethodA(..) => CALL_OBJECT_METHOD_A_SLOT as int,
    }
}

/// Every call this library makes goes through a bound slot of the runtime's
/// table, named after the call.
pub proof fn lemma_events_use_bound_slots(t: &JNINativeInterface, e: TableEvent)
    requires
        t.is_runtime_table(),
    ensures
        0 <= event_slot(e) < SLOT_COUNT,
        t.slot_kinds()[event_slot(e)] == SlotKind::Bound,
        t.slot_names()[event_slot(e)] == match e {
            TableEvent::GetVersion(..) => "GetVersion",
            TableEvent::GetObjectClass(..) => "GetObjectClass",
            TableEvent::GetMethodId(..) => "GetMethodId",
            TableEvent::CallObjectMethodA(..) => "CallObjectMethodA",
        },
{
}

/// The per-call context through which every capability is reached.
pub struct JNIEnv<R: NativeInterface> {
    functions: R,
}

impl<R: NativeInterface> JNIEnv<R> {
    /// The table this handle calls through.
    pub closed spec fn spec_functions(&self) -> R {
        self.functions
    }

    pub fn new(functions: R) -> (r: Self)
        ensures
            r.spec_functions() == functions,
    {
        JNIEnv { functions }
    }

    pub fn functions(&self) -> (r: &R)
        ensures
            *r == self.spec_functions(),
    {
        &self.functions
    }

    pub fn into_functions(self) -> (r: R)
        ensures
            r == self.spec_functions(),
    {
        self.functions
    }

    /// Queries the runtime's interface version: one call of the version slot,
    /// whose result is returned.
    pub fn GetVersion(&mut self) -> (r: jint)
        ensures
            final(self).spec_functions().history() == old(self).spec_functions().history().push(
                TableEvent::GetVersion(r),
            ),
    {
        self.functions.get_version()
    }

    /// Asks the runtime for the class of `obj`: one call of the class slot.
    /// Its result, null on failure, is returned as is.
    pub fn GetObjectClass(&mut self, obj: jobject) -> (r: jclass)
        ensures
            final(self).spec_functions().history() == old(self).spec_functions().history().push(
                TableEvent::GetObjectClass(obj, r),
            ),
    {
        self.functions.get_object_class(obj)
    }

    /// Resolves a method of `class` by name and signature.
    ///
    /// Text holding a zero byte cannot be handed over: the lookup is then
    /// refused here and the table is not touched. Otherwise the lookup slot
    /// is called once, with null-terminated copies of both strings, and its
    /// result (null on failure) is returned as is.
    pub fn GetMethodID(&mut self, class: jclass, name: &str, sig: &str) -> (r: Result<
        jmethodID,
        NulError,
    >)
        ensures
            r is Ok <==> nul_free(name.spec_bytes()) && nul_free(sig.spec_bytes()),
            r is Ok ==> final(self).spec_functions().history() == old(
                self,
            ).spec_functions().history().push(
                TableEvent::GetMethodId(class, c_bytes(name), c_bytes(sig), r->Ok_0),
            ),
            r is Err ==> *final(self) == *old(self),
    {
        let name_c = match c_string(name) {
            Ok(v) => v,
            Err(e) => return Err(e),
        };
        let sig_c = match c_string(sig) {
            Ok(v) => v,
            Err(e) => return Err(e),
        };
        proof {
            lemma_c_bytes_is_c_string(name);
            lemma_c_bytes_is_c_string(sig);
        }
        let r = self.functions.get_method_id(class, name_c.as_slice(), sig_c.as_slice());
        Ok(r)
    }

    /// Calls `method` on `obj` with `args`: one call of the object-returning
    /// slot that takes an argument array, whose result is returned as is
    /// (null included). The runtime's exception state is neither read nor
    /// cleared.
    pub fn CallObjectMethod(&mut self, obj: jobject, method: jmethodID, args: &[jvalue]) -> (r:
        jobject)
        ensures
            final(self).spec_functions().history() == old(self).spec_functions().history().push(
                TableEvent::CallObjectMethodA(obj, method, args@, r),
            ),
    {
        self.functions.call_object_method_a(obj, method, args)
    }
}

} // verus!
