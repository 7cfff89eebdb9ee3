//! Opaque handles to entities owned by the managed runtime.
//!
//! A handle carries identity only: the address the runtime handed out. It is
//! never dereferenced here; equality and the null test are all it offers.
#![allow(non_camel_case_types)]

use vstd::prelude::*;

verus! {

/// Handle to a runtime-managed object.
#[derive(Clone, Copy, Debug, PartialEq, Eq, Structural)]
pub struct jobject {
    addr: usize,
}

/// Handle to a runtime type descriptor.
#[derive(Clone, Copy, Debug, PartialEq, Eq, Structural)]
pub struct jclass {
    addr: usize,
}

/// Handle to a method resolved from (class, name, signature).
#[derive(Clone, Copy, Debug, PartialEq, Eq, Structural)]
pub struct jmethodID {
    addr: usize,
}

impl View for jobject {
    type V = usize;

    closed spec fn view(&self) -> usize {
        self.addr
    }
}

impl View for jclass {
    type V = usize;

    closed spec fn view(&self) -> usize {
        self.addr
    }
}

impl View for jmethodID {
    type V = usize;

    closed spec fn view(&self) -> usize {
        self.addr
    }
}

impl jobject {
    /// The handle the runtime uses to say "no object".
    pub fn null() -> (r: Self)
        ensures
            r@ == 0,
    {
        jobject { addr: 0 }
    }

    pub fn from_addr(addr: usize) -> (r: Self)
        ensures
            r@ == addr,
    {
        jobject { addr }
    }

    pub fn addr(&self) -> (r: usize)
        ensures
            r == self@,
    {
        self.addr
    }

    pub fn is_null(&self) -> (r: bool)
        ensures
            r == (self@ == 0),
    {
        self.addr == 0
    }

    /// Two handles are equal exactly when they carry the same address.
    pub proof fn lemma_view_injective(a: Self, b: Self)
        ensures
            (a@ == b@) == (a == b),
    {
    }
}

impl jclass {
    /// The handle the runtime returns when a class lookup fails.
    pub fn null() -> (r: Self)
        ensures
            r@ == 0,
    {
        jclass { addr: 0 }
    }

    pub fn from_addr(addr: usize) -> (r: Self)
        ensures
            r@ == addr,
    {
        jclass { addr }
    }

    pub fn addr(&self) -> (r: usize)
        ensures
            r == self@,
    {
        self.addr
    }

    pub fn is_null(&self) -> (r: bool)
        ensures
            r == (self@ == 0),
    {
        self.addr == 0
    }

    /// Two handles are equal exactly when they carry the same address.
    pub proof fn lemma_view_injective(a: Self, b: Self)
        ensures
            (a@ == b@) == (a == b),
    {
    }
}

impl jmethodID {
    /// The handle the runtime returns when a method lookup fails.
    pub fn null() -> (r: Self)
        ensures
            r@ == 0,
    {
        jmethodID { addr: 0 }
    }

    pub fn from_addr(addr: usize) -> (r: Self)
        ensures
            r@ == addr,
    {
        jmethodID { addr }
    }

    pub fn addr(&self) -> (r: usize)
        ensures
            r == self@,
    {
        self.addr
    }

    pub fn is_null(&self) -> (r: bool)
        ensures
            r == (self@ == 0),
    {
        self.addr == 0
    }

    /// Two handles are equal exactly when they carry the same address, so
    /// the null handle differs from every handle that a lookup succeeded with.
    pub proof fn lemma_view_injective(a: Self, b: Self)
        ensures
            (a@ == b@) == (a == b),
    {
    }
}

/// One marshaled call argument, laid out as the runtime's argument union.
/// Object references are the one argument kind bound so far.
#[derive(Clone, Copy, Debug, PartialEq, Eq, Structural)]
pub struct jvalue(pub jobject);

impl jvalue {
    /// A cell holding an object reference; never fails.
    pub fn object(obj: jobject) -> (r: Self)
        ensures
            r.0 == obj,
    {
        jvalue(obj)
    }

    pub fn as_object(&self) -> (r: jobject)
        ensures
            r == self.0,
    {
        self.0
    }
}

} // verus!
