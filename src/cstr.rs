//! Null-terminated copies of text handed to the runtime.

use vstd::prelude::*;
use vstd::string::StringSliceAdditionalSpecFns;

verus! {

/// `b` holds no zero byte.
pub open spec fn nul_free(b: Seq<u8>) -> bool {
    forall|i: int| 0 <= i < b.len() ==> b[i] != 0u8
}

/// `i` is the index of the first zero byte of `b`.
pub open spec fn is_first_nul(b: Seq<u8>, i: int) -> bool {
    &&& 0 <= i < b.len()
    &&& b[i] == 0u8
    &&& nul_free(b.subrange(0, i))
}

/// `b` is a null-terminated string: one zero byte, at its end.
pub open spec fn is_c_string(b: Seq<u8>) -> bool {
    &&& b.len() > 0
    &&& b.last() == 0u8
    &&& nul_free(b.drop_last())
}

/// The null-terminated form of the text `s`: its UTF-8 bytes and a zero byte.
pub open spec fn c_bytes(s: &str) -> Seq<u8> {
    s.spec_bytes().push(0u8)
}

/// Text that holds a zero byte cannot cross a null-terminated boundary.
#[derive(Clone, Copy, Debug, PartialEq, Eq, Structural)]
pub struct NulError {
    position: usize,
}

impl NulError {
    pub closed spec fn spec_position(&self) -> usize {
        self.position
    }

    /// Index of the first zero byte of the rejected text.
    pub fn nul_position(&self) -> (r: usize)
        ensures
            r == self.spec_position(),
    {
        self.position
    }
}

/// Copies `s` into a null-terminated byte string, or names the first zero
/// byte that makes it unrepresentable.
pub fn c_string(s: &str) -> (r: Result<Vec<u8>, NulError>)
    ensures
        match r {
            Ok(v) => nul_free(s.spec_bytes()) && v@ == c_bytes(s),
            Err(e) => is_first_nul(s.spec_bytes(), e.spec_position() as int),
        },
{
    let bytes = s.as_bytes();
    let mut out: Vec<u8> = Vec::new();
    let mut i: usize = 0;
    while i < bytes.len()
        invariant
            bytes@ == s.spec_bytes(),
            i <= bytes@.len(),
            out@ == bytes@.subrange(0, i as int),
            nul_free(out@),
        decreases bytes@.len() - i,
    {
        if bytes[i] == 0u8 {
            return Err(NulError { position: i });
        }
        out.push(bytes[i]);
        i = i + 1;
        assert(out@ == bytes@.subrange(0, i as int));
    }
    assert(out@ == bytes@);
    out.push(0u8);
    Ok(out)
}

/// Whatever `c_string` produces is a null-terminated string.
pub proof fn lemma_c_bytes_is_c_string(s: &str)
    requires
        nul_free(s.spec_bytes()),
    ensures
        is_c_string(c_bytes(s)),
{
    assert(c_bytes(s).drop_last() == s.spec_bytes());
}

} // verus!
