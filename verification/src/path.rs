//! File names as zero-terminated byte strings.

use vstd::prelude::*;

verus! {

/// A file name with its final zero byte and no other.
#[derive(Debug)]
pub struct CPath {
    bytes: Vec<u8>,
}

/// A file name that holds a zero byte.
#[derive(Debug)]
pub struct NulError {
    pub position: usize,
    pub bytes: Vec<u8>,
}

/// No byte is zero.
pub open spec fn nul_free(bytes: Seq<u8>) -> bool {
    forall|i: int| 0 <= i < bytes.len() ==> bytes[i] != 0
}

impl NulError {
    /// The name that was refused, and the place of its first zero byte.
    pub open spec fn of(self, name: Seq<u8>) -> bool {
        &&& self.bytes@ == name
        &&& self.position < name.len()
        &&& name[self.position as int] == 0
        &&& nul_free(name.take(self.position as int))
    }

    pub fn nul_position(&self) -> (r: usize)
        ensures
            r == self.position,
    {
        self.position
    }
}

impl View for CPath {
    type V = Seq<u8>;

    closed spec fn view(&self) -> Seq<u8> {
        self.bytes@
    }
}

impl CPath {
    #[verifier::type_invariant]
    spec fn terminated(self) -> bool {
        self@.len() > 0 && self@.last() == 0 && nul_free(self@.drop_last())
    }

    /// Adds the final zero to a file name, unless the name holds one already.
    pub fn new(name: &[u8]) -> (r: Result<CPath, NulError>)
        ensures
            r is Ok <==> nul_free(name@),
            r matches Ok(path) ==> path@ == name@.push(0),
            r matches Err(e) ==> e.of(name@),
    {
        let mut bytes: Vec<u8> = Vec::new();
        let mut i: usize = 0;
        while i < name.len()
            invariant
                i <= name@.len(),
                bytes@ == name@.take(i as int),
                nul_free(name@.take(i as int)),
            decreases name.len() - i,
        {
            if name[i] == 0 {
                let mut whole: Vec<u8> = Vec::new();
                whole.extend_from_slice(name);
                assert(whole@ =~= name@);
                return Err(NulError { position: i, bytes: whole });
            }
            bytes.push(name[i]);
            i += 1;
            assert(name@.take(i as int) =~= name@.take(i - 1).push(name@[i - 1]));
        }
        assert(name@.take(name@.len() as int) =~= name@);
        bytes.push(0);
        assert(bytes@.drop_last() =~= name@);
        Ok(CPath { bytes })
    }

    /// The bytes of the name with its final zero.
    pub fn as_bytes_with_nul(&self) -> (r: &[u8])
        ensures
            r@ == self@,
            r@.len() > 0 && r@.last() == 0 && nul_free(r@.drop_last()),
    {
        proof {
            use_type_invariant(self);
        }
        self.bytes.as_slice()
    }
}

} // verus!
