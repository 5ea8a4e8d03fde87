use vstd::prelude::*;

verus! {

/// Length in bytes of every on-ledger identity.
pub const ADDRESS_LEN: usize = 32;

/// An on-ledger identity: the address of an account, a mint, a collection or
/// a program. The surrounding ledger identifies everything by a 32-byte key;
/// the rules below only ever compare these keys and pass them on.
#[derive(Debug)]
pub struct Address {
    pub bytes: Vec<u8>,
}

impl View for Address {
    type V = Seq<u8>;

    open spec fn view(&self) -> Seq<u8> {
        self.bytes@
    }
}

impl Address {
    /// A well-formed identity has exactly the ledger's key width.
    pub open spec fn wf(&self) -> bool {
        self@.len() == ADDRESS_LEN
    }

    pub fn new(bytes: Vec<u8>) -> (r: Address)
        ensures
            r@ == bytes@,
    {
        Address { bytes }
    }

    pub fn bytes(&self) -> (r: &Vec<u8>)
        ensures
            r@ == self@,
    {
        &self.bytes
    }

    pub fn len(&self) -> (r: usize)
        ensures
            r == self@.len(),
    {
        self.bytes.len()
    }

    /// Byte-wise equality of two identities.
    pub fn eq_address(&self, other: &Address) -> (r: bool)
        ensures
            r == (self@ == other@),
    {
        let r = self.bytes == other.bytes;
        proof {
            if self.bytes@ =~= other.bytes@ {
                assert(self@ == other@);
            }
        }
        r
    }

    /// Byte-wise equality against a raw key.
    pub fn eq_bytes(&self, other: &Vec<u8>) -> (r: bool)
        ensures
            r == (self@ == other@),
    {
        let r = self.bytes == *other;
        proof {
            if self.bytes@ =~= other@ {
                assert(self@ == other@);
            }
        }
        r
    }

    /// An independent copy of the identity.
    pub fn dup(&self) -> (r: Address)
        ensures
            r@ == self@,
    {
        let mut bytes: Vec<u8> = Vec::new();
        let n = self.bytes.len();
        let mut i: usize = 0;
        while i < n
            invariant
                i <= n,
                n == self.bytes@.len(),
                bytes@ =~= self.bytes@.subrange(0, i as int),
            decreases n - i,
        {
            bytes.push(self.bytes[i]);
            i = i + 1;
        }
        proof {
            assert(bytes@ =~= self.bytes@);
        }
        Address { bytes }
    }
}

} // verus!
