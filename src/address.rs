use vstd::prelude::*;

verus! {

/// Length in bytes of an account address.
pub const ADDRESS_LEN: usize = 32;

/// An account address: thirty-two raw bytes.
#[derive(Clone, Copy, Debug)]
pub struct Address {
    pub bytes: [u8; 32],
}

impl View for Address {
    type V = Seq<u8>;

    open spec fn view(&self) -> Seq<u8> {
        self.bytes@
    }
}

impl Address {
    pub fn new(bytes: [u8; 32]) -> (r: Address)
        ensures
            r@ == bytes@,
    {
        Address { bytes }
    }

    /// Compares two addresses byte by byte.
    pub fn same_as(&self, other: &Address) -> (r: bool)
        ensures
            r == (self@ == other@),
    {
        let mut i: usize = 0;
        while i < ADDRESS_LEN
            invariant
                0 <= i <= ADDRESS_LEN,
                self@.len() == ADDRESS_LEN,
                other@.len() == ADDRESS_LEN,
                forall|j: int| 0 <= j < i ==> self@[j] == other@[j],
            decreases ADDRESS_LEN - i,
        {
            if self.bytes[i] != other.bytes[i] {
                return false;
            }
            i = i + 1;
        }
        assert(self@ =~= other@);
        true
    }

    /// Copies the address's bytes into a fresh vector.
    pub fn to_vec(&self) -> (r: Vec<u8>)
        ensures
            r@ == self@,
    {
        let mut v: Vec<u8> = Vec::new();
        let mut i: usize = 0;
        while i < ADDRESS_LEN
            invariant
                0 <= i <= ADDRESS_LEN,
                self@.len() == ADDRESS_LEN,
                v@ == self@.subrange(0, i as int),
            decreases ADDRESS_LEN - i,
        {
            v.push(self.bytes[i]);
            i = i + 1;
            assert(v@ =~= self@.subrange(0, i as int));
        }
        assert(self@.subrange(0, ADDRESS_LEN as int) =~= self@);
        v
    }

    /// Reads an address from `buf` at `offset`.
    pub fn read_from(buf: &[u8], offset: usize) -> (r: Address)
        requires
            offset + ADDRESS_LEN <= buf@.len(),
        ensures
            r@ == buf@.subrange(offset as int, offset + ADDRESS_LEN),
    {
        let n: usize = buf.len();
        let mut bytes: [u8; 32] = [0u8; 32];
        let mut i: usize = 0;
        while i < ADDRESS_LEN
            invariant
                0 <= i <= ADDRESS_LEN,
                offset + ADDRESS_LEN <= n,
                n == buf@.len(),
                bytes@.len() == ADDRESS_LEN,
                forall|j: int| 0 <= j < i ==> bytes@[j] == buf@[offset + j],
            decreases ADDRESS_LEN - i,
        {
            bytes[i] = buf[offset + i];
            i = i + 1;
        }
        let r = Address { bytes };
        assert(r@ =~= buf@.subrange(offset as int, offset + ADDRESS_LEN));
        r
    }
}

impl PartialEq for Address {
    fn eq(&self, other: &Address) -> (r: bool) {
        self.same_as(other)
    }
}

impl vstd::std_specs::cmp::PartialEqSpecImpl for Address {
    open spec fn obeys_eq_spec() -> bool {
        true
    }

    open spec fn eq_spec(&self, other: &Address) -> bool {
        self@ == other@
    }
}

} // verus!
