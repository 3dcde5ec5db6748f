use vstd::prelude::*;

verus! {

/// The verified public identity of a caller: 32 opaque bytes.
#[derive(Clone, Copy, Debug)]
pub struct Identity {
    pub bytes: [u8; 32],
}

/// The bytes of the sentinel identity, held by a seat that nobody has taken.
pub open spec fn sentinel() -> Seq<u8> {
    Seq::new(32, |_i: int| 0u8)
}

impl View for Identity {
    type V = Seq<u8>;

    open spec fn view(&self) -> Seq<u8> {
        self.bytes@
    }
}

impl Identity {
    /// The sentinel identity: all zero bytes.
    pub fn empty() -> (r: Identity)
        ensures
            r@ == sentinel(),
    {
        let r = Identity { bytes: [0u8; 32] };
        assert(r@ =~= sentinel());
        r
    }

    /// The identity with the given bytes.
    pub fn from_bytes(bytes: [u8; 32]) -> (r: Identity)
        ensures
            r@ == bytes@,
    {
        Identity { bytes }
    }
}

impl PartialEq for Identity {
    fn eq(&self, o: &Identity) -> (r: bool) {
        let mut i: usize = 0;
        while i < 32
            invariant
                0 <= i <= 32,
                forall|j: int| 0 <= j < i ==> self@[j] == o@[j],
            decreases 32 - i,
        {
            if self.bytes[i] != o.bytes[i] {
                return false;
            }
            i = i + 1;
        }
        assert(self@ =~= o@);
        true
    }
}

impl vstd::std_specs::cmp::PartialEqSpecImpl for Identity {
    open spec fn obeys_eq_spec() -> bool {
        true
    }

    open spec fn eq_spec(&self, o: &Identity) -> bool {
        self@ == o@
    }
}

impl Eq for Identity {
}

} // verus!
