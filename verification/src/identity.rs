//! Account addresses.

use vstd::prelude::*;

verus! {

/// The address of an account, an asset or a program: 32 bytes.
#[derive(Clone, Copy, Debug)]
pub struct Identity {
    pub bytes: [u8; 32],
}

/// The array that agrees with `s` on its first `n` places and is zero after them.
spec fn array_with_prefix(s: Seq<u8>, n: nat) -> [u8; 32]
    decreases n,
{
    if n == 0 {
        vstd::array::spec_array_fill_for_copy_type::<u8, 32>(0u8)
    } else {
        vstd::array::spec_array_update(array_with_prefix(s, (n - 1) as nat), n - 1, s[n - 1])
    }
}

proof fn lemma_array_with_prefix(s: Seq<u8>, n: nat)
    requires
        n <= 32,
        n <= s.len(),
    ensures
        forall|j: int| 0 <= j < n ==> array_with_prefix(s, n)@[j] == s[j],
    decreases n,
{
    if n > 0 {
        lemma_array_with_prefix(s, (n - 1) as nat);
    }
}

impl View for Identity {
    type V = Seq<u8>;

    open spec fn view(&self) -> Seq<u8> {
        self.bytes@
    }
}

impl Identity {
    /// The identity whose bytes are `s`, for a sequence of 32 bytes.
    pub closed spec fn of(s: Seq<u8>) -> Identity {
        Identity { bytes: array_with_prefix(s, 32) }
    }

    /// `of` builds the identity with the given bytes.
    pub proof fn lemma_of(s: Seq<u8>)
        requires
            s.len() == 32,
        ensures
            Identity::of(s)@ == s,
    {
        lemma_array_with_prefix(s, 32);
        assert(Identity::of(s).bytes@ =~= s);
    }

    /// An identity is determined by its bytes.
    pub proof fn lemma_of_view(self)
        ensures
            self@.len() == 32,
            Identity::of(self@) == self,
    {
        Identity::lemma_of(self@);
        assert(Identity::of(self@).bytes =~= self.bytes);
    }

    pub fn new(bytes: [u8; 32]) -> (id: Identity)
        ensures
            id.bytes == bytes,
    {
        Identity { bytes }
    }

    /// Reads the identity that stands at offset `at` of `data`.
    pub fn from_slice(data: &[u8], at: usize) -> (id: Identity)
        requires
            at + 32 <= data.len(),
        ensures
            id == Identity::of(data@.subrange(at as int, at + 32)),
            id@ == data@.subrange(at as int, at + 32),
    {
        let mut bytes = [0u8; 32];
        let mut i: usize = 0;
        while i < 32
            invariant
                i <= 32,
                at + 32 <= data.len(),
                forall|j: int| 0 <= j < i ==> bytes@[j] == data@[at + j],
            decreases 32 - i,
        {
            bytes[i] = data[at + i];
            i += 1;
        }
        let id = Identity { bytes };
        proof {
            Identity::lemma_of(data@.subrange(at as int, at + 32));
            assert(id.bytes =~= Identity::of(data@.subrange(at as int, at + 32)).bytes);
        }
        id
    }

    /// Appends the 32 bytes to `out`.
    pub fn append_to(&self, out: &mut Vec<u8>)
        ensures
            final(out)@ == old(out)@ + self@,
    {
        let mut i: usize = 0;
        while i < 32
            invariant
                i <= 32,
                out@ == old(out)@ + self@.subrange(0, i as int),
            decreases 32 - i,
        {
            out.push(self.bytes[i]);
            i += 1;
            assert(out@ =~= old(out)@ + self@.subrange(0, i as int));
        }
        assert(self@.subrange(0, 32) =~= self@);
    }

    /// The 32 bytes as a vector.
    pub fn to_vec(&self) -> (v: Vec<u8>)
        ensures
            v@ == self@,
    {
        let mut v: Vec<u8> = Vec::new();
        self.append_to(&mut v);
        assert(v@ =~= self@);
        v
    }
}

impl PartialEq for Identity {
    fn eq(&self, other: &Identity) -> (r: bool) {
        let mut i: usize = 0;
        while i < 32
            invariant
                i <= 32,
                forall|j: int| 0 <= j < i ==> self.bytes@[j] == other.bytes@[j],
            decreases 32 - i,
        {
            if self.bytes[i] != other.bytes[i] {
                return false;
            }
            i += 1;
        }
        proof {
            assert(self.bytes =~= other.bytes);
        }
        true
    }
}

impl vstd::std_specs::cmp::PartialEqSpecImpl for Identity {
    open spec fn obeys_eq_spec() -> bool {
        true
    }

    open spec fn eq_spec(&self, other: &Identity) -> bool {
        *self == *other
    }
}

impl Eq for Identity {

}

} // verus!
