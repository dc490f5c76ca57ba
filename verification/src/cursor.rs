//! A forward-only cursor over input bytes.

use vstd::prelude::*;

verus! {

/// Bytes read from the terminal, handed out one at a time and never taken
/// back.
pub struct ByteCursor {
    bytes: Vec<u8>,
    pos: usize,
}

impl ByteCursor {
    #[verifier::type_invariant]
    spec fn inv(self) -> bool {
        self.pos <= self.bytes.len()
    }

    /// The bytes not handed out yet, in order.
    pub closed spec fn remaining(&self) -> Seq<u8> {
        self.bytes@.skip(self.pos as int)
    }

    /// A cursor in front of the first of `bytes`.
    pub fn new(bytes: Vec<u8>) -> (cur: Self)
        ensures
            cur.remaining() == bytes@,
    {
        ByteCursor { bytes, pos: 0 }
    }

    /// How many bytes are left.
    pub fn len(&self) -> (n: usize)
        ensures
            n == self.remaining().len(),
    {
        proof {
            use_type_invariant(self);
        }
        self.bytes.len() - self.pos
    }

    /// Hands out the next byte, if one is left.
    pub fn next(&mut self) -> (b: Option<u8>)
        ensures
            match b {
                Some(v) => old(self).remaining().len() > 0 && v == old(self).remaining()[0]
                    && final(self).remaining() == old(self).remaining().skip(1),
                None => old(self).remaining().len() == 0 && final(self).remaining() == old(
                    self,
                ).remaining(),
            },
    {
        proof {
            use_type_invariant(&*self);
        }
        if self.pos < self.bytes.len() {
            let v = self.bytes[self.pos];
            self.pos = self.pos + 1;
            Some(v)
        } else {
            None
        }
    }
}

} // verus!
