//! The request assembler: it collects the decrypted bytes of one connection,
//! says when the request is complete, and gives the bytes out once.

use vstd::prelude::*;

verus! {

/// The decrypted bytes of one connection, in the order in which they came,
/// and whether they have been given out.
pub struct Assembler {
    buffer: Vec<u8>,
    submitted: bool,
    given: Ghost<Seq<u8>>,
}

/// A request is complete exactly when a turn of the driver read no ciphertext
/// and brought no plaintext.
pub open spec fn complete(ciphertext: nat, plaintext: nat) -> bool {
    ciphertext == 0 && plaintext == 0
}

/// Whether a turn that read `ciphertext` bytes and brought `plaintext` bytes
/// ends the request.
pub fn is_complete(ciphertext: usize, plaintext: usize) -> (b: bool)
    ensures
        b == complete(ciphertext as nat, plaintext as nat),
{
    ciphertext == 0 && plaintext == 0
}

impl Assembler {
    /// The bytes collected and not yet given out.
    pub closed spec fn bytes(&self) -> Seq<u8> {
        self.buffer@
    }

    /// The bytes that were given out, or `None` as long as none were.
    pub closed spec fn submission(&self) -> Option<Seq<u8>> {
        if self.submitted {
            Some(self.given@)
        } else {
            None
        }
    }

    pub fn new() -> (a: Assembler)
        ensures
            a.bytes() == Seq::<u8>::empty(),
            a.submission() is None,
    {
        Assembler { buffer: Vec::new(), submitted: false, given: Ghost(Seq::empty()) }
    }

    /// The number of bytes collected and not yet given out.
    pub fn len(&self) -> (n: usize)
        ensures
            n == self.bytes().len(),
    {
        self.buffer.len()
    }

    /// Whether the bytes have been given out.
    pub fn is_submitted(&self) -> (b: bool)
        ensures
            b == self.submission() is Some,
    {
        self.submitted
    }

    /// Takes in the plaintext of one turn, behind what is already held.  After
    /// the bytes have been given out, nothing more is taken in.
    pub fn accumulate(&mut self, plaintext: &[u8])
        ensures
            final(self).submission() == old(self).submission(),
            old(self).submission() is None ==> final(self).bytes() == old(self).bytes()
                + plaintext@,
            old(self).submission() is Some ==> final(self).bytes() == old(self).bytes(),
    {
        if !self.submitted {
            let ghost before = self.buffer@;
            self.buffer.extend_from_slice(plaintext);
            assert(self.buffer@ =~= before + plaintext@);
        }
    }

    /// Gives out the collected bytes, the first time it is called; after that
    /// it gives nothing and changes nothing.
    pub fn submit(&mut self) -> (request: Option<Vec<u8>>)
        ensures
            old(self).submission() is None ==> {
                &&& request is Some
                &&& request->0@ == old(self).bytes()
                &&& final(self).submission() == Some(old(self).bytes())
                &&& final(self).bytes() == Seq::<u8>::empty()
            },
            old(self).submission() is Some ==> {
                &&& request is None
                &&& final(self).submission() == old(self).submission()
                &&& final(self).bytes() == old(self).bytes()
            },
    {
        if self.submitted {
            None
        } else {
            let mut bytes: Vec<u8> = Vec::new();
            std::mem::swap(&mut self.buffer, &mut bytes);
            self.submitted = true;
            self.given = Ghost(bytes@);
            Some(bytes)
        }
    }
}

} // verus!
