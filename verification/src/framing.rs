//! Where the ciphertext of a connection stands in the TLS record layer.
//!
//! A TLS record is a header of five bytes and a body; the last two bytes of the
//! header give the length of the body, high byte first.  The TLS session
//! decides what the records hold and whether they are in order.  What this
//! file follows is only where one record ends and the next begins, so that the
//! driver can tell a stream that ended between two records from one that was
//! cut off inside a record.

use vstd::prelude::*;

verus! {

/// Whether `bytes` is a run of whole records: nothing, or a whole record
/// followed by a run of whole records.
pub open spec fn whole_records(bytes: Seq<u8>) -> bool
    decreases bytes.len(),
{
    if bytes.len() == 0 {
        true
    } else if bytes.len() < 5 {
        false
    } else {
        let body = bytes[3] as int * 256 + bytes[4] as int;
        bytes.len() >= 5 + body && whole_records(bytes.skip(5 + body))
    }
}

/// A position in the record layer: `seen` bytes of a header have gone by, or
/// `left` bytes of a body are still to come.  With four header bytes seen,
/// `high` is the fourth.
pub struct Frame {
    pub seen: nat,
    pub high: nat,
    pub left: nat,
}

impl Frame {
    /// The position before the first byte.
    pub open spec fn start() -> Frame {
        Frame { seen: 0, high: 0, left: 0 }
    }

    /// The position inside a body with `left` bytes to come, or between two
    /// records where `left` is zero.
    pub open spec fn body(left: nat) -> Frame {
        Frame { seen: 0, high: 0, left }
    }

    /// Between two records.
    pub open spec fn at_boundary(self) -> bool {
        self.seen == 0 && self.left == 0
    }

    /// The positions that a stream can come to.
    pub open spec fn valid(self) -> bool {
        &&& self.seen <= 4
        &&& self.high <= 255
        &&& self.left <= 65535
        &&& self.left > 0 ==> self.seen == 0
        &&& self.seen != 4 ==> self.high == 0
    }

    /// The position one byte on.
    pub open spec fn take(self, byte: u8) -> Frame {
        if self.left > 0 {
            Frame::body((self.left - 1) as nat)
        } else if self.seen < 3 {
            Frame { seen: self.seen + 1, high: 0, left: 0 }
        } else if self.seen == 3 {
            Frame { seen: 4, high: byte as nat, left: 0 }
        } else {
            Frame::body(self.high * 256 + byte as nat)
        }
    }

    /// The position after `bytes`.
    pub open spec fn scan(self, bytes: Seq<u8>) -> Frame
        decreases bytes.len(),
    {
        if bytes.len() == 0 {
            self
        } else {
            self.scan(bytes.drop_last()).take(bytes.last())
        }
    }
}

/// The position after two runs of bytes is the position after the second run,
/// from where the first one led: how a stream is cut into reads does not
/// matter.
pub proof fn lemma_scan_in_pieces(from: Frame, first: Seq<u8>, second: Seq<u8>)
    ensures
        from.scan(first + second) == from.scan(first).scan(second),
    decreases second.len(),
{
    if second.len() == 0 {
        assert(first + second =~= first);
    } else {
        assert((first + second).drop_last() =~= first + second.drop_last());
        assert((first + second).last() == second.last());
        lemma_scan_in_pieces(from, first, second.drop_last());
    }
}

/// A valid position stays valid.
pub proof fn lemma_scan_stays_valid(from: Frame, bytes: Seq<u8>)
    requires
        from.valid(),
    ensures
        from.scan(bytes).valid(),
    decreases bytes.len(),
{
    if bytes.len() > 0 {
        lemma_scan_stays_valid(from, bytes.drop_last());
    }
}

/// Inside a body, bytes only count down what is left of it.
pub proof fn lemma_scan_inside_body(left: nat, bytes: Seq<u8>)
    requires
        bytes.len() <= left,
    ensures
        Frame::body(left).scan(bytes) == Frame::body((left - bytes.len()) as nat),
    decreases bytes.len(),
{
    if bytes.len() > 0 {
        lemma_scan_inside_body(left, bytes.drop_last());
    }
}

/// Fewer than five bytes from the start are part of a header.
proof fn lemma_scan_inside_header(bytes: Seq<u8>)
    requires
        bytes.len() < 5,
    ensures
        Frame::start().scan(bytes).seen == bytes.len(),
        Frame::start().scan(bytes).left == 0,
        bytes.len() == 4 ==> Frame::start().scan(bytes).high == bytes[3] as nat,
        bytes.len() < 4 ==> Frame::start().scan(bytes).high == 0,
    decreases bytes.len(),
{
    if bytes.len() > 0 {
        lemma_scan_inside_header(bytes.drop_last());
    }
}

/// A whole header from the start leads into the body, whose length the header
/// gives.
proof fn lemma_scan_header(bytes: Seq<u8>)
    requires
        bytes.len() == 5,
    ensures
        Frame::start().scan(bytes) == Frame::body(bytes[3] as nat * 256 + bytes[4] as nat),
{
    lemma_scan_inside_header(bytes.drop_last());
}

/// A stream ends between two records exactly where it is a run of whole
/// records.
pub proof fn lemma_boundary_means_whole_records(bytes: Seq<u8>)
    ensures
        Frame::start().scan(bytes).at_boundary() <==> whole_records(bytes),
    decreases bytes.len(),
{
    if bytes.len() == 0 {
    } else if bytes.len() < 5 {
        lemma_scan_inside_header(bytes);
    } else {
        let body = bytes[3] as nat * 256 + bytes[4] as nat;
        let header = bytes.take(5);
        let behind = bytes.skip(5);
        assert(bytes =~= header + behind);
        lemma_scan_in_pieces(Frame::start(), header, behind);
        lemma_scan_header(header);
        if behind.len() < body {
            lemma_scan_inside_body(body, behind);
        } else {
            let rest = bytes.skip(5 + body as int);
            assert(behind =~= behind.take(body as int) + rest);
            lemma_scan_in_pieces(Frame::body(body), behind.take(body as int), rest);
            lemma_scan_inside_body(body, behind.take(body as int));
            lemma_boundary_means_whole_records(rest);
        }
    }
}

/// Follows the ciphertext of one connection through the record layer.
pub struct Framer {
    seen: u8,
    high: u8,
    left: usize,
    stream: Ghost<Seq<u8>>,
}

impl Framer {
    /// The position that the counters stand for.
    spec fn frame(self) -> Frame {
        Frame { seen: self.seen as nat, high: self.high as nat, left: self.left as nat }
    }

    /// The counters give the position after all the bytes that have gone by.
    #[verifier::type_invariant]
    spec fn inv(self) -> bool {
        self.frame().valid() && self.frame() == Frame::start().scan(self.stream@)
    }

    /// All the bytes that have gone by, in order.
    pub closed spec fn stream(&self) -> Seq<u8> {
        self.stream@
    }

    pub fn new() -> (framer: Framer)
        ensures
            framer.stream() == Seq::<u8>::empty(),
    {
        Framer { seen: 0, high: 0, left: 0, stream: Ghost(Seq::empty()) }
    }

    /// Lets the bytes of one read go by.
    pub fn push(&mut self, bytes: &[u8])
        ensures
            final(self).stream() == old(self).stream() + bytes@,
    {
        proof {
            use_type_invariant(&*self);
        }
        let ghost from = self.frame();
        let mut seen: u8 = self.seen;
        let mut high: u8 = self.high;
        let mut left: usize = self.left;
        let mut at: usize = 0;
        while at < bytes.len()
            invariant
                at <= bytes@.len(),
                from.valid(),
                (Frame { seen: seen as nat, high: high as nat, left: left as nat }) == from.scan(
                    bytes@.take(at as int),
                ),
            decreases bytes@.len() - at,
        {
            let ghost here = Frame { seen: seen as nat, high: high as nat, left: left as nat };
            proof {
                lemma_scan_stays_valid(from, bytes@.take(at as int));
            }
            if left > 0 {
                let ahead = bytes.len() - at;
                let run = if left < ahead {
                    left
                } else {
                    ahead
                };
                proof {
                    let passed = bytes@.subrange(at as int, at + run);
                    assert(bytes@.take(at + run) =~= bytes@.take(at as int) + passed);
                    lemma_scan_in_pieces(from, bytes@.take(at as int), passed);
                    lemma_scan_inside_body(left as nat, passed);
                }
                left = left - run;
                at = at + run;
            } else {
                let byte = bytes[at];
                proof {
                    assert(bytes@.take(at + 1).drop_last() =~= bytes@.take(at as int));
                    assert(bytes@.take(at + 1).last() == byte);
                }
                if seen < 3 {
                    seen = seen + 1;
                } else if seen == 3 {
                    seen = 4;
                    high = byte;
                } else {
                    left = high as usize * 256 + byte as usize;
                    seen = 0;
                    high = 0;
                }
                at = at + 1;
            }
        }
        proof {
            assert(bytes@.take(at as int) =~= bytes@);
            lemma_scan_in_pieces(Frame::start(), self.stream@, bytes@);
            lemma_scan_stays_valid(from, bytes@);
        }
        *self = Framer { seen, high, left, stream: Ghost(self.stream@ + bytes@) };
    }

    /// Whether the bytes that have gone by are a run of whole records.
    pub fn at_boundary(&self) -> (b: bool)
        ensures
            b == whole_records(self.stream()),
    {
        proof {
            use_type_invariant(self);
            lemma_boundary_means_whole_records(self.stream@);
        }
        self.seen == 0 && self.left == 0
    }
}

} // verus!
