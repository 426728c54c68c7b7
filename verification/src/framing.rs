//! Message framing over the raw byte stream.  A transport read hands
//! back whatever bytes arrived, so one read may carry half a message or
//! several at once; the frames are newline-delimited (the wire text is
//! newline-free JSON), and a per-connection buffer reassembles them.

use vstd::prelude::*;
use vstd::string::StringExecFns;

verus! {

/// The newline delimiter that ends each frame.
pub open spec fn spec_delim() -> u8 {
    10
}

/// Index of the first delimiter at or after position `k`, or -1.
pub open spec fn find_delim_from(s: Seq<u8>, k: int) -> int
    decreases s.len() - k,
{
    if k < 0 || k >= s.len() {
        -1
    } else if s[k] == spec_delim() {
        k
    } else {
        find_delim_from(s, k + 1)
    }
}

/// What `find_delim_from` returns: the first delimiter at or after `k`,
/// if any.
pub proof fn lemma_find_delim_from(s: Seq<u8>, k: int)
    requires
        0 <= k <= s.len(),
    ensures
        find_delim_from(s, k) == -1 ==> forall|j: int|
            k <= j < s.len() ==> #[trigger] s[j] != spec_delim(),
        find_delim_from(s, k) != -1 ==> {
            let i = find_delim_from(s, k);
            &&& k <= i < s.len()
            &&& s[i] == spec_delim()
            &&& forall|j: int| k <= j < i ==> #[trigger] s[j] != spec_delim()
        },
    decreases s.len() - k,
{
    if k < s.len() && s[k] != spec_delim() {
        lemma_find_delim_from(s, k + 1);
    }
}

/// One connection's reassembly buffer: the bytes received so far that
/// no extracted frame has consumed yet.
pub struct FrameBuffer {
    buf: Vec<u8>,
}

impl View for FrameBuffer {
    type V = Seq<u8>;

    closed spec fn view(&self) -> Seq<u8> {
        self.buf@
    }
}

impl FrameBuffer {
    pub fn new() -> (r: Self)
        ensures
            r@ == Seq::<u8>::empty(),
    {
        let r = FrameBuffer { buf: Vec::new() };
        proof {
            assert(r@ =~= Seq::<u8>::empty());
        }
        r
    }

    /// Take in the bytes one transport read delivered.  The buffer's
    /// contents depend only on the bytes' concatenation, never on how
    /// the stream was cut into reads.
    pub fn push_bytes(&mut self, chunk: &[u8])
        ensures
            final(self)@ == old(self)@ + chunk@,
    {
        let mut j: usize = 0;
        while j < chunk.len()
            invariant
                0 <= j <= chunk@.len(),
                self.buf@ == old(self)@ + chunk@.subrange(0, j as int),
            decreases chunk@.len() - j,
        {
            self.buf.push(chunk[j]);
            proof {
                assert(old(self)@ + chunk@.subrange(0, j as int + 1) =~= (old(self)@
                    + chunk@.subrange(0, j as int)).push(chunk@[j as int]));
            }
            j = j + 1;
        }
        proof {
            assert(chunk@.subrange(0, chunk@.len() as int) =~= chunk@);
        }
    }

    /// Take the next whole frame out of the buffer: the bytes before
    /// the first delimiter, which leave the buffer together with the
    /// delimiter itself.  `None`, and the buffer untouched, while no
    /// whole frame has arrived yet.
    pub fn next_frame(&mut self) -> (r: Option<Vec<u8>>)
        ensures
            ({
                let i = find_delim_from(old(self)@, 0);
                match r {
                    Some(frame) => i != -1 && frame@ == old(self)@.subrange(0, i) && final(self)@
                        == old(self)@.subrange(i + 1, old(self)@.len() as int),
                    None => i == -1 && final(self)@ == old(self)@,
                }
            }),
    {
        let mut i: usize = 0;
        let mut found = false;
        while i < self.buf.len() && !found
            invariant
                0 <= i <= self.buf@.len(),
                self.buf@ == old(self)@,
                found ==> i < self.buf@.len() && self.buf@[i as int] == spec_delim(),
                !found ==> find_delim_from(self.buf@, 0) == find_delim_from(self.buf@, i as int),
                found ==> find_delim_from(self.buf@, 0) == i,
            decreases self.buf@.len() - i, (if found { 0int } else { 1int }),
        {
            if self.buf[i] == 10 {
                found = true;
            } else {
                i = i + 1;
            }
        }
        if !found {
            return None;
        }
        let mut frame: Vec<u8> = Vec::new();
        let mut j: usize = 0;
        while j < i
            invariant
                0 <= j <= i,
                i < self.buf@.len(),
                self.buf@ == old(self)@,
                frame@ == self.buf@.subrange(0, j as int),
            decreases i - j,
        {
            frame.push(self.buf[j]);
            proof {
                assert(self.buf@.subrange(0, j as int + 1) =~= self.buf@.subrange(
                    0,
                    j as int,
                ).push(self.buf@[j as int]));
            }
            j = j + 1;
        }
        let mut rest: Vec<u8> = Vec::new();
        let mut k: usize = i + 1;
        while k < self.buf.len()
            invariant
                i + 1 <= k <= self.buf@.len(),
                self.buf@ == old(self)@,
                rest@ == self.buf@.subrange(i as int + 1, k as int),
            decreases self.buf@.len() - k,
        {
            rest.push(self.buf[k]);
            proof {
                assert(self.buf@.subrange(i as int + 1, k as int + 1) =~= self.buf@.subrange(
                    i as int + 1,
                    k as int,
                ).push(self.buf@[k as int]));
            }
            k = k + 1;
        }
        self.buf = rest;
        Some(frame)
    }

    /// How many bytes wait in the buffer.
    pub fn pending_len(&self) -> (n: usize)
        ensures
            n == self@.len(),
    {
        self.buf.len()
    }
}

/// Wrap one outbound message in its frame: the text with the delimiter
/// after it.
pub fn frame_message(message: &str) -> (r: String)
    ensures
        r@ == message@ + "\n"@,
{
    let mut s = message.to_owned();
    s.append("\n");
    s
}

} // verus!
