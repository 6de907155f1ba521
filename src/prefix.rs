//! Replay of bytes that were read from a transport before the driver took it
//! over (protocol sniffing), ahead of live reads.
use vstd::prelude::*;
use crate::bytes_spec::{bytes_content, bytes_to_vec};

verus! {

/// The not yet replayed bytes of a transport: `None` once all have been
/// handed out, after which reads go to the transport itself.
pub struct PrefixBuffer {
    pub unread: Option<bytes::Bytes>,
}

impl PrefixBuffer {
    /// The bytes still to replay (empty once the buffer has run dry).
    pub open spec fn pending(&self) -> Seq<u8> {
        match self.unread {
            Some(b) => bytes_content(b),
            None => Seq::empty(),
        }
    }

    pub fn new(buf: bytes::Bytes) -> (r: Self)
        ensures
            r.unread == Some(buf),
    {
        PrefixBuffer { unread: Some(buf) }
    }

    /// Copies the front of the pending bytes into `buf`, as many as fit, and
    /// returns how many; keeps the rest for the next read. Returns `None`,
    /// leaving `buf` as it is, once nothing is pending (the buffer is then
    /// dropped): the caller reads the transport instead.
    pub fn read(&mut self, buf: &mut [u8]) -> (r: Option<usize>)
        ensures
            old(self).pending().len() == 0 ==> r is None && final(self).unread is None
                && final(buf)@ == old(buf)@,
            old(self).pending().len() > 0 ==> ({
                let p = old(self).pending();
                let n = if old(buf)@.len() < p.len() { old(buf)@.len() } else { p.len() };
                &&& r == Some(n as usize)
                &&& final(buf)@.len() == old(buf)@.len()
                &&& final(buf)@.subrange(0, n as int) == p.subrange(0, n as int)
                &&& final(buf)@.subrange(n as int, old(buf)@.len() as int)
                    == old(buf)@.subrange(n as int, old(buf)@.len() as int)
                &&& if n < p.len() {
                    final(self).unread is Some && final(self).pending() == p.subrange(
                        n as int,
                        p.len() as int,
                    )
                } else {
                    final(self).unread is None
                }
            }),
    {
        match self.unread.take() {
            None => None,
            Some(mut bytes) => {
                let total = bytes.len();
                if total == 0 {
                    return None;
                }
                let size: usize = if buf.len() < total { buf.len() } else { total };
                let head = bytes.split_to(size);
                let data = bytes_to_vec(&head);
                let ghost b0 = buf@;
                let mut i: usize = 0;
                while i < size
                    invariant
                        size <= buf@.len(),
                        data@.len() == size,
                        buf@.len() == b0.len(),
                        i <= size,
                        forall|k: int| 0 <= k < i ==> buf@[k] == data@[k],
                        forall|k: int| size <= k < b0.len() ==> buf@[k] == b0[k],
                    decreases size - i,
                {
                    buf[i] = data[i];
                    i = i + 1;
                }
                assert(buf@.subrange(0, size as int) =~= data@);
                assert(buf@.subrange(size as int, b0.len() as int) =~= b0.subrange(
                    size as int,
                    b0.len() as int,
                ));
                if size < total {
                    self.unread = Some(bytes);
                }
                Some(size)
            },
        }
    }
}

} // verus!
