//! The bounded capture of what a running tool writes to one stream: the
//! first bytes and the last bytes, each at most a limit, and how many
//! bytes came in all.
use vstd::prelude::*;

verus! {

/// What has been kept of one output stream of a tool.
#[derive(Debug)]
pub struct ToolStreamOutput {
    pub head: Vec<u8>,
    pub tail: Vec<u8>,
    pub bytes: usize,
    pub truncated: bool,
    pub spool_path: Option<String>,
}

/// The head after `chunk` came: the head, filled up to `limit` bytes.
pub open spec fn head_after(head: Seq<u8>, chunk: Seq<u8>, limit: nat) -> Seq<u8> {
    if head.len() < limit {
        let room = (limit - head.len()) as nat;
        head + chunk.subrange(0, if chunk.len() < room { chunk.len() as int } else { room as int })
    } else {
        head
    }
}

/// The tail after `chunk` came: the last `limit` bytes of the tail and
/// the chunk.
pub open spec fn tail_after(tail: Seq<u8>, chunk: Seq<u8>, limit: nat) -> Seq<u8> {
    let joined = tail + chunk;
    if joined.len() > limit {
        joined.subrange(joined.len() - limit, joined.len() as int)
    } else {
        joined
    }
}

fn push_bytes(v: &mut Vec<u8>, chunk: &[u8], n: usize)
    requires
        n <= chunk@.len(),
    ensures
        final(v)@ == old(v)@ + chunk@.subrange(0, n as int),
{
    let mut i: usize = 0;
    while i < n
        invariant
            i <= n,
            n <= chunk@.len(),
            v@ == old(v)@ + chunk@.subrange(0, i as int),
        decreases n - i,
    {
        v.push(chunk[i]);
        assert(chunk@.subrange(0, i + 1) =~= chunk@.subrange(0, i as int).push(chunk@[i as int]));
        i = i + 1;
    }
}

impl ToolStreamOutput {
    /// Nothing captured yet.
    pub fn empty() -> (r: ToolStreamOutput)
        ensures
            r.head@.len() == 0,
            r.tail@.len() == 0,
            r.bytes == 0,
            !r.truncated,
            r.spool_path is None,
    {
        ToolStreamOutput { head: Vec::new(), tail: Vec::new(), bytes: 0, truncated: false, spool_path: None }
    }

    /// Takes in `chunk` with heads and tails of at most `limit` bytes: the
    /// head fills up to the limit, the tail keeps the last `limit` bytes
    /// (and the capture counts as truncated once the tail dropped a
    /// byte), and the byte count grows, saturating.
    pub fn append_bounded(&mut self, chunk: &[u8], limit: usize)
        requires
            old(self).tail@.len() + chunk@.len() <= usize::MAX,
        ensures
            final(self).head@ == head_after(old(self).head@, chunk@, limit as nat),
            final(self).tail@ == tail_after(old(self).tail@, chunk@, limit as nat),
            final(self).truncated == (old(self).truncated || old(self).tail@.len() + chunk@.len() > limit),
            final(self).bytes == (if old(self).bytes + chunk@.len() > usize::MAX {
                usize::MAX as int
            } else {
                old(self).bytes + chunk@.len()
            }),
            final(self).spool_path == old(self).spool_path,
    {
        let head_remaining = if self.head.len() < limit { limit - self.head.len() } else { 0 };
        if head_remaining > 0 {
            let n = if chunk.len() < head_remaining { chunk.len() } else { head_remaining };
            push_bytes(&mut self.head, chunk, n);
        }
        let ghost joined = self.tail@ + chunk@;
        push_bytes(&mut self.tail, chunk, chunk.len());
        assert(chunk@.subrange(0, chunk@.len() as int) =~= chunk@);
        if self.tail.len() > limit {
            let excess = self.tail.len() - limit;
            let kept = self.tail.split_off(excess);
            self.tail = kept;
            self.truncated = true;
        }
        self.bytes = self.bytes.saturating_add(chunk.len());
    }
}

/// A head never holds more than the limit, and a tail after a chunk
/// never does either.
pub proof fn law_capture_is_bounded(head: Seq<u8>, tail: Seq<u8>, chunk: Seq<u8>, limit: nat)
    requires
        head.len() <= limit,
    ensures
        head_after(head, chunk, limit).len() <= limit,
        tail_after(tail, chunk, limit).len() <= limit,
        head_after(head, chunk, limit).subrange(0, head.len() as int) == head,
{
    let h = head_after(head, chunk, limit);
    assert(h.subrange(0, head.len() as int) =~= head);
}

} // verus!
