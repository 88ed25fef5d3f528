//! Progress accounting for one asset download: the declared total, the
//! running count of delivered bytes, and the verdict over a whole stream of
//! chunk outcomes.

use crate::errors::InstallError;
use vstd::prelude::*;

verus! {

/// Progress of one transfer: bytes counted so far against the total the
/// response declared. The count never runs past the total.
pub struct Transfer {
    pub total: u64,
    pub received: u64,
}

/// What the stream yielded for one chunk.
#[derive(Clone, Copy, Debug, PartialEq, Eq, Structural)]
pub enum ChunkOutcome {
    /// A chunk of this many bytes arrived and was written out.
    Delivered { len: u64 },
    /// The stream failed before yielding a chunk.
    ReadFailed,
    /// A chunk arrived but could not be written to the destination file.
    WriteFailed,
}

/// The running count after the given chunk lengths, capped at the total
/// after every chunk.
pub open spec fn spec_received(total: u64, lens: Seq<u64>) -> u64
    decreases lens.len(),
{
    if lens.len() == 0 {
        0u64
    } else {
        let prev = spec_received(total, lens.drop_last());
        if prev + lens.last() >= total {
            total
        } else {
            (prev + lens.last()) as u64
        }
    }
}

/// The byte lengths of a sequence of outcomes; failures count as zero.
pub open spec fn spec_lens(outcomes: Seq<ChunkOutcome>) -> Seq<u64> {
    outcomes.map_values(
        |c: ChunkOutcome|
            match c {
                ChunkOutcome::Delivered { len } => len,
                ChunkOutcome::ReadFailed => 0u64,
                ChunkOutcome::WriteFailed => 0u64,
            },
    )
}

/// True when every chunk arrived and was written.
pub open spec fn spec_all_delivered(outcomes: Seq<ChunkOutcome>) -> bool {
    forall|i: int| 0 <= i < outcomes.len() ==> outcomes[i] is Delivered
}

impl Transfer {
    /// The count never exceeds the declared total.
    pub open spec fn wf(&self) -> bool {
        self.received <= self.total
    }

    /// Begins a transfer for a response that declared `content_length`; a
    /// response that declared none is refused, with the URL in the message.
    pub fn start(content_length: Option<u64>, url: &str) -> (r: Result<Transfer, InstallError>)
        ensures
            r is Ok <==> content_length is Some,
            r matches Ok(t) ==> content_length == Some(t.total) && t.received == 0 && t.wf(),
            r matches Err(e) ==> e matches InstallError::Transfer { detail } && detail@
                == "failed to get content length for "@ + url@,
    {
        match content_length {
            Some(total) => Ok(Transfer { total, received: 0 }),
            None => {
                let detail = String::from_str("failed to get content length for ").concat(url);
                Err(InstallError::Transfer { detail })
            },
        }
    }

    /// Counts one delivered chunk, capping the running count at the total so
    /// that progress never overshoots what the response declared.
    pub fn record_chunk(&mut self, len: u64)
        requires
            old(self).wf(),
        ensures
            final(self).total == old(self).total,
            final(self).wf(),
            final(self).received == if old(self).received + len >= old(self).total {
                old(self).total
            } else {
                (old(self).received + len) as u64
            },
    {
        if len >= self.total - self.received {
            self.received = self.total;
        } else {
            self.received = self.received + len;
        }
    }
}

/// Replays a whole stream of chunk outcomes against a declared total: the
/// transfer succeeds, reporting the capped byte count, exactly when every
/// chunk arrived and was written; the first failure ends it with a transfer
/// error naming the URL.
pub fn run_transfer(total: u64, outcomes: &Vec<ChunkOutcome>, url: &str) -> (r: Result<
    u64,
    InstallError,
>)
    ensures
        r is Ok <==> spec_all_delivered(outcomes@),
        r matches Ok(n) ==> n == spec_received(total, spec_lens(outcomes@)),
        r matches Err(e) ==> e matches InstallError::Transfer { detail } && (detail@
            == "failed to download file "@ + url@ || detail@ == "failed to write to file "@
            + url@),
{
    let mut t = Transfer { total, received: 0 };
    let mut i: usize = 0;
    proof {
        assert(spec_lens(outcomes@.subrange(0, 0)) =~= Seq::<u64>::empty());
    }
    while i < outcomes.len()
        invariant
            i <= outcomes@.len(),
            t.total == total,
            t.wf(),
            t.received == spec_received(total, spec_lens(outcomes@.subrange(0, i as int))),
            forall|j: int| 0 <= j < i ==> outcomes@[j] is Delivered,
        decreases outcomes@.len() - i,
    {
        let c = outcomes[i];
        match c {
            ChunkOutcome::Delivered { len } => {
                t.record_chunk(len);
                proof {
                    let pre = outcomes@.subrange(0, i as int);
                    let post = outcomes@.subrange(0, i as int + 1);
                    assert(post.drop_last() =~= pre);
                    assert(spec_lens(post).drop_last() =~= spec_lens(pre));
                    assert(spec_lens(post).last() == len);
                }
            },
            ChunkOutcome::ReadFailed => {
                let detail = String::from_str("failed to download file ").concat(url);
                return Err(InstallError::Transfer { detail });
            },
            ChunkOutcome::WriteFailed => {
                let detail = String::from_str("failed to write to file ").concat(url);
                return Err(InstallError::Transfer { detail });
            },
        }
        i += 1;
    }
    proof {
        assert(outcomes@.subrange(0, outcomes@.len() as int) =~= outcomes@);
    }
    Ok(t.received)
}

} // verus!
