//! Splitting one message into a sequence of frames.
use crate::protocol::{DataCode, Frame, MessageType, OpCode};
use vstd::prelude::*;
use vstd::slice::{slice_subrange, slice_to_vec};

verus! {

/// The number of chunks of at most `size` bytes that `n` bytes fall into.
pub open spec fn chunk_count(n: nat, size: nat) -> nat
    decreases n,
{
    if n == 0 || size == 0 {
        0
    } else if n <= size {
        1
    } else {
        1 + chunk_count((n - size) as nat, size)
    }
}

/// The `i`-th chunk of `buf`: bytes `i * size` up to `(i + 1) * size`, cut at
/// the end of `buf`.
pub open spec fn chunk(buf: Seq<u8>, size: nat, i: int) -> Seq<u8> {
    let start = i * size;
    let end = if start + size <= buf.len() {
        start + size
    } else {
        buf.len() as int
    };
    buf.subrange(start, end)
}

/// The opcode of the first frame of a message of the given type.
pub open spec fn first_opcode(message_type: MessageType) -> OpCode {
    match message_type {
        MessageType::Text => OpCode::DataCode(DataCode::Text),
        MessageType::Binary => OpCode::DataCode(DataCode::Binary),
    }
}

/// The payloads of `frames` one after another.
pub open spec fn payload_concat(frames: Seq<Frame>) -> Seq<u8>
    decreases frames.len(),
{
    if frames.len() == 0 {
        Seq::empty()
    } else {
        payload_concat(frames.drop_last()) + frames.last().payload@
    }
}

/// `frames` is the fragmentation of `buf` into a message of type
/// `message_type` with chunks of `size` bytes: one frame per chunk, in order;
/// the first frame carries the message's opcode and the others Continuation;
/// the last frame alone carries FIN.
pub open spec fn is_fragmentation(
    frames: Seq<Frame>,
    buf: Seq<u8>,
    message_type: MessageType,
    size: nat,
) -> bool {
    &&& frames.len() == chunk_count(buf.len(), size)
    &&& forall|i: int|
        0 <= i < frames.len() ==> {
            &&& (#[trigger] frames[i]).payload@ == chunk(buf, size, i)
            &&& frames[i].fin == (i == frames.len() - 1)
            &&& frames[i].opcode == if i == 0 {
                first_opcode(message_type)
            } else {
                OpCode::DataCode(DataCode::Continuation)
            }
        }
}

proof fn lemma_chunk_count_positive(n: nat, size: nat)
    requires
        n > 0,
        size > 0,
    ensures
        chunk_count(n, size) >= 1,
        chunk_count(n, size) == 1 <==> n <= size,
    decreases n,
{
    if n > size {
        lemma_chunk_count_positive((n - size) as nat, size);
    }
}

/// The frames that send `buf` as one message of type `message_type`, split
/// into chunks of at most `fragment_size` bytes. An empty buffer gives no
/// frames.
pub fn fragments(buf: &[u8], message_type: MessageType, fragment_size: usize) -> (r: Vec<Frame>)
    requires
        fragment_size > 0,
    ensures
        is_fragmentation(r@, buf@, message_type, fragment_size as nat),
        payload_concat(r@) == buf@,
{
    let len = buf.len();
    let ghost total = chunk_count(len as nat, fragment_size as nat);
    let mut frames: Vec<Frame> = Vec::new();
    let mut start: usize = 0;
    proof {
        assert(buf@.subrange(0, 0) =~= Seq::<u8>::empty());
        assert(0 * fragment_size == 0) by (nonlinear_arith);
    }
    while start < len
        invariant
            fragment_size > 0,
            len == buf@.len(),
            start <= len,
            start < len ==> start == frames@.len() * fragment_size,
            total == chunk_count(len as nat, fragment_size as nat),
            frames@.len() + chunk_count((len - start) as nat, fragment_size as nat) == total,
            payload_concat(frames@) == buf@.subrange(0, start as int),
            forall|i: int|
                0 <= i < frames@.len() ==> {
                    &&& (#[trigger] frames@[i]).payload@ == chunk(
                        buf@,
                        fragment_size as nat,
                        i,
                    )
                    &&& frames@[i].fin == (i == total - 1)
                    &&& frames@[i].opcode == if i == 0 {
                        first_opcode(message_type)
                    } else {
                        OpCode::DataCode(DataCode::Continuation)
                    }
                },
        decreases len - start,
    {
        proof {
            lemma_chunk_count_positive((len - start) as nat, fragment_size as nat);
        }
        let last = len - start <= fragment_size;
        let end: usize = if last {
            len
        } else {
            start + fragment_size
        };
        let opcode = if start == 0 {
            match message_type {
                MessageType::Text => OpCode::DataCode(DataCode::Text),
                MessageType::Binary => OpCode::DataCode(DataCode::Binary),
            }
        } else {
            OpCode::DataCode(DataCode::Continuation)
        };
        let payload = slice_to_vec(slice_subrange(buf, start, end));
        let frame = Frame { opcode, fin: last, payload };
        let ghost old_frames = frames@;
        let ghost i = frames@.len() as int;
        proof {
            assert(start == 0 <==> i == 0) by (nonlinear_arith)
                requires
                    start == i * fragment_size,
                    fragment_size > 0,
                    i >= 0,
            ;
            assert((i + 1) * fragment_size == start + fragment_size) by (nonlinear_arith)
                requires
                    start == i * fragment_size,
            ;
            if !last {
                assert(chunk_count((len - start) as nat, fragment_size as nat) == 1
                    + chunk_count((len - end) as nat, fragment_size as nat));
            }
        }
        frames.push(frame);
        proof {
            assert(frames@.drop_last() =~= old_frames);
            assert(frames@[i].payload@ == chunk(buf@, fragment_size as nat, i));
            assert(buf@.subrange(0, end as int) =~= buf@.subrange(0, start as int)
                + buf@.subrange(start as int, end as int));
        }
        start = end;
    }
    proof {
        if len == 0 {
            assert(total == 0);
        }
        assert(buf@.subrange(0, len as int) =~= buf@);
    }
    frames
}

} // verus!
