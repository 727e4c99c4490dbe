//! Frames and the byte stream a client observes.
//!
//! A frame is one owned, variable-length byte buffer produced by the capture
//! engine. The wire carries no framing: a client sees exactly the
//! concatenation of the delivered frames' bytes, in delivery order.

use vstd::prelude::*;

verus! {

/// The byte stream that a sequence of frames puts on the wire: the
/// concatenation of the frames' bytes in order, with no delimiters.
pub open spec fn stream_bytes(frames: Seq<Seq<u8>>) -> Seq<u8>
    decreases frames.len(),
{
    if frames.len() == 0 {
        Seq::empty()
    } else {
        frames[0] + stream_bytes(frames.drop_first())
    }
}

/// Appending one frame to a sequence appends exactly its bytes to the stream.
pub proof fn lemma_stream_bytes_push(frames: Seq<Seq<u8>>, frame: Seq<u8>)
    ensures
        stream_bytes(frames.push(frame)) == stream_bytes(frames) + frame,
    decreases frames.len(),
{
    if frames.len() == 0 {
        assert(stream_bytes(Seq::<Seq<u8>>::empty()) =~= Seq::<u8>::empty());
        assert(frames.push(frame)[0] == frame);
        assert(frames.push(frame).drop_first() =~= Seq::<Seq<u8>>::empty());
        assert(stream_bytes(frames.push(frame)) =~= frame + Seq::<u8>::empty());
        assert(frame + Seq::<u8>::empty() =~= frame);
        assert(stream_bytes(frames) + frame =~= frame);
    } else {
        assert(frames.push(frame).drop_first() =~= frames.drop_first().push(frame));
        lemma_stream_bytes_push(frames.drop_first(), frame);
        assert(stream_bytes(frames.push(frame)) =~= stream_bytes(frames) + frame);
    }
}

/// Copies exactly `len` bytes out of an engine-owned buffer into a fresh owned
/// buffer. This is the one point where engine memory is copied; the result
/// shares nothing with the input.
pub fn copy_frame(data: &[u8], len: usize) -> (frame: Vec<u8>)
    requires
        len <= data@.len(),
    ensures
        frame@ == data@.subrange(0, len as int),
{
    let mut frame: Vec<u8> = Vec::new();
    let mut i: usize = 0;
    while i < len
        invariant
            i <= len,
            len <= data@.len(),
            frame@ == data@.subrange(0, i as int),
        decreases len - i,
    {
        frame.push(data[i]);
        assert(frame@ =~= data@.subrange(0, i + 1));
        i = i + 1;
    }
    frame
}

/// Concatenates a sequence of frames into the single unframed byte stream a
/// connected client would observe.
pub fn concat_frames(frames: &Vec<Vec<u8>>) -> (stream: Vec<u8>)
    ensures
        stream@ == stream_bytes(frames@.map_values(|f: Vec<u8>| f@)),
{
    let ghost model = frames@.map_values(|f: Vec<u8>| f@);
    let mut stream: Vec<u8> = Vec::new();
    let mut i: usize = 0;
    while i < frames.len()
        invariant
            i <= frames@.len(),
            model == frames@.map_values(|f: Vec<u8>| f@),
            stream@ == stream_bytes(model.take(i as int)),
        decreases frames@.len() - i,
    {
        let mut j: usize = 0;
        let frame = &frames[i];
        while j < frame.len()
            invariant
                j <= frame@.len(),
                frame@ == frames@[i as int]@,
                i < frames@.len(),
                model == frames@.map_values(|f: Vec<u8>| f@),
                stream@ == stream_bytes(model.take(i as int)) + frame@.take(j as int),
            decreases frame@.len() - j,
        {
            stream.push(frame[j]);
            assert(frame@.take(j + 1) =~= frame@.take(j as int).push(frame@[j as int]));
            assert(stream@ =~= stream_bytes(model.take(i as int)) + frame@.take(j + 1));
            j = j + 1;
        }
        proof {
            lemma_stream_bytes_push(model.take(i as int), model[i as int]);
            assert(model.take(i + 1) =~= model.take(i as int).push(model[i as int]));
            assert(frame@.take(frame@.len() as int) =~= frame@);
            assert(stream@ =~= stream_bytes(model.take(i + 1)));
        }
        i = i + 1;
    }
    proof {
        assert(model.take(model.len() as int) =~= model);
    }
    stream
}

} // verus!
