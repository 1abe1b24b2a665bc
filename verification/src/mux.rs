//! The stream multiplexer adapter.
//!
//! The container runtime delivers stdout and stderr of the sandboxed
//! process over one combined attach channel.  Each frame carries an
//! eight-byte header — the stream tag in byte 0 and a big-endian 32-bit
//! payload length in bytes 4 through 7 — followed by the payload itself.
//! `demux` turns a fully captured channel into the ordered sequence of
//! tagged chunks exactly as the runtime emitted them; `accumulate` folds
//! the chunks of each source into one buffer per channel, never merging
//! or reordering chunks of the two sources relative to their own order.

use vstd::prelude::*;

verus! {

/// Which sub-stream of the attach channel a chunk belongs to.
#[derive(Clone, Copy, PartialEq, Eq, Structural, Debug)]
pub enum ChunkSource {
    Stdin,
    Stdout,
    Stderr,
}

/// One tagged frame of the attach channel.
pub struct Chunk {
    pub source: ChunkSource,
    pub payload: Vec<u8>,
}

/// The mathematical value of a `Chunk`.
pub struct ChunkView {
    pub source: ChunkSource,
    pub payload: Seq<u8>,
}

impl View for Chunk {
    type V = ChunkView;

    open spec fn view(&self) -> ChunkView {
        ChunkView { source: self.source, payload: self.payload@ }
    }
}

/// The attach channel's bytes could not be read as a frame sequence.
#[derive(Clone, Copy, PartialEq, Eq, Structural, Debug)]
pub enum StreamError {
    /// The channel ended inside a frame header or a frame payload.
    Truncated,
    /// A frame header carried a stream tag the runtime never emits.
    UnknownStream,
}

/// The stream a frame's tag byte names, if any.
pub open spec fn source_of_tag(tag: u8) -> Option<ChunkSource> {
    if tag == 0 {
        Some(ChunkSource::Stdin)
    } else if tag == 1 {
        Some(ChunkSource::Stdout)
    } else if tag == 2 {
        Some(ChunkSource::Stderr)
    } else {
        None
    }
}

/// The payload length a frame header declares: big-endian 32-bit in
/// header bytes 4 through 7.
pub open spec fn header_payload_len(s: Seq<u8>) -> int
    recommends
        s.len() >= 8,
{
    (s[4] as int) * 0x1000000 + (s[5] as int) * 0x10000 + (s[6] as int) * 0x100 + (s[7] as int)
}

/// The frame sequence a captured attach channel holds, in emission
/// order, or the way in which it is malformed.
pub open spec fn parse_chunks(s: Seq<u8>) -> Result<Seq<ChunkView>, StreamError>
    decreases s.len(),
{
    if s.len() == 0 {
        Ok(Seq::empty())
    } else if s.len() < 8 {
        Err(StreamError::Truncated)
    } else {
        match source_of_tag(s[0]) {
            None => Err(StreamError::UnknownStream),
            Some(src) => {
                let n = header_payload_len(s);
                if s.len() < 8 + n {
                    Err(StreamError::Truncated)
                } else {
                    match parse_chunks(s.skip(8 + n)) {
                        Ok(rest) => Ok(
                            seq![ChunkView { source: src, payload: s.subrange(8, 8 + n) }] + rest,
                        ),
                        Err(e) => Err(e),
                    }
                }
            },
        }
    }
}

/// The mathematical values of a vector of chunks, in order.
pub open spec fn chunk_views(chunks: Seq<Chunk>) -> Seq<ChunkView> {
    Seq::new(chunks.len(), |i: int| chunks[i]@)
}

/// Demultiplex a fully captured attach channel into its tagged chunks,
/// in emission order.
pub fn demux(bytes: &Vec<u8>) -> (r: Result<Vec<Chunk>, StreamError>)
    ensures
        match r {
            Ok(chunks) => parse_chunks(bytes@) == Ok::<_, StreamError>(chunk_views(chunks@)),
            Err(e) => parse_chunks(bytes@) == Err::<Seq<ChunkView>, _>(e),
        },
{
    let mut chunks: Vec<Chunk> = Vec::new();
    let mut i: usize = 0;
    proof {
        assert(bytes@.skip(0) =~= bytes@);
        if let Ok(rest) = parse_chunks(bytes@) {
            assert(chunk_views(chunks@) + rest =~= rest);
        }
    }
    while i < bytes.len()
        invariant
            i <= bytes@.len(),
            match parse_chunks(bytes@.skip(i as int)) {
                Ok(rest) => parse_chunks(bytes@) == Ok::<_, StreamError>(
                    chunk_views(chunks@) + rest,
                ),
                Err(e) => parse_chunks(bytes@) == Err::<Seq<ChunkView>, _>(e),
            },
        decreases bytes@.len() - i,
    {
        let ghost pre: Seq<u8> = bytes@.skip(i as int);
        proof {
            assert(pre.len() == bytes@.len() - i);
        }
        if bytes.len() - i < 8 {
            proof {
                assert(parse_chunks(pre) == Err::<Seq<ChunkView>, _>(StreamError::Truncated));
            }
            return Err(StreamError::Truncated);
        }
        proof {
            assert(pre[0] == bytes@[i as int]);
            assert(pre[4] == bytes@[i + 4]);
            assert(pre[5] == bytes@[i + 5]);
            assert(pre[6] == bytes@[i + 6]);
            assert(pre[7] == bytes@[i + 7]);
        }
        let tag = bytes[i];
        let source = if tag == 0 {
            ChunkSource::Stdin
        } else if tag == 1 {
            ChunkSource::Stdout
        } else if tag == 2 {
            ChunkSource::Stderr
        } else {
            proof {
                assert(source_of_tag(pre[0]) is None);
                assert(parse_chunks(pre) == Err::<Seq<ChunkView>, _>(StreamError::UnknownStream));
            }
            return Err(StreamError::UnknownStream);
        };
        let n: usize = (bytes[i + 4] as usize) * 0x1000000 + (bytes[i + 5] as usize) * 0x10000
            + (bytes[i + 6] as usize) * 0x100 + (bytes[i + 7] as usize);
        proof {
            assert(n == header_payload_len(pre));
            assert(source_of_tag(pre[0]) == Some(source));
        }
        if bytes.len() - i - 8 < n {
            proof {
                assert(pre.len() < 8 + n as int);
                assert(parse_chunks(pre) == Err::<Seq<ChunkView>, _>(StreamError::Truncated));
            }
            return Err(StreamError::Truncated);
        }
        let payload = vstd::slice::slice_to_vec(
            vstd::slice::slice_subrange(bytes.as_slice(), i + 8, i + 8 + n),
        );
        let chunk = Chunk { source, payload };
        proof {
            assert(chunk@.payload =~= pre.subrange(8, 8 + n as int));
            assert(pre.skip(8 + n as int) =~= bytes@.skip(i + 8 + n));
            assert(parse_chunks(pre) == match parse_chunks(pre.skip(8 + n as int)) {
                Ok(rest) => Ok::<_, StreamError>(seq![chunk@] + rest),
                Err(e) => Err::<Seq<ChunkView>, _>(e),
            });
            assert(chunk_views(chunks@.push(chunk)) =~= chunk_views(chunks@) + seq![chunk@]);
            if let Ok(rest) = parse_chunks(bytes@.skip(i + 8 + n)) {
                assert((chunk_views(chunks@) + seq![chunk@]) + rest =~= chunk_views(chunks@) + (
                seq![chunk@] + rest));
            }
        }
        chunks.push(chunk);
        i = i + 8 + n;
    }
    proof {
        assert(bytes@.skip(i as int) =~= Seq::<u8>::empty());
        assert(parse_chunks(Seq::<u8>::empty()) == Ok::<_, StreamError>(Seq::<ChunkView>::empty()));
        assert(chunk_views(chunks@) + Seq::<ChunkView>::empty() =~= chunk_views(chunks@));
    }
    Ok(chunks)
}

/// The bytes that one source contributed, concatenated in chunk order.
pub open spec fn collected(chunks: Seq<ChunkView>, source: ChunkSource) -> Seq<u8>
    decreases chunks.len(),
{
    if chunks.len() == 0 {
        Seq::empty()
    } else {
        (if chunks[0].source == source {
            chunks[0].payload
        } else {
            Seq::empty()
        }) + collected(chunks.skip(1), source)
    }
}

/// Collection distributes over concatenation of chunk sequences: the
/// bytes a source contributes to a run of chunks followed by another run
/// are the first run's bytes followed by the second's.  In particular,
/// accumulating never reorders chunks of one source relative to each
/// other.
pub proof fn lemma_collected_append(a: Seq<ChunkView>, b: Seq<ChunkView>, source: ChunkSource)
    ensures
        collected(a + b, source) == collected(a, source) + collected(b, source),
    decreases a.len(),
{
    if a.len() == 0 {
        assert(a + b =~= b);
        assert(collected(a, source) + collected(b, source) =~= collected(b, source));
    } else {
        lemma_collected_append(a.skip(1), b, source);
        assert((a + b).skip(1) =~= a.skip(1) + b);
        assert((a + b)[0] == a[0]);
        let head: Seq<u8> = if a[0].source == source {
            a[0].payload
        } else {
            Seq::empty()
        };
        assert(collected(a + b, source) == head + (collected(a.skip(1), source) + collected(
            b,
            source,
        )));
        assert(head + (collected(a.skip(1), source) + collected(b, source)) =~= (head + collected(
            a.skip(1),
            source,
        )) + collected(b, source));
    }
}

/// Extend `dst` by the bytes of `src`, in order.
pub fn append_bytes(dst: &mut Vec<u8>, src: &Vec<u8>)
    ensures
        final(dst)@ == old(dst)@ + src@,
{
    let mut j: usize = 0;
    while j < src.len()
        invariant
            j <= src@.len(),
            dst@ == old(dst)@ + src@.take(j as int),
        decreases src@.len() - j,
    {
        dst.push(src[j]);
        proof {
            assert((old(dst)@ + src@.take(j as int)).push(src@[j as int]) =~= old(dst)@
                + src@.take(j + 1));
        }
        j += 1;
    }
    proof {
        assert(src@.take(src@.len() as int) =~= src@);
    }
}

/// Fold the chunks of a case into one stdout buffer and one stderr
/// buffer, each the concatenation of that source's payloads in emission
/// order.
pub fn accumulate(chunks: &Vec<Chunk>) -> (r: (Vec<u8>, Vec<u8>))
    ensures
        r.0@ == collected(chunk_views(chunks@), ChunkSource::Stdout),
        r.1@ == collected(chunk_views(chunks@), ChunkSource::Stderr),
{
    let mut captured_out: Vec<u8> = Vec::new();
    let mut captured_err: Vec<u8> = Vec::new();
    let mut i: usize = 0;
    while i < chunks.len()
        invariant
            i <= chunks@.len(),
            captured_out@ == collected(chunk_views(chunks@).take(i as int), ChunkSource::Stdout),
            captured_err@ == collected(chunk_views(chunks@).take(i as int), ChunkSource::Stderr),
        decreases chunks@.len() - i,
    {
        let c = &chunks[i];
        match c.source {
            ChunkSource::Stdout => append_bytes(&mut captured_out, &c.payload),
            ChunkSource::Stderr => append_bytes(&mut captured_err, &c.payload),
            ChunkSource::Stdin => {},
        }
        proof {
            let views = chunk_views(chunks@);
            let one: Seq<ChunkView> = seq![views[i as int]];
            assert(views.take(i + 1) =~= views.take(i as int) + one);
            lemma_collected_append(views.take(i as int), one, ChunkSource::Stdout);
            lemma_collected_append(views.take(i as int), one, ChunkSource::Stderr);
            assert(one.skip(1) =~= Seq::<ChunkView>::empty());
            assert(collected(one.skip(1), ChunkSource::Stdout) == Seq::<u8>::empty());
            assert(collected(one.skip(1), ChunkSource::Stderr) == Seq::<u8>::empty());
            let head_out: Seq<u8> = if views[i as int].source == ChunkSource::Stdout {
                views[i as int].payload
            } else {
                Seq::empty()
            };
            let head_err: Seq<u8> = if views[i as int].source == ChunkSource::Stderr {
                views[i as int].payload
            } else {
                Seq::empty()
            };
            assert(one[0] == views[i as int]);
            assert(collected(one, ChunkSource::Stdout) == head_out + collected(
                one.skip(1),
                ChunkSource::Stdout,
            ));
            assert(collected(one, ChunkSource::Stderr) == head_err + collected(
                one.skip(1),
                ChunkSource::Stderr,
            ));
            assert(head_out + Seq::<u8>::empty() =~= head_out);
            assert(head_err + Seq::<u8>::empty() =~= head_err);
            assert(views[i as int] == chunks@[i as int]@);
        }
        i += 1;
    }
    proof {
        assert(chunk_views(chunks@).take(chunks@.len() as int) =~= chunk_views(chunks@));
    }
    (captured_out, captured_err)
}

} // verus!
