use vstd::prelude::*;
use claxon::FlacReader;
use std::io::Cursor;

verus! {

/// claxon::Error, what claxon's reader fails with; it is only told apart from
/// success here.
#[verifier::external_type_specification]
#[verifier::external_body]
pub struct ExClaxonError(claxon::Error);

/// An open FLAC stream over bytes held in memory. Verus refuses a
/// declaration of claxon's reader (its parameter is bound by `io::Read`), so
/// the reader is held here, out of Verus's sight.
#[verifier::external_body]
pub struct FrameSource {
    reader: FlacReader<Cursor<Vec<u8>>>,
}

/// The header that claxon's `FlacReader::new` reads from `data`: the sample
/// rate, the channel count, the largest block size and the total number of
/// samples where declared; `None` where it cannot read a FLAC stream there.
pub uninterp spec fn flac_header(data: Seq<u8>) -> Option<(u32, u32, u16, Option<u64>)>;

/// The frames that claxon's `read_next_or_eof` decodes from `data`, in order,
/// up to the end of the stream or to the first frame it cannot decode: each
/// as its first sample number, block size, channel count and samples.
pub uninterp spec fn flac_frames(data: Seq<u8>) -> Seq<(u64, u32, u32, Seq<i32>)>;

/// An open stream, with the bytes it was opened on, how many frames were
/// read from it, and whether it has ended.
pub struct FlacStream {
    source: FrameSource,
    bytes: Ghost<Seq<u8>>,
    read: Ghost<nat>,
    ended: Ghost<bool>,
}

impl FlacStream {
    /// The bytes the stream was opened on.
    pub closed spec fn bytes(&self) -> Seq<u8> {
        self.bytes@
    }

    /// How many frames were decoded from it.
    pub closed spec fn read(&self) -> nat {
        self.read@
    }

    /// Whether a read found no further frame.
    pub closed spec fn ended(&self) -> bool {
        self.ended@
    }
}

/// What the stream header declares.
pub struct StreamFacts {
    pub sample_rate: u32,
    pub channels: u32,
    pub max_block_size: u16,
    pub samples: Option<u64>,
}

/// One decoded frame: `block_size` inter-channel samples starting at sample
/// number `start`, the channels stored one after the other in `buffer`.
pub struct Frame {
    pub start: u64,
    pub block_size: u32,
    pub channels: u32,
    pub buffer: Vec<i32>,
}

impl Frame {
    pub open spec fn wf(&self) -> bool {
        self.buffer@.len() == self.block_size * self.channels
    }

    pub open spec fn view_tuple(&self) -> (u64, u32, u32, Seq<i32>) {
        (self.start, self.block_size, self.channels, self.buffer@)
    }
}

/// Why a stream could not be opened, measured or positioned.
#[derive(Clone, Copy, Debug, PartialEq, Eq, Structural)]
pub enum DecodeError {
    /// The bytes are not a readable FLAC stream.
    Unopenable,
    /// The header does not declare the total number of samples.
    UnknownDuration,
    /// The seek target lies beyond the end of the stream.
    SeekOutOfRange,
}

/// Relies on claxon::FlacReader::new: reads the stream header and metadata
/// from the bytes, and fails exactly where they hold no FLAC stream.
#[verifier::external_body]
fn open_reader(data: Vec<u8>) -> (r: Result<FlacStream, claxon::Error>)
    ensures
        r is Ok <==> flac_header(data@) is Some,
        r matches Ok(s) ==> s.bytes() == data@ && s.read() == 0 && !s.ended(),
{
    let bytes = Ghost(data@);
    match FlacReader::new(Cursor::new(data)) {
        Ok(reader) => Ok(FlacStream {
            source: FrameSource { reader },
            bytes,
            read: Ghost(0),
            ended: Ghost(false),
        }),
        Err(e) => Err(e),
    }
}

/// Relies on claxon::FlacReader::streaminfo: the header that `new` read and
/// checked, whose sample rate lies in 1..=655350 and channel count in 1..=8.
#[verifier::external_body]
fn stream_facts(stream: &FlacStream) -> (r: StreamFacts)
    ensures
        flac_header(stream.bytes()) == Some((r.sample_rate, r.channels, r.max_block_size, r.samples)),
        1 <= r.sample_rate <= 655350,
        1 <= r.channels <= 8,
{
    let info = stream.source.reader.streaminfo();
    StreamFacts {
        sample_rate: info.sample_rate,
        channels: info.channels,
        max_block_size: info.max_block_size,
        samples: info.samples,
    }
}

/// Relies on claxon::FrameReader::read_next_or_eof: decodes the next frame
/// of the stream into the given buffer, and gives no frame once the stream
/// has ended or cannot be decoded further. The block's buffer holds exactly
/// `block_size * channels` samples, and a frame header declares from one to
/// eight channels.
#[verifier::external_body]
fn read_frame(stream: &mut FlacStream, buffer: Vec<i32>) -> (r: Result<Option<Frame>, claxon::Error>)
    requires
        !old(stream).ended(),
        old(stream).read() <= flac_frames(old(stream).bytes()).len(),
    ensures
        final(stream).bytes() == old(stream).bytes(),
        old(stream).read() < flac_frames(old(stream).bytes()).len() ==> {
            &&& r matches Ok(Some(f)) && f.view_tuple() == flac_frames(old(stream).bytes())[old(stream).read() as int]
                && f.wf() && 1 <= f.channels <= 8
            &&& final(stream).read() == old(stream).read() + 1
            &&& !final(stream).ended()
        },
        old(stream).read() == flac_frames(old(stream).bytes()).len() ==> {
            &&& !(r matches Ok(Some(_)))
            &&& final(stream).read() == old(stream).read()
            &&& final(stream).ended()
        },
{
    match stream.source.reader.blocks().read_next_or_eof(buffer) {
        Ok(Some(b)) => {
            stream.read = Ghost(stream.read@ + 1);
            let (start, block_size, channels) = (b.time(), b.duration(), b.channels());
            Ok(Some(Frame { start, block_size, channels, buffer: b.into_buffer() }))
        },
        other => {
            stream.ended = Ghost(true);
            other.map(|_| None)
        },
    }
}

/// Milliseconds from the start of the stream to sample number `start`, held
/// at `u32::MAX` where it does not fit.
pub open spec fn frame_time_ms(start: int, rate: int) -> int {
    let ms = start * 1000 / rate;
    if ms > u32::MAX {
        u32::MAX as int
    } else {
        ms
    }
}

/// The elapsed time after a block that starts at sample `start`: the block's
/// start time, unless the time reached is later.
pub open spec fn advance_time(time: int, start: int, rate: int) -> int {
    if frame_time_ms(start, rate) > time {
        frame_time_ms(start, rate)
    } else {
        time
    }
}

/// The left and right sample of the `i`-th inter-channel sample of a block:
/// the first two channels, or the one channel twice for a mono block.
pub open spec fn stereo_at(buffer: Seq<i32>, block_size: int, channels: int, i: int) -> (i32, i32) {
    if channels >= 2 {
        (buffer[i], buffer[block_size + i])
    } else {
        (buffer[i], buffer[i])
    }
}

/// A block turned into 16-bit stereo pairs, each sample cut to its low 16 bits.
pub open spec fn stereo_block(buffer: Seq<i32>, block_size: int, channels: int) -> Seq<[i16; 2]> {
    Seq::new(block_size as nat, |i: int| {
        let p = stereo_at(buffer, block_size, channels, i);
        [p.0 as i16, p.1 as i16]
    })
}

/// The sample number of millisecond `target_ms` at `rate` Hz.
pub open spec fn seek_index(target_ms: int, rate: int) -> int {
    target_ms * rate / 1000
}

/// The sample number of millisecond `target_ms`: `target_ms * rate / 1000`.
pub fn seek_sample_index(target_ms: u32, rate: u32) -> (r: u64)
    ensures
        r == seek_index(target_ms as int, rate as int),
{
    proof {
        vstd::arithmetic::mul::lemma_mul_upper_bound(target_ms as int, u32::MAX as int, rate as int, u32::MAX as int);
    }
    (target_ms as u64) * (rate as u64) / 1000
}

/// The time, in milliseconds, at which a block starting at sample `start`
/// begins.
pub fn frame_time(start: u64, rate: u32) -> (r: u32)
    requires
        rate >= 1,
    ensures
        r == frame_time_ms(start as int, rate as int),
{
    let ms: u128 = (start as u128) * 1000 / (rate as u128);
    if ms > u32::MAX as u128 {
        u32::MAX
    } else {
        ms as u32
    }
}

/// Converts a decoded frame to 16-bit stereo pairs.
pub fn stereo_samples(frame: &Frame) -> (r: Vec<[i16; 2]>)
    requires
        frame.wf(),
        frame.channels >= 1,
    ensures
        r@ == stereo_block(frame.buffer@, frame.block_size as int, frame.channels as int),
{
    let n = frame.block_size as usize;
    let len = frame.buffer.len();
    let mut out: Vec<[i16; 2]> = Vec::with_capacity(n);
    let mut i: usize = 0;
    while i < n
        invariant
            n == frame.block_size,
            len == frame.buffer@.len(),
            frame.wf(),
            frame.channels >= 1,
            i <= n,
            out@ == stereo_block(frame.buffer@, n as int, frame.channels as int).take(i as int),
        decreases n - i,
    {
        proof {
            vstd::arithmetic::mul::lemma_mul_inequality(1, frame.channels as int, n as int);
            vstd::arithmetic::mul::lemma_mul_is_commutative(frame.channels as int, n as int);
            if frame.channels >= 2 {
                vstd::arithmetic::mul::lemma_mul_inequality(2, frame.channels as int, n as int);
                assert(n + i < frame.buffer@.len());
            }
        }
        let left = frame.buffer[i];
        let right = if frame.channels >= 2 { frame.buffer[n + i] } else { left };
        #[verifier::truncate]
        let l = left as i16;
        #[verifier::truncate]
        let rr = right as i16;
        out.push([l, rr]);
        proof {
            assert(out@ =~= stereo_block(frame.buffer@, n as int, frame.channels as int).take(i + 1));
        }
        i = i + 1;
    }
    proof {
        assert(out@ =~= stereo_block(frame.buffer@, n as int, frame.channels as int));
    }
    out
}

/// Drops the first `k` pairs of a block.
fn drop_front(block: Vec<[i16; 2]>, k: usize) -> (r: Vec<[i16; 2]>)
    requires
        k <= block@.len(),
    ensures
        r@ == block@.skip(k as int),
{
    let n = block.len();
    let mut out: Vec<[i16; 2]> = Vec::with_capacity(n - k);
    let mut i: usize = k;
    while i < n
        invariant
            n == block@.len(),
            k <= i <= n,
            out@ == block@.subrange(k as int, i as int),
        decreases n - i,
    {
        out.push(block[i]);
        proof {
            assert(out@ =~= block@.subrange(k as int, i + 1));
        }
        i = i + 1;
    }
    proof {
        assert(out@ =~= block@.skip(k as int));
    }
    out
}

/// The duration, in whole seconds, of a stream of `samples` inter-channel
/// samples at `rate` Hz; `UnknownDuration` where the count is not declared.
pub open spec fn duration_spec(samples: Option<u64>, rate: int) -> Result<u64, DecodeError> {
    match samples {
        Some(n) => Ok((n as int / rate) as u64),
        None => Err(DecodeError::UnknownDuration),
    }
}

/// The duration in whole seconds of a stream of `samples` inter-channel
/// samples at `rate` Hz.
pub fn duration_of(samples: Option<u64>, rate: u32) -> (r: Result<u64, DecodeError>)
    requires
        rate >= 1,
    ensures
        r == duration_spec(samples, rate as int),
{
    match samples {
        Some(n) => Ok(n / (rate as u64)),
        None => Err(DecodeError::UnknownDuration),
    }
}

/// What the duration query gives for the bytes `data`.
pub open spec fn duration_query(data: Seq<u8>) -> Result<u64, DecodeError> {
    match flac_header(data) {
        Some((rate, _, _, samples)) => duration_spec(samples, rate as int),
        None => Err(DecodeError::Unopenable),
    }
}

/// Opens the stream in `data` and reads the duration its header declares, in
/// whole seconds.
pub fn compute_duration(data: Vec<u8>) -> (r: Result<u64, DecodeError>)
    ensures
        r == duration_query(data@),
{
    match open_reader(data) {
        Ok(stream) => {
            let facts = stream_facts(&stream);
            duration_of(facts.samples, facts.sample_rate)
        },
        Err(_) => Err(DecodeError::Unopenable),
    }
}

/// A frame as 16-bit stereo pairs.
pub open spec fn frame_block(frame: (u64, u32, u32, Seq<i32>)) -> Seq<[i16; 2]> {
    stereo_block(frame.3, frame.1 as int, frame.2 as int)
}

/// A FLAC stream being decoded block by block, with the time reached.
pub struct FlacDecoder {
    stream: FlacStream,
    exhausted: bool,
    current_time: u32,
    position: u64,
    sample_rate: u32,
    num_channels: u32,
    scratch: Vec<i32>,
    pending: Option<(u64, Vec<[i16; 2]>)>,
}

impl FlacDecoder {
    pub closed spec fn wf(&self) -> bool {
        &&& flac_header(self.stream.bytes()) matches Some((rate, channels, _, _))
            && rate == self.sample_rate && channels == self.num_channels
        &&& 1 <= self.sample_rate <= 655350
        &&& 1 <= self.num_channels <= 8
        &&& self.stream.read() <= flac_frames(self.stream.bytes()).len()
        &&& self.exhausted == self.stream.ended()
        &&& self.exhausted ==> self.stream.read() == flac_frames(self.stream.bytes()).len()
    }

    /// The bytes of the stream being decoded.
    pub closed spec fn bytes(&self) -> Seq<u8> {
        self.stream.bytes()
    }

    /// How many frames of the stream were decoded.
    pub closed spec fn frames_read(&self) -> nat {
        self.stream.read()
    }

    /// The elapsed time in milliseconds.
    pub closed spec fn time(&self) -> int {
        self.current_time as int
    }

    /// The sample number at which the last block handed out started.
    pub closed spec fn position(&self) -> int {
        self.position as int
    }

    pub closed spec fn rate(&self) -> int {
        self.sample_rate as int
    }

    pub closed spec fn channels(&self) -> int {
        self.num_channels as int
    }

    /// The block that a seek has decoded and that the next step hands out,
    /// with the sample number it starts at.
    pub closed spec fn pending_block(&self) -> Option<(u64, Seq<[i16; 2]>)> {
        match self.pending {
            Some((start, block)) => Some((start, block@)),
            None => None,
        }
    }

    /// Whether every frame of the stream was handed out.
    pub open spec fn used_up(&self) -> bool {
        self.pending_block() is None && self.frames_read() == flac_frames(self.bytes()).len()
    }

    /// Opens the FLAC stream held in `data`, positioned at its start; fails
    /// exactly where the bytes hold no FLAC stream.
    pub fn new(data: Vec<u8>) -> (r: Result<FlacDecoder, DecodeError>)
        ensures
            r is Ok <==> flac_header(data@) is Some,
            r matches Ok(d) ==> {
                &&& d.wf()
                &&& d.bytes() == data@
                &&& d.frames_read() == 0
                &&& flac_header(data@) matches Some((rate, channels, _, _))
                    && d.rate() == rate && d.channels() == channels
                &&& d.time() == 0
                &&& d.position() == 0
                &&& d.pending_block() is None
            },
            r matches Err(e) ==> e == DecodeError::Unopenable,
    {
        match open_reader(data) {
            Ok(stream) => {
                let facts = stream_facts(&stream);
                proof {
                    assert(facts.max_block_size * facts.channels <= 65535 * 8) by (nonlinear_arith)
                        requires
                            facts.max_block_size <= 65535,
                            facts.channels <= 8,
                    ;
                }
                let max_block_len = facts.max_block_size as usize * facts.channels as usize;
                Ok(FlacDecoder {
                    stream,
                    exhausted: false,
                    current_time: 0,
                    position: 0,
                    sample_rate: facts.sample_rate,
                    num_channels: facts.channels,
                    scratch: Vec::with_capacity(max_block_len),
                    pending: None,
                })
            },
            Err(_) => Err(DecodeError::Unopenable),
        }
    }

    /// The elapsed time in milliseconds.
    pub fn current_time(&self) -> (r: u32)
        ensures
            r == self.time(),
    {
        self.current_time
    }

    /// The sample rate in Hz.
    pub fn sample_rate(&self) -> (r: u32)
        ensures
            r == self.rate(),
    {
        self.sample_rate
    }

    /// The number of channels the header declares.
    pub fn num_channels(&self) -> (r: u32)
        ensures
            r == self.channels(),
    {
        self.num_channels
    }
}

/// The block the next step hands out: the one a seek left, else the next
/// frame of the stream; `None` once every frame was handed out.
pub open spec fn next_block(d: FlacDecoder) -> Option<Seq<[i16; 2]>> {
    let frames = flac_frames(d.bytes());
    match d.pending_block() {
        Some((_, block)) => Some(block),
        None => if d.frames_read() < frames.len() {
            Some(frame_block(frames[d.frames_read() as int]))
        } else {
            None
        },
    }
}

/// The sample number that block starts at.
pub open spec fn next_start(d: FlacDecoder) -> int {
    match d.pending_block() {
        Some((start, _)) => start as int,
        None => flac_frames(d.bytes())[d.frames_read() as int].0 as int,
    }
}

/// `after` is `before` once it handed out its next block: one frame further
/// where the block came from the stream, at the block's start, and at the
/// block's start time unless the time reached was later.
pub open spec fn after_next(before: FlacDecoder, after: FlacDecoder) -> bool {
    &&& after.wf()
    &&& after.bytes() == before.bytes()
    &&& after.rate() == before.rate()
    &&& after.channels() == before.channels()
    &&& after.pending_block() is None
    &&& after.frames_read() == if before.pending_block() is Some { before.frames_read() } else { before.frames_read() + 1 }
    &&& after.position() == next_start(before)
    &&& after.time() == advance_time(before.time(), next_start(before), before.rate())
}

/// Hands out the next block as 16-bit stereo pairs: the block a seek left,
/// else the next frame of the stream. The elapsed time moves to the block's
/// start and never goes back, even where a stream numbers its frames out of
/// order. `None` exactly when every frame was handed out: the stream ended,
/// or its next frame cannot be decoded.
pub fn next_sample(decoder: &mut FlacDecoder) -> (r: Option<Vec<[i16; 2]>>)
    requires
        old(decoder).wf(),
    ensures
        final(decoder).wf(),
        final(decoder).time() >= old(decoder).time(),
        r is Some <==> next_block(*old(decoder)) is Some,
        r matches Some(v) ==> v@ == next_block(*old(decoder))->0 && after_next(*old(decoder), *final(decoder)),
        r is None ==> {
            &&& final(decoder).bytes() == old(decoder).bytes()
            &&& final(decoder).rate() == old(decoder).rate()
            &&& final(decoder).channels() == old(decoder).channels()
            &&& final(decoder).frames_read() == old(decoder).frames_read()
            &&& final(decoder).pending_block() is None
            &&& final(decoder).time() == old(decoder).time()
            &&& final(decoder).position() == old(decoder).position()
        },
{
    if decoder.pending.is_some() {
        let (start, block) = decoder.pending.take().unwrap();
        decoder.position = start;
        let time = frame_time(start, decoder.sample_rate);
        if time > decoder.current_time {
            decoder.current_time = time;
        }
        return Some(block);
    }
    if decoder.exhausted {
        return None;
    }
    let mut buffer: Vec<i32> = Vec::new();
    std::mem::swap(&mut buffer, &mut decoder.scratch);
    match read_frame(&mut decoder.stream, buffer) {
        Ok(Some(frame)) => {
            let samples = stereo_samples(&frame);
            decoder.position = frame.start;
            let time = frame_time(frame.start, decoder.sample_rate);
            if time > decoder.current_time {
                decoder.current_time = time;
            }
            decoder.scratch = frame.buffer;
            Some(samples)
        },
        _ => {
            decoder.exhausted = true;
            None
        },
    }
}

/// A seek lands on its target: the sample that a seek to `t` ms keeps first
/// starts at most `t`, and less than one block's duration plus the
/// millisecond that integer division drops before it, for any block of at
/// least one sample; so the time reported with that block is `t` itself.
pub proof fn lemma_seek_lands_within_a_block(t: int, rate: int, block_len: int)
    requires
        0 <= t <= u32::MAX,
        rate >= 1,
        block_len >= 1,
    ensures
        frame_time_ms(seek_index(t, rate), rate) <= t,
        (t - frame_time_ms(seek_index(t, rate), rate)) * rate < 1000 * block_len + rate,
        advance_time(t, seek_index(t, rate), rate) == t,
{
    let idx = seek_index(t, rate);
    let time = frame_time_ms(idx, rate);
    vstd::arithmetic::div_mod::lemma_fundamental_div_mod(t * rate, 1000);
    vstd::arithmetic::div_mod::lemma_fundamental_div_mod(idx * 1000, rate);
    vstd::arithmetic::div_mod::lemma_mod_bound(t * rate, 1000);
    vstd::arithmetic::div_mod::lemma_mod_bound(idx * 1000, rate);
    assert(t * rate >= 0) by (nonlinear_arith)
        requires
            t >= 0,
            rate >= 1,
    ;
    assert(idx >= 0) by {
        vstd::arithmetic::div_mod::lemma_div_pos_is_pos(t * rate, 1000);
    }
    let q = idx * 1000 / rate;
    // idx * 1000 <= t * rate, so q <= t
    assert(q * rate <= idx * 1000);
    assert(idx * 1000 <= t * rate);
    assert(q <= t) by (nonlinear_arith)
        requires
            q * rate <= t * rate,
            rate >= 1,
    ;
    assert(time == q);
    // t * rate < idx * 1000 + 1000 and idx * 1000 < q * rate + rate
    assert(t * rate < q * rate + rate + 1000);
    assert((t - q) * rate < 1000 + rate) by (nonlinear_arith)
        requires
            t * rate < q * rate + rate + 1000,
    ;
    assert(1000 <= 1000 * block_len);
}

/// Where a seek to sample `target` lands in a frame of `len` samples that
/// starts at sample `start`: `None` where the frame ends at or before the
/// target, so that the seek reads on; else the sample number the kept part
/// starts at, and how many samples at the front are dropped.
pub open spec fn landing(start: int, len: int, target: int) -> Option<(int, int)> {
    if start + len <= target {
        None
    } else if start < target {
        Some((target, target - start))
    } else {
        Some((start, 0))
    }
}

/// Decides where a seek to sample `target` lands in a frame.
pub fn seek_landing(start: u64, block_size: u32, target: u64) -> (r: Option<(u64, usize)>)
    ensures
        r is None <==> landing(start as int, block_size as int, target as int) is None,
        r matches Some((s, k)) ==> landing(start as int, block_size as int, target as int) == Some((s as int, k as int)),
{
    if (start as u128) + (block_size as u128) <= target as u128 {
        None
    } else if start < target {
        Some((target, (target - start) as usize))
    } else {
        Some((start, 0))
    }
}

/// Where a seek to sample `target` lands in a frame.
pub open spec fn frame_landing(frame: (u64, u32, u32, Seq<i32>), target: int) -> Option<(int, int)> {
    landing(frame.0 as int, frame.1 as int, target)
}

/// Frame `k` is the first frame of `frames` that a seek to sample `target`
/// lands in.
pub open spec fn lands_at(frames: Seq<(u64, u32, u32, Seq<i32>)>, target: int, k: int) -> bool {
    &&& 0 <= k < frames.len()
    &&& frame_landing(frames[k], target) is Some
    &&& forall|j: int| 0 <= j < k ==> frame_landing(#[trigger] frames[j], target) is None
}

/// A seek to sample `target` lands in no frame: it lies beyond the stream.
pub open spec fn beyond_stream(frames: Seq<(u64, u32, u32, Seq<i32>)>, target: int) -> bool {
    forall|j: int| 0 <= j < frames.len() ==> frame_landing(#[trigger] frames[j], target) is None
}

/// The block a seek leaves for the next step when it lands in `frame`: the
/// frame without the samples before the target, and where that part starts.
pub open spec fn landed_block(frame: (u64, u32, u32, Seq<i32>), target: int) -> (u64, Seq<[i16; 2]>) {
    let (start, skipped) = frame_landing(frame, target)->0;
    (start as u64, frame_block(frame).skip(skipped))
}

/// `after` is `before` after a seek to millisecond `time` in the stream
/// `data` that gave `r`.
pub open spec fn seek_post(before: FlacDecoder, after: FlacDecoder, data: Seq<u8>, time: u32, r: Result<(), DecodeError>) -> bool {
    &&& after.wf()
    &&& r is Err ==> after == before
    &&& flac_header(data) is None ==> r == Err::<(), DecodeError>(DecodeError::Unopenable)
    &&& flac_header(data) matches Some((rate, channels, _, _)) ==> {
        let frames = flac_frames(data);
        let target = seek_index(time as int, rate as int);
        &&& r is Err ==> r == Err::<(), DecodeError>(DecodeError::SeekOutOfRange)
        &&& r is Err <==> beyond_stream(frames, target)
        &&& r is Ok ==> exists|k: int| {
            &&& #[trigger] lands_at(frames, target, k)
            &&& after.frames_read() == k + 1
            &&& after.pending_block() == Some(landed_block(frames[k], target))
        }
        &&& r is Ok ==> {
            &&& after.bytes() == data
            &&& after.rate() == rate
            &&& after.channels() == channels
            &&& after.time() == time
            &&& after.position() == before.position()
        }
    }
}

/// How many inter-channel samples the first `k` frames hold.
pub open spec fn samples_before(frames: Seq<(u64, u32, u32, Seq<i32>)>, k: int) -> int
    decreases k,
{
    if k <= 0 {
        0
    } else {
        samples_before(frames, k - 1) + frames[k - 1].1
    }
}

/// The stream numbers its frames as their sizes add up: each frame starts
/// where the frames before it end, up to frame `k`.
pub open spec fn numbered_in_order(frames: Seq<(u64, u32, u32, Seq<i32>)>, k: int) -> bool {
    forall|j: int| 0 <= j <= k ==> (#[trigger] frames[j]).0 == samples_before(frames, j)
}

/// The time never runs ahead of the audio handed out: in a stream that numbers
/// its frames as their sizes add up, the time of frame `k` is at most the
/// duration of the samples of frames 0 to `k`, and no earlier frame is timed
/// later.
pub proof fn lemma_time_within_audio(frames: Seq<(u64, u32, u32, Seq<i32>)>, k: int, rate: int)
    requires
        0 <= k < frames.len(),
        rate >= 1,
        numbered_in_order(frames, k),
    ensures
        frame_time_ms(frames[k].0 as int, rate) <= samples_before(frames, k + 1) * 1000 / rate,
        forall|j: int| 0 <= j <= k ==> frame_time_ms(#[trigger] frames[j].0 as int, rate) <= frame_time_ms(frames[k].0 as int, rate),
{
    let start = frames[k].0 as int;
    assert(frames[k].0 == samples_before(frames, k));
    assert(samples_before(frames, k + 1) >= start);
    assert(start * 1000 <= samples_before(frames, k + 1) * 1000) by (nonlinear_arith)
        requires
            start <= samples_before(frames, k + 1),
    ;
    vstd::arithmetic::div_mod::lemma_div_is_ordered(start * 1000, samples_before(frames, k + 1) * 1000, rate);
    assert forall|j: int| 0 <= j <= k implies frame_time_ms(#[trigger] frames[j].0 as int, rate) <= frame_time_ms(start, rate) by {
        lemma_samples_before_grow(frames, j, k);
        assert(frames[j].0 == samples_before(frames, j));
        let sj = frames[j].0 as int;
        assert(sj * 1000 <= start * 1000) by (nonlinear_arith)
            requires
                sj <= start,
        ;
        vstd::arithmetic::div_mod::lemma_div_is_ordered(sj * 1000, start * 1000, rate);
    }
}

proof fn lemma_samples_before_grow(frames: Seq<(u64, u32, u32, Seq<i32>)>, a: int, b: int)
    requires
        0 <= a <= b <= frames.len(),
    ensures
        samples_before(frames, a) <= samples_before(frames, b),
    decreases b - a,
{
    if a < b {
        lemma_samples_before_grow(frames, a, b - 1);
    }
}

/// After a seek to `t` ms whose target sample lies inside the frame it lands
/// in, the block left for the next step starts at the target sample, and the
/// time reported with it is `t`: within one block's duration of the target.
pub proof fn lemma_seek_reports_target(frame: (u64, u32, u32, Seq<i32>), t: int, rate: int)
    requires
        0 <= t <= u32::MAX,
        1 <= rate <= 655350,
        frame_landing(frame, seek_index(t, rate)) is Some,
        frame.0 <= seek_index(t, rate),
    ensures
        landed_block(frame, seek_index(t, rate)).0 == seek_index(t, rate),
        advance_time(t, landed_block(frame, seek_index(t, rate)).0 as int, rate) == t,
{
    let idx = seek_index(t, rate);
    assert(idx >= 0) by {
        assert(t * rate >= 0) by (nonlinear_arith)
            requires
                t >= 0,
                rate >= 1,
        ;
        vstd::arithmetic::div_mod::lemma_div_pos_is_pos(t * rate, 1000);
    }
    assert(idx <= u64::MAX) by {
        assert(t * rate <= u32::MAX * 655350) by (nonlinear_arith)
            requires
                0 <= t <= u32::MAX,
                1 <= rate <= 655350,
        ;
        vstd::arithmetic::div_mod::lemma_div_is_ordered(t * rate, u32::MAX * 655350, 1000);
    }
    lemma_seek_lands_within_a_block(t, rate, 1);
}

/// Repositions the decoder at millisecond `time` of the stream in `data`,
/// which it reads again from its start: frames are decoded and dropped up to
/// the first one that ends after sample `time * rate / 1000`. That frame,
/// without the samples before the target, is what the next step hands out,
/// and the elapsed time is `time`. The decoder then decodes `data`, at its
/// rate. On an error the decoder is left as it was: `Unopenable` where `data`
/// holds no FLAC stream, `SeekOutOfRange` where the target lies beyond the
/// last frame.
pub fn skip_to(data: Vec<u8>, time: u32, decoder: &mut FlacDecoder) -> (r: Result<(), DecodeError>)
    requires
        old(decoder).wf(),
    ensures
        seek_post(*old(decoder), *final(decoder), data@, time, r),
{
    let mut stream = match open_reader(data) {
        Ok(stream) => stream,
        Err(_) => {
            return Err(DecodeError::Unopenable);
        },
    };
    let facts = stream_facts(&stream);
    let target = seek_sample_index(time, facts.sample_rate);
    let ghost frames = flac_frames(data@);
    let mut buffer: Vec<i32> = Vec::new();
    loop
        invariant
            *decoder == *old(decoder),
            old(decoder).wf(),
            stream.bytes() == data@,
            frames == flac_frames(data@),
            flac_header(data@) == Some((facts.sample_rate, facts.channels, facts.max_block_size, facts.samples)),
            1 <= facts.sample_rate <= 655350,
            1 <= facts.channels <= 8,
            target == seek_index(time as int, facts.sample_rate as int),
            !stream.ended(),
            stream.read() <= frames.len(),
            forall|j: int| 0 <= j < stream.read() ==> frame_landing(#[trigger] frames[j], target as int) is None,
        decreases frames.len() - stream.read(),
    {
        let ghost k = stream.read() as int;
        match read_frame(&mut stream, buffer) {
            Ok(Some(frame)) => {
                match seek_landing(frame.start, frame.block_size, target) {
                    Some((start, skipped)) => {
                        let samples = stereo_samples(&frame);
                        let block = drop_front(samples, skipped);
                        decoder.stream = stream;
                        decoder.exhausted = false;
                        decoder.sample_rate = facts.sample_rate;
                        decoder.num_channels = facts.channels;
                        decoder.scratch = frame.buffer;
                        decoder.current_time = time;
                        decoder.pending = Some((start, block));
                        proof {
                            assert(lands_at(frames, target as int, k));
                            assert(frame.view_tuple() == frames[k]);
                            assert(decoder.pending_block() == Some(landed_block(frames[k], target as int)));
                            assert(decoder.frames_read() == k + 1);
                            assert(decoder.wf());
                        }
                        return Ok(());
                    },
                    None => {
                        buffer = frame.buffer;
                    },
                }
            },
            _ => {
                proof {
                    assert(beyond_stream(frames, target as int));
                }
                return Err(DecodeError::SeekOutOfRange);
            },
        }
    }
}

} // verus!
