use vstd::prelude::*;
use crate::flac::{self, DecodeError, FlacDecoder};
use crate::playlist::PlayerMsg;

verus! {

/// A command for the audio thread, taken in the order it was given.
#[derive(Debug)]
pub enum Action {
    /// Start playing the file at this path.
    Load(String),
    /// Move to this many milliseconds into the file at this path.
    Skip(String, u32),
    /// Drop the current file.
    Stop,
}

/// One effect of a call on the control side, to be carried out in order.
#[derive(Debug)]
pub enum Notice {
    /// Deliver this message to the interface.
    Send(PlayerMsg),
    /// Put this command on the audio thread's queue.
    Enqueue(Action),
    /// Set the flag that tells the audio thread to decode, and wake it.
    SetPlaying(bool),
}

/// The control side of the player: what the interface thread knows and
/// decides. Each call returns the effects it has, in the order they happen.
pub struct Player {
    paused: bool,
    stopped: bool,
}

/// A load queues the file and lets the audio thread play.
pub open spec fn load_notices(path: String) -> Seq<Notice> {
    seq![Notice::Enqueue(Action::Load(path)), Notice::SetPlaying(true)]
}

/// A seek only queues the command.
pub open spec fn skip_notices(path: String, time: u32) -> Seq<Notice> {
    seq![Notice::Enqueue(Action::Skip(path, time))]
}

/// A pause tells the interface that playback stopped, and holds the audio
/// thread at once, without going through the queue.
pub open spec fn pause_notices() -> Seq<Notice> {
    seq![Notice::Send(PlayerMsg::PlayerStop), Notice::SetPlaying(false)]
}

/// A resume tells the interface that playback started, and lets the audio
/// thread go on at once.
pub open spec fn resume_notices() -> Seq<Notice> {
    seq![Notice::Send(PlayerMsg::PlayerPlay), Notice::SetPlaying(true)]
}

/// A stop tells the interface the time went back to zero and that playback
/// stopped, unless the last call was a stop already.
pub open spec fn stop_notices(already_stopped: bool) -> Seq<Notice> {
    if already_stopped {
        seq![Notice::Enqueue(Action::Stop), Notice::SetPlaying(false)]
    } else {
        seq![
            Notice::Send(PlayerMsg::PlayerTime(0)),
            Notice::Send(PlayerMsg::PlayerStop),
            Notice::Enqueue(Action::Stop),
            Notice::SetPlaying(false),
        ]
    }
}

/// The commands among a run of effects, in order.
pub open spec fn enqueued(notices: Seq<Notice>) -> Seq<Action>
    decreases notices.len(),
{
    if notices.len() == 0 {
        Seq::empty()
    } else {
        let rest = enqueued(notices.drop_last());
        match notices.last() {
            Notice::Enqueue(a) => rest.push(a),
            _ => rest,
        }
    }
}

/// How many `PlayerStop` messages a run of effects sends.
pub open spec fn stops_sent(notices: Seq<Notice>) -> nat
    decreases notices.len(),
{
    if notices.len() == 0 {
        0
    } else {
        let rest = stops_sent(notices.drop_last());
        match notices.last() {
            Notice::Send(PlayerMsg::PlayerStop) => rest + 1,
            _ => rest,
        }
    }
}

proof fn lemma_enqueued_concat(a: Seq<Notice>, b: Seq<Notice>)
    ensures
        enqueued(a + b) == enqueued(a) + enqueued(b),
    decreases b.len(),
{
    if b.len() == 0 {
        assert(a + b =~= a);
        assert(enqueued(b) =~= Seq::<Action>::empty());
        assert(enqueued(a) + enqueued(b) =~= enqueued(a));
    } else {
        assert((a + b).drop_last() =~= a + b.drop_last());
        assert((a + b).last() == b.last());
        lemma_enqueued_concat(a, b.drop_last());
        match b.last() {
            Notice::Enqueue(x) => {
                assert(enqueued(a) + enqueued(b.drop_last()).push(x) =~= (enqueued(a) + enqueued(b.drop_last())).push(x));
            },
            _ => {},
        }
    }
}

/// Commands reach the queue in the order of the calls that made them: a load,
/// a seek in that file and a stop put exactly those three commands on the
/// queue, in that order.
pub proof fn lemma_commands_keep_call_order(path: String, time: u32)
    ensures
        enqueued(load_notices(path) + skip_notices(path, time) + stop_notices(false))
            == seq![Action::Load(path), Action::Skip(path, time), Action::Stop],
{
    let l = load_notices(path);
    let k = skip_notices(path, time);
    let st = stop_notices(false);
    assert(l.drop_last().drop_last() =~= Seq::<Notice>::empty());
    assert(enqueued(l) =~= seq![Action::Load(path)]) by {
        reveal_with_fuel(enqueued, 3);
    }
    assert(k.drop_last() =~= Seq::<Notice>::empty());
    assert(enqueued(k) =~= seq![Action::Skip(path, time)]) by {
        reveal_with_fuel(enqueued, 2);
    }
    assert(st.drop_last().drop_last().drop_last().drop_last() =~= Seq::<Notice>::empty());
    assert(enqueued(st) =~= seq![Action::Stop]) by {
        reveal_with_fuel(enqueued, 5);
    }
    lemma_enqueued_concat(l, k);
    lemma_enqueued_concat(l + k, st);
    assert(enqueued(l) + enqueued(k) + enqueued(st) =~= seq![Action::Load(path), Action::Skip(path, time), Action::Stop]);
}

/// Stopping is idempotent: two stops in a row tell the interface at most
/// once that playback stopped, whatever came before them.
pub proof fn lemma_stop_twice_stops_once(already_stopped: bool)
    ensures
        stops_sent(stop_notices(already_stopped) + stop_notices(true)) <= 1,
{
    let s = stop_notices(already_stopped) + stop_notices(true);
    if already_stopped {
        assert(s.drop_last().drop_last().drop_last().drop_last() =~= Seq::<Notice>::empty());
        assert(stops_sent(s) == 0) by {
            reveal_with_fuel(stops_sent, 5);
        }
    } else {
        let s2 = s.drop_last().drop_last();
        assert(s2 =~= stop_notices(false));
        assert(s2.drop_last().drop_last() =~= seq![Notice::Send(PlayerMsg::PlayerTime(0)), Notice::Send(PlayerMsg::PlayerStop)]);
        assert(s2.drop_last().drop_last().drop_last().drop_last() =~= Seq::<Notice>::empty());
        assert(stops_sent(s) == 1) by {
            reveal_with_fuel(stops_sent, 7);
        }
    }
}

impl Player {
    /// Whether playback is paused.
    pub closed spec fn paused(&self) -> bool {
        self.paused
    }

    /// Whether the last call was a stop.
    pub closed spec fn stopped(&self) -> bool {
        self.stopped
    }

    /// A player that is neither paused nor stopped.
    pub fn new() -> (r: Player)
        ensures
            !r.paused(),
            !r.stopped(),
    {
        Player { paused: false, stopped: false }
    }

    /// The duration, in whole seconds, that the FLAC stream in `data` declares.
    pub fn compute_duration(data: Vec<u8>) -> (r: Result<u64, DecodeError>)
        ensures
            r == flac::duration_query(data@),
    {
        flac::compute_duration(data)
    }

    /// Whether playback is paused.
    pub fn is_paused(&self) -> (r: bool)
        ensures
            r == self.paused(),
    {
        self.paused
    }

    /// Queues a move to `time` milliseconds into the file at `path`.
    pub fn skip(&self, path: String, time: u32) -> (r: Vec<Notice>)
        ensures
            r@ == skip_notices(path, time),
    {
        vec![Notice::Enqueue(Action::Skip(path, time))]
    }

    /// Queues the file at `path` and lets the audio thread play.
    pub fn load(&mut self, path: String) -> (r: Vec<Notice>)
        ensures
            r@ == load_notices(path),
            final(self).paused() == old(self).paused(),
            !final(self).stopped(),
    {
        self.stopped = false;
        vec![Notice::Enqueue(Action::Load(path)), Notice::SetPlaying(true)]
    }

    /// Holds playback where it is.
    pub fn pause(&mut self) -> (r: Vec<Notice>)
        ensures
            r@ == pause_notices(),
            final(self).paused(),
            final(self).stopped() == old(self).stopped(),
    {
        self.paused = true;
        vec![Notice::Send(PlayerMsg::PlayerStop), Notice::SetPlaying(false)]
    }

    /// Goes on playing from where a pause held.
    pub fn resume(&mut self) -> (r: Vec<Notice>)
        ensures
            r@ == resume_notices(),
            !final(self).paused(),
            !final(self).stopped(),
    {
        self.paused = false;
        self.stopped = false;
        vec![Notice::Send(PlayerMsg::PlayerPlay), Notice::SetPlaying(true)]
    }

    /// Drops the current file and stops the audio thread.
    pub fn stop(&mut self) -> (r: Vec<Notice>)
        ensures
            r@ == stop_notices(old(self).stopped()),
            !final(self).paused(),
            final(self).stopped(),
    {
        let mut out: Vec<Notice> = Vec::new();
        if !self.stopped {
            out.push(Notice::Send(PlayerMsg::PlayerTime(0)));
            out.push(Notice::Send(PlayerMsg::PlayerStop));
        }
        out.push(Notice::Enqueue(Action::Stop));
        out.push(Notice::SetPlaying(false));
        self.paused = false;
        self.stopped = true;
        proof {
            assert(out@ =~= stop_notices(old(self).stopped()));
        }
        out
    }
}

/// What one turn of the audio thread did, and so what the thread carries out
/// next.
#[derive(Debug)]
pub enum Step {
    /// A file was opened: configure the output for this sample rate.
    Loaded { rate: u32 },
    /// The file could not be opened; no file is loaded.
    LoadFailed,
    /// The loaded file was repositioned.
    Sought,
    /// The seek failed; the loaded file is as it was.
    SeekFailed(DecodeError),
    /// A seek came while no file was loaded, and was dropped.
    SkipIgnored,
    /// A stop command dropped the file.
    Unloaded,
    /// A block to write to the output, which started at `time` milliseconds.
    Block { time: u64, samples: Vec<[i16; 2]> },
    /// The decoder produced no samples this turn.
    Empty,
    /// The file ended: it was dropped, and the thread stops playing and waits.
    Finished,
    /// The thread was told to play with no file loaded: it stops playing and
    /// waits.
    Idle,
    /// Nothing to do: the thread waits for a command or the playing flag.
    Wait,
}

/// The messages a turn sends to the interface.
pub open spec fn step_events(step: Step) -> Seq<PlayerMsg> {
    match step {
        Step::Loaded { .. } => seq![PlayerMsg::PlayerPlay],
        Step::Block { time, .. } => seq![PlayerMsg::PlayerTime(time)],
        Step::Finished => seq![PlayerMsg::PlayerStop],
        _ => Seq::empty(),
    }
}

/// How many `PlayerStop` messages a run of turns sends.
pub open spec fn stop_messages(steps: Seq<Step>) -> nat
    decreases steps.len(),
{
    if steps.len() == 0 {
        0
    } else {
        let rest = stop_messages(steps.drop_last());
        let last = step_events(steps.last());
        if last.contains(PlayerMsg::PlayerStop) {
            rest + 1
        } else {
            rest
        }
    }
}

/// The end of a file stops playback once: a run of turns that decode blocks
/// and then reach the end of the stream sends exactly one `PlayerStop`.
pub proof fn lemma_end_of_stream_stops_once(steps: Seq<Step>)
    requires
        steps.len() >= 1,
        steps.last() is Finished,
        forall|i: int| 0 <= i < steps.len() - 1 ==> (#[trigger] steps[i] is Block || steps[i] is Empty),
    ensures
        stop_messages(steps) == 1,
{
    lemma_decoding_sends_no_stop(steps.drop_last());
    assert(step_events(steps.last()) =~= seq![PlayerMsg::PlayerStop]);
    assert(step_events(steps.last())[0] == PlayerMsg::PlayerStop);
}

proof fn lemma_decoding_sends_no_stop(steps: Seq<Step>)
    requires
        forall|i: int| 0 <= i < steps.len() ==> (#[trigger] steps[i] is Block || steps[i] is Empty),
    ensures
        stop_messages(steps) == 0,
    decreases steps.len(),
{
    if steps.len() > 0 {
        let last = steps.last();
        assert(steps[steps.len() - 1] is Block || steps[steps.len() - 1] is Empty);
        lemma_decoding_sends_no_stop(steps.drop_last());
        if last is Block {
            assert(step_events(last) =~= seq![PlayerMsg::PlayerTime(last->time)]);
        } else {
            assert(step_events(last) =~= Seq::<PlayerMsg>::empty());
        }
        assert(!step_events(last).contains(PlayerMsg::PlayerStop));
    }
}

impl Step {
    /// The messages this turn sends to the interface.
    pub fn events(&self) -> (r: Vec<PlayerMsg>)
        ensures
            r@ == step_events(*self),
    {
        match self {
            Step::Loaded { .. } => vec![PlayerMsg::PlayerPlay],
            Step::Block { time, .. } => vec![PlayerMsg::PlayerTime(*time)],
            Step::Finished => vec![PlayerMsg::PlayerStop],
            _ => Vec::new(),
        }
    }

    /// Whether the thread clears its playing flag after this turn.
    pub fn stops_playing(&self) -> (r: bool)
        ensures
            r == (*self is Finished || *self is Idle),
    {
        match self {
            Step::Finished | Step::Idle => true,
            _ => false,
        }
    }

    /// Whether the thread waits for a command or the playing flag after this
    /// turn.
    pub fn waits(&self) -> (r: bool)
        ensures
            r == (*self is Finished || *self is Idle || *self is Wait),
    {
        match self {
            Step::Finished | Step::Idle | Step::Wait => true,
            _ => false,
        }
    }
}

/// A turn that decoded a block: the file stays loaded, its elapsed time does
/// not go back, and a block is reported at the time reached.
pub open spec fn decoding_turn(before: AudioLoop, after: AudioLoop, r: Step) -> bool {
    &&& before.loaded()
    &&& after.loaded()
    &&& after.decoder().time() >= before.decoder().time()
    &&& r matches Step::Block { time, .. } ==> time == after.decoder().time()
}

/// The times of the blocks of a run of turns never go back: in a run of
/// decoding turns, with no command between them, a block comes at a time no
/// earlier than any block before it.
pub proof fn lemma_block_times_never_go_back(states: Seq<AudioLoop>, steps: Seq<Step>, i: int, j: int)
    requires
        states.len() == steps.len() + 1,
        forall|k: int| 0 <= k < steps.len() ==> #[trigger] decoding_turn(states[k], states[k + 1], steps[k]),
        0 <= i < j < steps.len(),
        steps[i] is Block,
        steps[j] is Block,
    ensures
        steps[i]->time <= steps[j]->time,
{
    assert(decoding_turn(states[i], states[i + 1], steps[i]));
    assert(decoding_turn(states[j], states[j + 1], steps[j]));
    lemma_times_chain(states, steps, i + 1, j);
}

proof fn lemma_times_chain(states: Seq<AudioLoop>, steps: Seq<Step>, a: int, b: int)
    requires
        states.len() == steps.len() + 1,
        forall|k: int| 0 <= k < steps.len() ==> #[trigger] decoding_turn(states[k], states[k + 1], steps[k]),
        0 <= a <= b < states.len(),
    ensures
        states[a].decoder().time() <= states[b].decoder().time(),
    decreases b - a,
{
    if a < b {
        let k = b - 1;
        assert(decoding_turn(states[k], states[k + 1], steps[k]));
        lemma_times_chain(states, steps, a, k);
    }
}

/// The state the audio thread owns: the file being decoded, if any.
pub struct AudioLoop {
    source: Option<FlacDecoder>,
}

impl AudioLoop {
    pub closed spec fn wf(&self) -> bool {
        self.source matches Some(d) ==> d.wf()
    }

    /// Whether a file is loaded.
    pub closed spec fn loaded(&self) -> bool {
        self.source is Some
    }

    /// The decoder of the loaded file.
    pub closed spec fn decoder(&self) -> FlacDecoder {
        self.source->0
    }

    pub fn new() -> (r: AudioLoop)
        ensures
            r.wf(),
            !r.loaded(),
    {
        AudioLoop { source: None }
    }

    pub fn is_loaded(&self) -> (r: bool)
        ensures
            r == self.loaded(),
    {
        self.source.is_some()
    }

    /// Carries out one command. `data` is the content of the file the command
    /// names, or `None` where it could not be read.
    pub fn handle(&mut self, action: Action, data: Option<Vec<u8>>) -> (r: Step)
        requires
            old(self).wf(),
        ensures
            handle_post(*old(self), *final(self), action, data, r),
    {
        match action {
            Action::Load(_) => {
                self.source = None;
                match data {
                    Some(bytes) => match FlacDecoder::new(bytes) {
                        Ok(decoder) => {
                            let rate = decoder.sample_rate();
                            self.source = Some(decoder);
                            Step::Loaded { rate }
                        },
                        Err(_) => Step::LoadFailed,
                    },
                    None => Step::LoadFailed,
                }
            },
            Action::Skip(_, time) => {
                match self.source {
                    Some(ref mut decoder) => match data {
                        Some(bytes) => match flac::skip_to(bytes, time, decoder) {
                            Ok(()) => Step::Sought,
                            Err(e) => Step::SeekFailed(e),
                        },
                        None => Step::SeekFailed(DecodeError::Unopenable),
                    },
                    None => Step::SkipIgnored,
                }
            },
            Action::Stop => {
                self.source = None;
                Step::Unloaded
            },
        }
    }

    /// Hands out the next block of the loaded file while the thread is
    /// playing.
    pub fn play_step(&mut self) -> (r: Step)
        requires
            old(self).wf(),
        ensures
            play_post(*old(self), *final(self), r),
            (r is Block || r is Empty) ==> decoding_turn(*old(self), *final(self), r),
    {
        let (step, finished) = match self.source {
            Some(ref mut decoder) => match flac::next_sample(decoder) {
                Some(samples) => {
                    if samples.len() > 0 {
                        (Step::Block { time: decoder.current_time() as u64, samples }, false)
                    } else {
                        (Step::Empty, false)
                    }
                },
                None => (Step::Finished, true),
            },
            None => (Step::Idle, false),
        };
        if finished {
            self.source = None;
        }
        step
    }

    /// One turn of the audio thread. A waiting command goes first, with the
    /// content of the file it names; else, while playing, one block is
    /// handed out; else the thread waits.
    pub fn step(&mut self, command: Option<(Action, Option<Vec<u8>>)>, playing: bool) -> (r: Step)
        requires
            old(self).wf(),
        ensures
            final(self).wf(),
            command matches Some((action, data)) ==> handle_post(*old(self), *final(self), action, data, r),
            command is None && playing ==> play_post(*old(self), *final(self), r),
            command is None && !playing ==> r is Wait && *final(self) == *old(self),
    {
        match command {
            Some((action, data)) => self.handle(action, data),
            None => {
                if playing {
                    self.play_step()
                } else {
                    Step::Wait
                }
            },
        }
    }
}

/// A seek's outcome as the decoder's result.
pub open spec fn seek_result(r: Step) -> Result<(), DecodeError> {
    match r {
        Step::SeekFailed(e) => Err(e),
        _ => Ok(()),
    }
}

/// `handle`: a load opens the file where its bytes hold a FLAC stream, and
/// leaves nothing loaded otherwise; a seek moves the loaded file as
/// `skip_to` does, and is dropped where no file is loaded; a stop drops the
/// file.
pub open spec fn handle_post(before: AudioLoop, after: AudioLoop, action: Action, data: Option<Vec<u8>>, r: Step) -> bool {
    &&& after.wf()
    &&& match action {
        Action::Load(_) => match data {
            Some(b) => match flac::flac_header(b@) {
                Some((rate, channels, _, _)) => {
                    &&& r == (Step::Loaded { rate })
                    &&& after.loaded()
                    &&& after.decoder().bytes() == b@
                    &&& after.decoder().frames_read() == 0
                    &&& after.decoder().rate() == rate
                    &&& after.decoder().channels() == channels
                    &&& after.decoder().time() == 0
                    &&& after.decoder().position() == 0
                    &&& after.decoder().pending_block() is None
                },
                None => r is LoadFailed && !after.loaded(),
            },
            None => r is LoadFailed && !after.loaded(),
        },
        Action::Skip(_, time) => if !before.loaded() {
            r is SkipIgnored && after == before
        } else {
            match data {
                Some(b) => {
                    &&& (r is Sought || r is SeekFailed)
                    &&& after.loaded()
                    &&& flac::seek_post(before.decoder(), after.decoder(), b@, time, seek_result(r))
                    &&& r is SeekFailed ==> after == before
                },
                None => r == Step::SeekFailed(DecodeError::Unopenable) && after == before,
            }
        },
        Action::Stop => r is Unloaded && !after.loaded(),
    }
}

/// `play_step`: with no file loaded the thread goes idle; once every frame of
/// the file was handed out the file ends and is dropped; else the next block
/// is handed out, as a block to write where it holds samples.
pub open spec fn play_post(before: AudioLoop, after: AudioLoop, r: Step) -> bool {
    &&& after.wf()
    &&& !before.loaded() ==> r is Idle && !after.loaded()
    &&& before.loaded() ==> match flac::next_block(before.decoder()) {
        None => r is Finished && !after.loaded(),
        Some(block) => {
            &&& after.loaded()
            &&& flac::after_next(before.decoder(), after.decoder())
            &&& block.len() == 0 ==> r is Empty
            &&& block.len() > 0 ==> (r matches Step::Block { time, samples }
                && samples@ == block && time == after.decoder().time())
        },
    }
}

} // verus!
