//! Audio jitter buffer core: packet queue, playout status and the sample buffer.
//!
//! Packets and samples are type parameters: the buffer never looks inside a packet
//! (the Opus decoder does), and it only moves samples around, so the same logic
//! serves any sample type.
use vstd::prelude::*;

verus! {

/// Assumed packet duration ("ptime") before the decoder has reported one.
pub const PACKET_DURATION_MS: u16 = 20;
/// Audio to hold before playing, and the floor under which playback slows down.
pub const MIN_BUFFER_MS: usize = 100;
/// Audio held at most; playback speeds up near this level.
pub const MAX_BUFFER_MS: usize = 1000;
/// Number of queued packets above which a full buffer is fast-forwarded.
pub const ACCELERATE_WHEN_PACKETS_HELD_BACK: usize = 20;
/// Number of queued packets above which the queue is cut back.
pub const CAP_PACKETS_HELD_BACK: usize = 80;
/// Samples in 10 ms of 48 kHz stereo audio.
pub const MAX_10MS_SAMPLE_COUNT: usize = 960;
/// Capacity of the sample buffer: `MAX_BUFFER_MS` of 48 kHz stereo audio.
pub const AUDIO_BUFFER_CAPACITY: usize = 96000;

/// Playout state of a jitter buffer.
#[derive(Clone, Copy, Debug, PartialEq, Eq, Structural)]
pub enum JitterStatus {
    /// No packets received yet.
    WaitingForFirstPacket,
    /// First packet received, waiting for more.
    WaitingForMorePackets,
    /// Enough audio buffered, playing at normal speed.
    Normal,
    /// Buffer ran dry: play silence until the minimum is buffered again.
    IncreasingBuffer,
    /// Buffer is too full: play at double speed until it is back in range.
    DecreasingBuffer,
}

/// What the decoder thread has to do on a 20 ms tick.
pub enum TickStep<P> {
    /// No packet has arrived yet: nothing happens.
    Waiting,
    /// No packet was queued: it is counted as lost, and the next packet is decoded
    /// with forward error correction first.
    Lost,
    /// Decode this packet, after recovering the lost one from its FEC data when
    /// `decode_fec_first` holds.
    Decode { packet: P, decode_fec_first: bool },
}

/// Samples in 10 ms of audio at `sample_rate` with `channels` interleaved channels.
pub open spec fn spec_samples_10ms(sample_rate: u32, channels: u16) -> int {
    (sample_rate / 1000) as int * 10 * channels as int
}

/// The next playout status, from the current one, the number of buffered samples,
/// the number of queued packets, and the samples in 10 ms.
pub open spec fn spec_next_status(cur: JitterStatus, buffered: int, packets: int, s10: int) -> JitterStatus {
    let has_too_many_packets = packets > ACCELERATE_WHEN_PACKETS_HELD_BACK;
    let is_over = buffered > (MAX_BUFFER_MS / 10 - 4) * s10 && has_too_many_packets;
    let is_under = buffered < (MIN_BUFFER_MS / 10) * s10;
    let is_normal = !is_over && !is_under;
    let is_critical = buffered < s10;
    if cur == JitterStatus::IncreasingBuffer && is_normal {
        JitterStatus::Normal
    } else if cur == JitterStatus::DecreasingBuffer && is_normal {
        JitterStatus::Normal
    } else if cur == JitterStatus::Normal && is_over {
        JitterStatus::DecreasingBuffer
    } else if cur == JitterStatus::Normal && is_critical {
        JitterStatus::IncreasingBuffer
    } else {
        cur
    }
}

/// How playout moves between statuses (with `s10` samples in 10 ms, `buffered`
/// samples held and `packets` queued): an underrun ends as soon as at least
/// 100 ms are buffered again (unless the buffer is over-full), fast playout ends the
/// same way, normal playout speeds up when over 960 ms are held with more than 20
/// packets queued and turns to silence when less than 10 ms are left, and the
/// waiting statuses are left alone.
pub proof fn law_playout_status_moves(cur: JitterStatus, buffered: int, packets: int, s10: int)
    ensures
        ({
            let over = buffered > 96 * s10 && packets > 20;
            let refilled = buffered >= 10 * s10 && !over;
            let next = spec_next_status(cur, buffered, packets, s10);
            &&& cur == JitterStatus::IncreasingBuffer && refilled ==> next == JitterStatus::Normal
            &&& cur == JitterStatus::IncreasingBuffer && !refilled ==> next == JitterStatus::IncreasingBuffer
            &&& cur == JitterStatus::DecreasingBuffer && refilled ==> next == JitterStatus::Normal
            &&& cur == JitterStatus::DecreasingBuffer && !refilled ==> next == JitterStatus::DecreasingBuffer
            &&& cur == JitterStatus::Normal && over ==> next == JitterStatus::DecreasingBuffer
            &&& cur == JitterStatus::Normal && !over && buffered < s10 ==> next == JitterStatus::IncreasingBuffer
            &&& cur == JitterStatus::Normal && !over && buffered >= s10 ==> next == JitterStatus::Normal
            &&& cur == JitterStatus::WaitingForFirstPacket ==> next == cur
            &&& cur == JitterStatus::WaitingForMorePackets ==> next == cur
        }),
{
}

/// Double-speed playout of `frames` frames of `ch` samples: of each pair of frames
/// the first is dropped and the second is kept.
pub open spec fn spec_fast_forward<S>(a: Seq<S>, ch: int, frames: nat) -> Seq<S>
    decreases frames,
{
    if frames == 0 {
        Seq::empty()
    } else {
        a.subrange(ch, 2 * ch) + spec_fast_forward(a.skip(2 * ch), ch, (frames - 1) as nat)
    }
}

/// The sample buffer after `push_audio(frame)`: when the frame does not fit in the
/// capacity, as many of the oldest samples as the frame holds are dropped first.
pub open spec fn spec_push_audio<S>(audio: Seq<S>, frame: Seq<S>, capacity: int) -> Seq<S> {
    if audio.len() + frame.len() > capacity {
        audio.skip(frame.len() as int) + frame
    } else {
        audio + frame
    }
}

/// Removes the `n` oldest items of a queue.
fn drop_front<T>(q: &mut std::collections::VecDeque<T>, n: usize)
    requires
        n <= old(q)@.len(),
    ensures
        final(q)@ == old(q)@.skip(n as int),
{
    let mut k: usize = 0;
    while k < n
        invariant
            k <= n <= old(q)@.len(),
            q@ == old(q)@.skip(k as int),
        decreases n - k,
    {
        let _ = q.pop_front();
        k = k + 1;
    }
}

/// Jitter buffer for one remote audio track.
pub struct JitterCore<P, S> {
    sample_rate: u32,
    channels: u16,
    samples_10ms: usize,
    packets: std::collections::VecDeque<P>,
    audio: std::collections::VecDeque<S>,
    previous_lost: bool,
    current_tick: u64,
    packet_duration_ms: u32,
    total_lost: u64,
    total_packets: u64,
    total_fec: u64,
    status: JitterStatus,
}

impl<P, S: Copy> JitterCore<P, S> {
    pub closed spec fn spec_sample_rate(&self) -> u32 {
        self.sample_rate
    }

    pub closed spec fn spec_channels(&self) -> u16 {
        self.channels
    }

    /// Queued packets, oldest first.
    pub closed spec fn spec_packets(&self) -> Seq<P> {
        self.packets@
    }

    /// Buffered samples, oldest first.
    pub closed spec fn spec_audio(&self) -> Seq<S> {
        self.audio@
    }

    pub closed spec fn spec_status(&self) -> JitterStatus {
        self.status
    }

    /// Whether the last tick found no packet.
    pub closed spec fn spec_previous_lost(&self) -> bool {
        self.previous_lost
    }

    pub closed spec fn spec_current_tick(&self) -> u64 {
        self.current_tick
    }

    pub closed spec fn spec_packet_duration_ms(&self) -> u32 {
        self.packet_duration_ms
    }

    pub closed spec fn spec_total_lost(&self) -> u64 {
        self.total_lost
    }

    pub closed spec fn spec_total_packets(&self) -> u64 {
        self.total_packets
    }

    pub closed spec fn spec_total_fec(&self) -> u64 {
        self.total_fec
    }

    /// Samples in 10 ms for this buffer's rate and channel count.
    pub open spec fn s10(&self) -> int {
        spec_samples_10ms(self.spec_sample_rate(), self.spec_channels())
    }

    /// Well-formedness: at least one channel, a rate of at least 1 kHz, sizes that
    /// fit in memory arithmetic, a bounded packet queue, and enough audio behind a
    /// fast-forward that every double-speed read finds its samples.
    pub closed spec fn wf(&self) -> bool {
        &&& self.channels >= 1
        &&& self.sample_rate >= 1000
        &&& self.samples_10ms == spec_samples_10ms(self.sample_rate, self.channels)
        &&& self.samples_10ms * 100 <= usize::MAX
        &&& self.packets@.len() <= CAP_PACKETS_HELD_BACK + 1
        &&& self.status == JitterStatus::DecreasingBuffer ==> self.audio@.len() >= (MIN_BUFFER_MS / 10) * self.samples_10ms
    }

    /// An empty buffer waiting for its first packet.
    pub fn new(sample_rate: u32, channels: u16) -> (j: Self)
        requires
            sample_rate >= 1000,
            channels >= 1,
            spec_samples_10ms(sample_rate, channels) * 100 <= usize::MAX,
        ensures
            j.wf(),
            j.spec_sample_rate() == sample_rate,
            j.spec_channels() == channels,
            j.spec_packets().len() == 0,
            j.spec_audio().len() == 0,
            j.spec_status() == JitterStatus::WaitingForFirstPacket,
            !j.spec_previous_lost(),
            j.spec_current_tick() == 0,
            j.spec_packet_duration_ms() == 0,
            j.spec_total_lost() == 0,
            j.spec_total_packets() == 0,
            j.spec_total_fec() == 0,
    {
        let per_ms = (sample_rate / 1000) as usize;
        assert(per_ms * 10 * channels as int <= usize::MAX) by (nonlinear_arith)
            requires
                per_ms * 10 * channels as int * 100 <= usize::MAX,
                channels >= 1;
        let samples_10ms = per_ms * 10 * channels as usize;
        JitterCore {
            sample_rate,
            channels,
            samples_10ms,
            packets: std::collections::VecDeque::new(),
            audio: std::collections::VecDeque::new(),
            previous_lost: false,
            current_tick: 0,
            packet_duration_ms: 0,
            total_lost: 0,
            total_packets: 0,
            total_fec: 0,
            status: JitterStatus::WaitingForFirstPacket,
        }
    }

    /// Samples in 10 ms: rate in kHz, times ten, times channels.
    pub fn sample_count_10ms(&self) -> (n: usize)
        requires
            self.wf(),
        ensures
            n == self.s10(),
    {
        self.samples_10ms
    }

    pub fn get_packets_len(&self) -> (n: usize)
        ensures
            n == self.spec_packets().len(),
    {
        self.packets.len()
    }

    /// Number of buffered samples.
    pub fn buffered_len(&self) -> (n: usize)
        ensures
            n == self.spec_audio().len(),
    {
        self.audio.len()
    }

    pub fn status(&self) -> (s: JitterStatus)
        ensures
            s == self.spec_status(),
    {
        self.status
    }

    /// Queues a packet.  When more than `CAP_PACKETS_HELD_BACK` packets are held
    /// back, the oldest `CAP_PACKETS_HELD_BACK` are dropped first.  The first packet
    /// ends the wait for a first packet.
    pub fn insert_packet(&mut self, p: P)
        requires
            old(self).wf(),
        ensures
            final(self).wf(),
            final(self).spec_packets() == (if old(self).spec_packets().len() > CAP_PACKETS_HELD_BACK {
                old(self).spec_packets().skip(CAP_PACKETS_HELD_BACK as int)
            } else {
                old(self).spec_packets()
            }).push(p),
            final(self).spec_status() == (if old(self).spec_status() == JitterStatus::WaitingForFirstPacket {
                JitterStatus::WaitingForMorePackets
            } else {
                old(self).spec_status()
            }),
            Self::same_counters_and_audio(old(self), final(self)),
    {
        if self.packets.len() > CAP_PACKETS_HELD_BACK {
            drop_front(&mut self.packets, CAP_PACKETS_HELD_BACK);
        }
        self.packets.push_back(p);
        if self.status == JitterStatus::WaitingForFirstPacket {
            self.status = JitterStatus::WaitingForMorePackets;
        }
    }

    /// Everything but the packet queue and the status is unchanged.
    pub open spec fn same_counters_and_audio(a: &Self, b: &Self) -> bool {
        &&& b.spec_sample_rate() == a.spec_sample_rate()
        &&& b.spec_channels() == a.spec_channels()
        &&& b.spec_audio() == a.spec_audio()
        &&& b.spec_previous_lost() == a.spec_previous_lost()
        &&& b.spec_current_tick() == a.spec_current_tick()
        &&& b.spec_packet_duration_ms() == a.spec_packet_duration_ms()
        &&& b.spec_total_lost() == a.spec_total_lost()
        &&& b.spec_total_packets() == a.spec_total_packets()
        &&& b.spec_total_fec() == a.spec_total_fec()
    }
}


/// A counter after one more event; the atomic counters it stands for wrap around.
pub open spec fn spec_bump(x: u64) -> u64 {
    if x == u64::MAX { 0 } else { (x + 1) as u64 }
}

fn bump(x: u64) -> (y: u64)
    ensures
        y == spec_bump(x),
{
    if x == u64::MAX { 0 } else { x + 1 }
}

/// Moves the `n` oldest items of `q` to the end of `out`.
fn move_front<S>(q: &mut std::collections::VecDeque<S>, n: usize, out: &mut Vec<S>)
    requires
        n <= old(q)@.len(),
    ensures
        final(q)@ == old(q)@.skip(n as int),
        final(out)@ == old(out)@ + old(q)@.take(n as int),
{
    let mut k: usize = 0;
    while k < n
        invariant
            k <= n <= old(q)@.len(),
            q@ == old(q)@.skip(k as int),
            out@ == old(out)@ + old(q)@.take(k as int),
        decreases n - k,
    {
        let x = q.pop_front();
        match x {
            Some(v) => {
                out.push(v);
                assert(old(q)@.take(k + 1) == old(q)@.take(k as int).push(v));
            },
            None => {},
        }
        k = k + 1;
    }
}

/// Plays `frames` frames of `ch` samples at double speed: of each pair of frames the
/// first is dropped and the second goes to `out`.
fn fast_forward_front<S>(q: &mut std::collections::VecDeque<S>, ch: usize, frames: usize) -> (out: Vec<S>)
    requires
        ch >= 1,
        2 * ch * frames <= old(q)@.len(),
    ensures
        final(q)@ == old(q)@.skip(2 * ch * frames),
        out@ == spec_fast_forward(old(q)@, ch as int, frames as nat),
{
    let mut out: Vec<S> = Vec::new();
    let mut dropped: Vec<S> = Vec::new();
    let mut j: usize = 0;
    while j < frames
        invariant
            ch >= 1,
            j <= frames,
            2 * ch * frames <= old(q)@.len(),
            q@ == old(q)@.skip(2 * ch * j),
            out@ + spec_fast_forward(q@, ch as int, (frames - j) as nat) == spec_fast_forward(
                old(q)@,
                ch as int,
                frames as nat,
            ),
        decreases frames - j,
    {
        assert(2 * ch * j + 2 * ch <= 2 * ch * frames) by (nonlinear_arith)
            requires
                j < frames;
        let ghost before = q@;
        move_front(q, ch, &mut dropped);
        let ghost mid = q@;
        let ghost out_before = out@;
        move_front(q, ch, &mut out);
        assert(out@ == out_before + before.subrange(ch as int, 2 * ch as int)) by {
            assert(mid.take(ch as int) == before.subrange(ch as int, 2 * ch as int));
        }
        assert(q@ == before.skip(2 * ch as int));
        assert(old(q)@.skip(2 * ch * j).skip(2 * ch as int) == old(q)@.skip(2 * ch * (j + 1))) by {
            assert(2 * ch * j + 2 * ch == 2 * ch * (j + 1)) by (nonlinear_arith);
        }
        j = j + 1;
    }
    out
}

/// `n` copies of `value`.
fn filled<S: Copy>(value: S, n: usize) -> (v: Vec<S>)
    ensures
        v@ == Seq::new(n as nat, |i: int| value),
{
    let mut v: Vec<S> = Vec::new();
    let mut i: usize = 0;
    while i < n
        invariant
            i <= n,
            v@ == Seq::new(i as nat, |k: int| value),
        decreases n - i,
    {
        v.push(value);
        i = i + 1;
    }
    v
}

impl<P, S: Copy> JitterCore<P, S> {
    /// Nothing but the status and the sample buffer changes.
    pub open spec fn keeps_queue_and_counters(a: &Self, b: &Self) -> bool {
        &&& b.spec_sample_rate() == a.spec_sample_rate()
        &&& b.spec_channels() == a.spec_channels()
        &&& b.spec_packets() == a.spec_packets()
        &&& b.spec_previous_lost() == a.spec_previous_lost()
        &&& b.spec_current_tick() == a.spec_current_tick()
        &&& b.spec_packet_duration_ms() == a.spec_packet_duration_ms()
        &&& b.spec_total_lost() == a.spec_total_lost()
        &&& b.spec_total_packets() == a.spec_total_packets()
        &&& b.spec_total_fec() == a.spec_total_fec()
    }

    /// Fills `output` with 10 ms of silence and returns the number of samples written.
    pub fn generate_silence(&self, output: &mut Vec<S>, silence: S) -> (n: usize)
        requires
            self.wf(),
            old(output)@.len() == self.s10(),
        ensures
            n == self.s10(),
            final(output)@ == Seq::new(n as nat, |i: int| silence),
    {
        let n = self.samples_10ms;
        *output = filled(silence, n);
        n
    }

    /// A buffer to hand to `get_audio`: 10 ms of `silence`.
    pub fn allocate_output_buffer(&self, silence: S) -> (v: Vec<S>)
        requires
            self.wf(),
        ensures
            v@ == Seq::new(self.s10() as nat, |i: int| silence),
    {
        filled(silence, self.samples_10ms)
    }

    /// Gets 10 ms of audio into `output` (always `s10` samples).  Until more than
    /// `MIN_BUFFER_MS` of audio is buffered after the first packet, this is silence;
    /// then the status machine picks normal speed (the oldest samples), double speed
    /// while the buffer is too full and packets are piling up (every other frame
    /// dropped), or silence after the buffer ran dry, until it refills to the minimum.
    pub fn get_audio(&mut self, output: &mut Vec<S>, silence: S) -> (n: usize)
        requires
            old(self).wf(),
            old(output)@.len() == old(self).s10(),
        ensures
            final(self).wf(),
            Self::keeps_queue_and_counters(old(self), final(self)),
            n == old(self).s10(),
            final(output)@.len() == n,
            ({
                let st = old(self).spec_status();
                let audio = old(self).spec_audio();
                let s10 = old(self).s10();
                let waiting = st == JitterStatus::WaitingForFirstPacket || st == JitterStatus::WaitingForMorePackets;
                if waiting && audio.len() <= (MIN_BUFFER_MS / 10) * s10 {
                    &&& final(output)@ == Seq::new(n as nat, |i: int| silence)
                    &&& final(self).spec_status() == st
                    &&& final(self).spec_audio() == audio
                } else {
                    let cur = if waiting { JitterStatus::Normal } else { st };
                    let next = spec_next_status(cur, audio.len() as int, old(self).spec_packets().len() as int, s10);
                    &&& final(self).spec_status() == next
                    &&& if next == JitterStatus::IncreasingBuffer {
                        &&& final(output)@ == Seq::new(n as nat, |i: int| silence)
                        &&& final(self).spec_audio() == audio
                    } else if next == JitterStatus::DecreasingBuffer {
                        let ch = old(self).spec_channels() as int;
                        &&& final(output)@ == spec_fast_forward(audio, ch, (s10 / ch) as nat)
                        &&& final(self).spec_audio() == audio.skip(2 * s10)
                    } else {
                        &&& final(output)@ == audio.take(s10)
                        &&& final(self).spec_audio() == audio.skip(s10)
                    }
                }
            }),
    {
        // MIN_BUFFER_MS / 10 periods of 10 ms
        assert(MIN_BUFFER_MS / 10 == 10);
        let required_initial_buffer_amount = 10 * self.samples_10ms;
        let status = self.status;
        if status == JitterStatus::WaitingForFirstPacket || status == JitterStatus::WaitingForMorePackets {
            if self.audio.len() > required_initial_buffer_amount {
                self.status = JitterStatus::Normal;
            } else {
                return self.generate_silence(output, silence);
            }
        }
        self.pop_audio(output, silence)
    }

    /// One playout step: the status moves on by `spec_next_status` (from the
    /// buffered length, the queued packets and the current status; the waiting
    /// statuses stay as they are), then 10 ms are read in the new status: silence
    /// while the buffer refills, every other frame of 20 ms while it is too full,
    /// otherwise the oldest 10 ms.  In a waiting status the buffer must hold those
    /// 10 ms (reading past its end would fail).
    pub fn pop_audio(&mut self, output: &mut Vec<S>, silence: S) -> (n: usize)
        requires
            old(self).wf(),
            old(output)@.len() == old(self).s10(),
            (old(self).spec_status() == JitterStatus::WaitingForFirstPacket
                || old(self).spec_status() == JitterStatus::WaitingForMorePackets)
                ==> old(self).spec_audio().len() >= old(self).s10(),
        ensures
            final(self).wf(),
            Self::keeps_queue_and_counters(old(self), final(self)),
            n == old(self).s10(),
            final(output)@.len() == n,
            ({
                let audio = old(self).spec_audio();
                let s10 = old(self).s10();
                let next = spec_next_status(old(self).spec_status(), audio.len() as int, old(self).spec_packets().len() as int, s10);
                &&& final(self).spec_status() == next
                &&& if next == JitterStatus::IncreasingBuffer {
                    &&& final(output)@ == Seq::new(n as nat, |i: int| silence)
                    &&& final(self).spec_audio() == audio
                } else if next == JitterStatus::DecreasingBuffer {
                    let ch = old(self).spec_channels() as int;
                    &&& final(output)@ == spec_fast_forward(audio, ch, (s10 / ch) as nat)
                    &&& final(self).spec_audio() == audio.skip(2 * s10)
                } else {
                    &&& final(output)@ == audio.take(s10)
                    &&& final(self).spec_audio() == audio.skip(s10)
                }
            }),
    {
        let packet_len = self.packets.len();
        let buffer_len = self.audio.len();
        let samples_10ms = self.samples_10ms;
        let has_too_many_packets = packet_len > ACCELERATE_WHEN_PACKETS_HELD_BACK;
        // (MAX_BUFFER_MS / 10 - 4) and (MIN_BUFFER_MS / 10) periods of 10 ms
        assert(MAX_BUFFER_MS / 10 - 4 == 96 && MIN_BUFFER_MS / 10 == 10);
        let is_over_buffer = buffer_len > 96 * samples_10ms && has_too_many_packets;
        let is_under_buffer = buffer_len < 10 * samples_10ms;
        let is_buffer_normal = !is_over_buffer && !is_under_buffer;
        let is_critically_under_buffer = buffer_len < samples_10ms;
        let current_status = self.status;
        let next_status = if current_status == JitterStatus::IncreasingBuffer && is_buffer_normal {
            JitterStatus::Normal
        } else if current_status == JitterStatus::DecreasingBuffer && is_buffer_normal {
            JitterStatus::Normal
        } else if current_status == JitterStatus::Normal && is_over_buffer {
            JitterStatus::DecreasingBuffer
        } else if current_status == JitterStatus::Normal && is_critically_under_buffer {
            JitterStatus::IncreasingBuffer
        } else {
            current_status
        };
        if next_status == JitterStatus::IncreasingBuffer {
            self.status = next_status;
            return self.generate_silence(output, silence);
        }
        let ch = self.channels as usize;
        let ghost per_ms = (self.sample_rate / 1000) as int;
        assert(samples_10ms == (per_ms * 10) * ch);
        if next_status == JitterStatus::DecreasingBuffer {
            let frames = samples_10ms / ch;
            assert(frames == per_ms * 10 && 2 * ch * frames == 2 * samples_10ms && ch * frames == samples_10ms) by (nonlinear_arith)
                requires
                    samples_10ms == (per_ms * 10) * ch,
                    frames == samples_10ms / ch,
                    ch >= 1;
            let out = fast_forward_front(&mut self.audio, ch, frames);
            self.status = next_status;
            proof { lemma_fast_forward_len(old(self).audio@, ch as int, frames as nat); }
            *output = out;
        } else {
            let mut out: Vec<S> = Vec::new();
            move_front(&mut self.audio, samples_10ms, &mut out);
            self.status = next_status;
            assert(out@ == old(self).audio@.take(samples_10ms as int));
            *output = out;
        }
        samples_10ms
    }

    /// Appends decoded samples.  When they do not fit in `AUDIO_BUFFER_CAPACITY`, as
    /// many of the oldest samples as the frame holds are dropped first, to skip ahead.
    fn push_audio(&mut self, audio_frame: &[S])
        requires
            old(self).wf(),
            old(self).spec_audio().len() + audio_frame@.len() > AUDIO_BUFFER_CAPACITY
                ==> audio_frame@.len() <= old(self).spec_audio().len(),
        ensures
            final(self).wf(),
            final(self).spec_audio() == spec_push_audio(old(self).spec_audio(), audio_frame@, AUDIO_BUFFER_CAPACITY as int),
            final(self).spec_status() == old(self).spec_status(),
            Self::keeps_queue_and_counters(old(self), final(self)),
    {
        if self.audio.len() > AUDIO_BUFFER_CAPACITY || audio_frame.len() > AUDIO_BUFFER_CAPACITY - self.audio.len() {
            drop_front(&mut self.audio, audio_frame.len());
        }
        let ghost base = self.audio@;
        let mut i: usize = 0;
        while i < audio_frame.len()
            invariant
                i <= audio_frame@.len(),
                self.audio@ == base + audio_frame@.take(i as int),
                self.channels == old(self).channels,
                self.sample_rate == old(self).sample_rate,
                self.samples_10ms == old(self).samples_10ms,
                self.packets == old(self).packets,
                self.status == old(self).status,
                self.previous_lost == old(self).previous_lost,
                self.current_tick == old(self).current_tick,
                self.packet_duration_ms == old(self).packet_duration_ms,
                self.total_lost == old(self).total_lost,
                self.total_packets == old(self).total_packets,
                self.total_fec == old(self).total_fec,
            decreases audio_frame@.len() - i,
        {
            self.audio.push_back(audio_frame[i]);
            assert(audio_frame@.take(i + 1) == audio_frame@.take(i as int).push(audio_frame@[i as int]));
            i = i + 1;
        }
        assert(audio_frame@.take(audio_frame@.len() as int) == audio_frame@);
    }

    /// Runs the 20 ms decoder tick.  Before the first packet nothing happens.  With a
    /// queued packet, the oldest is handed out for decoding (with FEC recovery first
    /// when the previous tick lost its packet); otherwise the tick counts a loss.
    pub fn tick(&mut self) -> (step: TickStep<P>)
        requires
            old(self).wf(),
        ensures
            final(self).wf(),
            final(self).spec_sample_rate() == old(self).spec_sample_rate(),
            final(self).spec_channels() == old(self).spec_channels(),
            final(self).spec_audio() == old(self).spec_audio(),
            final(self).spec_status() == old(self).spec_status(),
            final(self).spec_packet_duration_ms() == old(self).spec_packet_duration_ms(),
            final(self).spec_total_fec() == old(self).spec_total_fec(),
            if old(self).spec_status() == JitterStatus::WaitingForFirstPacket {
                &&& step is Waiting
                &&& final(self).spec_packets() == old(self).spec_packets()
                &&& final(self).spec_previous_lost() == old(self).spec_previous_lost()
                &&& final(self).spec_current_tick() == old(self).spec_current_tick()
                &&& final(self).spec_total_lost() == old(self).spec_total_lost()
                &&& final(self).spec_total_packets() == old(self).spec_total_packets()
            } else if old(self).spec_packets().len() == 0 {
                &&& step is Lost
                &&& final(self).spec_packets() == old(self).spec_packets()
                &&& final(self).spec_previous_lost()
                &&& final(self).spec_current_tick() == spec_bump(old(self).spec_current_tick())
                &&& final(self).spec_total_lost() == spec_bump(old(self).spec_total_lost())
                &&& final(self).spec_total_packets() == old(self).spec_total_packets()
            } else {
                &&& step matches TickStep::Decode { packet, decode_fec_first }
                &&& packet == old(self).spec_packets()[0]
                &&& decode_fec_first == old(self).spec_previous_lost()
                &&& final(self).spec_packets() == old(self).spec_packets().skip(1)
                &&& !final(self).spec_previous_lost()
                &&& final(self).spec_current_tick() == spec_bump(old(self).spec_current_tick())
                &&& final(self).spec_total_lost() == old(self).spec_total_lost()
                &&& final(self).spec_total_packets() == spec_bump(old(self).spec_total_packets())
            },
    {
        if self.status == JitterStatus::WaitingForFirstPacket {
            return TickStep::Waiting;
        }
        let next = self.packets.pop_front();
        let step = match next {
            Some(packet) => {
                let decode_fec_first = self.previous_lost;
                self.previous_lost = false;
                self.total_packets = bump(self.total_packets);
                TickStep::Decode { packet, decode_fec_first }
            },
            None => {
                self.previous_lost = true;
                self.total_lost = bump(self.total_lost);
                TickStep::Lost
            },
        };
        self.current_tick = bump(self.current_tick);
        assert(old(self).packets@.skip(1) == self.packets@ || old(self).packets@.len() == 0);
        step
    }

    /// Appends what the decoder produced for the packet of the current tick; `fec`
    /// marks audio recovered from forward error correction, which is counted.
    pub fn push_decoded(&mut self, samples: &[S], fec: bool)
        requires
            old(self).wf(),
            old(self).spec_audio().len() + samples@.len() > AUDIO_BUFFER_CAPACITY
                ==> samples@.len() <= old(self).spec_audio().len(),
        ensures
            final(self).wf(),
            final(self).spec_audio() == spec_push_audio(old(self).spec_audio(), samples@, AUDIO_BUFFER_CAPACITY as int),
            final(self).spec_total_fec() == (if fec { spec_bump(old(self).spec_total_fec()) } else { old(self).spec_total_fec() }),
            final(self).spec_status() == old(self).spec_status(),
            final(self).spec_packets() == old(self).spec_packets(),
            final(self).spec_sample_rate() == old(self).spec_sample_rate(),
            final(self).spec_channels() == old(self).spec_channels(),
            final(self).spec_previous_lost() == old(self).spec_previous_lost(),
            final(self).spec_current_tick() == old(self).spec_current_tick(),
            final(self).spec_packet_duration_ms() == old(self).spec_packet_duration_ms(),
            final(self).spec_total_lost() == old(self).spec_total_lost(),
            final(self).spec_total_packets() == old(self).spec_total_packets(),
    {
        self.push_audio(samples);
        if fec {
            self.total_fec = bump(self.total_fec);
        }
    }

    /// Milliseconds covered by `samples_per_channel` samples at this buffer's rate.
    pub fn samples_to_ms(&self, samples_per_channel: u32) -> (ms: usize)
        requires
            self.wf(),
        ensures
            ms == samples_per_channel as int / (self.spec_sample_rate() / 1000) as int,
    {
        samples_per_channel as usize / (self.sample_rate as usize / 1000)
    }

    /// Duration of the last decoded packet from the decoder's sample count for it,
    /// with `PACKET_DURATION_MS` when the decoder reports none; the count is returned too.
    pub fn last_packet_duration_ms(&self, last_packet_samples: u32) -> (r: (usize, u32))
        requires
            self.wf(),
        ensures
            r.1 == last_packet_samples,
            r.0 == (if last_packet_samples == 0 {
                PACKET_DURATION_MS as int
            } else {
                last_packet_samples as int / (self.spec_sample_rate() / 1000) as int
            }),
    {
        (
            if last_packet_samples == 0 {
                PACKET_DURATION_MS as usize
            } else {
                self.samples_to_ms(last_packet_samples)
            },
            last_packet_samples,
        )
    }

    /// Records the packet duration from a successful decode of `samples_per_channel`
    /// samples; an empty decode leaves the recorded duration alone.
    pub fn record_decoded_samples(&mut self, samples_per_channel: usize)
        requires
            old(self).wf(),
        ensures
            final(self).wf(),
            Self::keeps_queue_and_counters_except_duration(old(self), final(self)),
            final(self).spec_status() == old(self).spec_status(),
            final(self).spec_audio() == old(self).spec_audio(),
            final(self).spec_packet_duration_ms() == (if samples_per_channel > 0 {
                (samples_per_channel as int / (old(self).spec_sample_rate() / 1000) as int) as u32
            } else {
                old(self).spec_packet_duration_ms()
            }),
    {
        if samples_per_channel > 0 {
            let ms = samples_per_channel / (self.sample_rate as usize / 1000);
            self.packet_duration_ms = ms as u32;
        }
    }

    pub open spec fn keeps_queue_and_counters_except_duration(a: &Self, b: &Self) -> bool {
        &&& b.spec_sample_rate() == a.spec_sample_rate()
        &&& b.spec_channels() == a.spec_channels()
        &&& b.spec_packets() == a.spec_packets()
        &&& b.spec_previous_lost() == a.spec_previous_lost()
        &&& b.spec_current_tick() == a.spec_current_tick()
        &&& b.spec_total_lost() == a.spec_total_lost()
        &&& b.spec_total_packets() == a.spec_total_packets()
        &&& b.spec_total_fec() == a.spec_total_fec()
    }
}

/// Double-speed playout of `frames` frames yields `frames * ch` samples.
pub proof fn lemma_fast_forward_len<S>(a: Seq<S>, ch: int, frames: nat)
    requires
        ch >= 1,
        a.len() >= 2 * ch * frames,
    ensures
        spec_fast_forward(a, ch, frames).len() == ch * frames,
    decreases frames,
{
    if frames > 0 {
        let fm1: nat = (frames - 1) as nat;
        assert(2 * ch * frames == 2 * ch * fm1 + 2 * ch && ch * frames == ch * fm1 + ch
            && 2 * ch * fm1 >= 0) by (nonlinear_arith)
            requires
                ch >= 1,
                frames >= 1,
                fm1 == frames - 1;
        let rest = a.skip(2 * ch);
        lemma_fast_forward_len(rest, ch, fm1);
        let head = a.subrange(ch, 2 * ch);
        assert(spec_fast_forward(a, ch, frames) == head + spec_fast_forward(rest, ch, fm1));
        assert((head + spec_fast_forward(rest, ch, fm1)).len() == ch + ch * fm1);
    } else {
        assert(ch * frames == 0) by (nonlinear_arith)
            requires
                frames == 0;
    }
}

impl<P, S: Copy> JitterCore<P, S> {
    /// The packet queue never holds more than `CAP_PACKETS_HELD_BACK + 1` packets.
    pub proof fn law_packet_queue_bounded(&self)
        requires
            self.wf(),
        ensures
            self.spec_packets().len() <= CAP_PACKETS_HELD_BACK + 1,
    {
    }

    /// While the buffer fast-forwards it holds at least the minimum buffer, so every
    /// double-speed read finds its 20 ms of samples.
    pub proof fn law_fast_forward_has_samples(&self)
        requires
            self.wf(),
            self.spec_status() == JitterStatus::DecreasingBuffer,
        ensures
            self.spec_audio().len() >= 2 * self.s10(),
    {
        assert(MIN_BUFFER_MS / 10 == 10);
        assert((MIN_BUFFER_MS / 10) * self.samples_10ms == 10 * self.samples_10ms);
        let r = (self.spec_sample_rate() / 1000) as int;
        let c = self.spec_channels() as int;
        assert(r * 10 * c >= 0) by (nonlinear_arith)
            requires
                r >= 0,
                c >= 0;
    }
}

/// Once playback has started, the status machine never goes back to waiting for
/// packets: from any playing status the next status is a playing status.
pub proof fn law_playing_never_waits_again(cur: JitterStatus, buffered: int, packets: int, s10: int)
    requires
        cur != JitterStatus::WaitingForFirstPacket,
        cur != JitterStatus::WaitingForMorePackets,
    ensures
        spec_next_status(cur, buffered, packets, s10) != JitterStatus::WaitingForFirstPacket,
        spec_next_status(cur, buffered, packets, s10) != JitterStatus::WaitingForMorePackets,
{
}

/// Samples pushed without overflowing the buffer are appended behind the buffered
/// ones, so at normal speed they are played in the order they were decoded.
pub proof fn law_push_keeps_order<S>(audio: Seq<S>, frame: Seq<S>, s10: int)
    requires
        audio.len() + frame.len() <= AUDIO_BUFFER_CAPACITY,
        0 <= s10 <= audio.len(),
    ensures
        spec_push_audio(audio, frame, AUDIO_BUFFER_CAPACITY as int).take(s10) == audio.take(s10),
        spec_push_audio(audio, frame, AUDIO_BUFFER_CAPACITY as int).skip(s10) == audio.skip(s10) + frame,
{
    assert(spec_push_audio(audio, frame, AUDIO_BUFFER_CAPACITY as int).take(s10) =~= audio.take(s10));
    assert(spec_push_audio(audio, frame, AUDIO_BUFFER_CAPACITY as int).skip(s10) =~= audio.skip(s10) + frame);
}

} // verus!
