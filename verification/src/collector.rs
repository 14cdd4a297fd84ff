//! The audio collector: a double-buffered store for chunks of mono PCM
//! samples, with the start/stop/reconfigure state machine that governs a
//! capture worker.
//!
//! Samples are kept as raw signed 16-bit full-scale values: a stored value
//! `v` stands for the normalized amplitude `v / 32768`. Callers that want
//! floating-point amplitudes perform that division on the values this
//! module hands out; the division is a change of representation only, so
//! every property of a chunk is stated here over the raw values.
//!
//! The collector itself is a sequential state machine. The capture worker
//! thread, and the lock that makes the buffer swap atomic against a
//! concurrent reader, live with the caller: every mutating operation here
//! is meant to run under that single swap lock, and each one's cost is
//! bounded by the chunk length, so the lock is never held across a backend
//! wait.

use vstd::prelude::*;

verus! {

/// Default sample rate in Hz.
pub const DEFAULT_SAMPLE_RATE: u32 = 44100;

/// Default chunk size in frames.
pub const DEFAULT_CHUNK_SIZE: u32 = 512;

/// Lowest accepted sample rate in Hz.
pub const MIN_SAMPLE_RATE: u32 = 8000;

/// Lowest accepted chunk size in frames.
pub const MIN_CHUNK_SIZE: u32 = 16;

/// Device-node selector meaning "any node": the backend picks.
pub const NODE_ANY: u32 = 0xFFFF_FFFF;

/// The sequence of `n` silent samples.
pub open spec fn zero_seq(n: nat) -> Seq<i16> {
    Seq::new(n, |i: int| 0i16)
}

/// Abstract state of the collector: the two buffer contents by role, the
/// capture configuration, and whether a worker is running.
#[verifier::ext_equal]
pub struct AudioModel {
    /// Contents of the buffer currently exposed for reading.
    pub read: Seq<i16>,
    /// Contents of the buffer the producer writes into.
    pub write: Seq<i16>,
    /// Sample rate in Hz.
    pub sample_rate: u32,
    /// Chunk size in frames.
    pub chunk_size: u32,
    /// Device-node selector.
    pub node_id: u32,
    /// Whether a capture worker is live.
    pub running: bool,
}

impl AudioModel {
    /// Both buffers always hold exactly one chunk, and the configuration
    /// respects the clamps the setters enforce.
    pub open spec fn wf(self) -> bool {
        &&& self.read.len() == self.chunk_size
        &&& self.write.len() == self.chunk_size
        &&& self.sample_rate >= MIN_SAMPLE_RATE
        &&& self.chunk_size >= MIN_CHUNK_SIZE
    }

    /// The state a freshly constructed collector is in.
    pub open spec fn init() -> AudioModel {
        AudioModel {
            read: zero_seq(DEFAULT_CHUNK_SIZE as nat),
            write: zero_seq(DEFAULT_CHUNK_SIZE as nat),
            sample_rate: DEFAULT_SAMPLE_RATE,
            chunk_size: DEFAULT_CHUNK_SIZE,
            node_id: NODE_ANY,
            running: false,
        }
    }

    /// The capture configuration part of the state.
    pub open spec fn spec_config(self) -> CaptureConfig {
        CaptureConfig {
            sample_rate: self.sample_rate,
            chunk_size: self.chunk_size,
            node_id: self.node_id,
        }
    }

    /// How many frames a load with argument `count` touches: `count`
    /// clamped to the chunk size.
    pub open spec fn load_count(self, count: u32) -> u32 {
        if count <= self.chunk_size {
            count
        } else {
            self.chunk_size
        }
    }

    /// How many frames a read with argument `count` copies: `count`
    /// clamped into `[1, chunk_size]`.
    pub open spec fn read_count(self, count: u32) -> u32 {
        if self.load_count(count) < 1 {
            1
        } else {
            self.load_count(count)
        }
    }

    /// The state after loading `count` samples from `samples`: the write
    /// buffer takes the new frames (keeping its old tail past `count`) and
    /// the roles swap, so the loaded frames become readable at once.
    pub open spec fn load_chunk(self, samples: Seq<i16>, count: u32) -> AudioModel {
        let c = self.load_count(count) as int;
        AudioModel { read: samples.take(c) + self.write.skip(c), write: self.read, ..self }
    }

    /// The state after clearing: the write buffer is zero-filled and
    /// swapped in, so the readable chunk is all silence.
    pub open spec fn clear_buffer(self) -> AudioModel {
        AudioModel { read: zero_seq(self.chunk_size as nat), write: self.read, ..self }
    }

    /// The state after a bare swap: the roles exchange, nothing else.
    pub open spec fn swapped(self) -> AudioModel {
        AudioModel { read: self.write, write: self.read, ..self }
    }

    /// The chunk a read with argument `count` returns.
    pub open spec fn read_result(self, count: u32) -> Seq<i16> {
        self.read.take(self.read_count(count) as int)
    }

    /// Both buffers silent, roles as after a reallocation.
    pub open spec fn cleared(self) -> AudioModel {
        AudioModel {
            read: zero_seq(self.chunk_size as nat),
            write: zero_seq(self.chunk_size as nat),
            ..self
        }
    }

    /// The state after `start`: a no-op on a running collector, otherwise
    /// both buffers are silenced and a worker becomes live.
    pub open spec fn started(self) -> AudioModel {
        if self.running {
            self
        } else {
            AudioModel { running: true, ..self.cleared() }
        }
    }

    /// The state after `stop`: no worker is live; everything else is kept.
    pub open spec fn stopped(self) -> AudioModel {
        AudioModel { running: false, ..self }
    }

    /// The state after setting the device node: a no-op on an equal value;
    /// otherwise the node changes, and a running worker is restarted (which
    /// silences both buffers).
    pub open spec fn with_node_id(self, id: u32) -> AudioModel {
        if id == self.node_id {
            self
        } else {
            let s = AudioModel { node_id: id, ..self };
            if s.running {
                s.stopped().started()
            } else {
                s
            }
        }
    }

    /// The state after setting the sample rate: a no-op on an equal value;
    /// otherwise the rate is clamped to the minimum, both buffers are
    /// reallocated (zero-filled, length unchanged), and a running worker is
    /// restarted.
    pub open spec fn with_sample_rate(self, rate: u32) -> AudioModel {
        if rate == self.sample_rate {
            self
        } else {
            let clamped = if rate < MIN_SAMPLE_RATE {
                MIN_SAMPLE_RATE
            } else {
                rate
            };
            let s = AudioModel { sample_rate: clamped, ..self }.cleared();
            if s.running {
                s.stopped().started()
            } else {
                s
            }
        }
    }

    /// The state after setting the chunk size: a no-op on an equal value;
    /// otherwise the size is clamped to the minimum, both buffers are
    /// reallocated to the new length (zero-filled), and a running worker is
    /// restarted.
    pub open spec fn with_chunk_size(self, size: u32) -> AudioModel {
        if size == self.chunk_size {
            self
        } else {
            let clamped = if size < MIN_CHUNK_SIZE {
                MIN_CHUNK_SIZE
            } else {
                size
            };
            let s = AudioModel { chunk_size: clamped, ..self }.cleared();
            if s.running {
                s.stopped().started()
            } else {
                s
            }
        }
    }
}

/// A snapshot of the tunable capture parameters, as handed to a worker at
/// start time.
#[derive(Clone, Copy, PartialEq, Eq, Structural, Debug)]
pub struct CaptureConfig {
    /// Sample rate in Hz.
    pub sample_rate: u32,
    /// Chunk size in frames.
    pub chunk_size: u32,
    /// Device-node selector.
    pub node_id: u32,
}

impl CaptureConfig {
    /// The baseline tick the latency request is referenced against:
    /// `chunk_size * sample_rate / 48000`, as an unbounded integer.
    pub open spec fn spec_latency_base(self) -> int {
        (self.chunk_size * self.sample_rate) / 48000
    }

    /// Frames of capture latency to request from the backend:
    /// `next_power_of2(chunk_size * sample_rate / 48000)`. This keeps the
    /// requested buffer period proportional to the chunk size while
    /// rounding up to the power of two many backends require, referenced
    /// against a 48 kHz baseline.
    pub fn requested_latency(&self) -> (r: u32)
        requires
            self.chunk_size * self.sample_rate <= u32::MAX,
        ensures
            is_pow2(r),
            self.spec_latency_base() == 0 ==> r == 1,
            self.spec_latency_base() >= 1 ==> self.spec_latency_base() <= r < 2
                * self.spec_latency_base(),
    {
        let prod = self.chunk_size * self.sample_rate;
        let q = prod / 48000;
        proof {
            assert(q < 0x8000_0000) by (nonlinear_arith)
                requires
                    q == prod / 48000u32,
                    prod <= 0xFFFF_FFFFu32,
            ;
        }
        next_power_of2(q)
    }
}

/// Whether `x` is a power of two.
pub open spec fn is_pow2(x: u32) -> bool {
    x > 0 && (x & ((x - 1) as u32)) == 0
}

/// The least power of two that is at least `n` (and at least 1). The
/// argument stays within `u32` range as long as `n` is at most `2^31`,
/// which the latency computation guarantees.
pub fn next_power_of2(n: u32) -> (r: u32)
    requires
        n <= 0x8000_0000,
    ensures
        is_pow2(r),
        n == 0 ==> r == 1,
        n >= 1 ==> n <= r < 2 * n,
{
    if n == 0 {
        proof {
            assert(1u32 & 0u32 == 0u32) by (bit_vector);
        }
        return 1;
    }
    let x0 = n - 1;
    let x1 = x0 | (x0 >> 1);
    let x2 = x1 | (x1 >> 2);
    let x3 = x2 | (x2 >> 4);
    let x4 = x3 | (x3 >> 8);
    let x5 = x4 | (x4 >> 16);
    proof {
        assert({
            &&& x5 <= 0xFFFF_FFFE
            &&& x5 + 1 >= n
            &&& x0 != 0 ==> x5 + 1 <= 2 * x0
            &&& x0 == 0 ==> x5 == 0
            &&& (((x5 + 1) as u32) & x5) == 0
        }) by (bit_vector)
            requires
                1 <= n <= 0x8000_0000u32,
                x0 == ((n - 1) as u32),
                x1 == x0 | (x0 >> 1),
                x2 == x1 | (x1 >> 2),
                x3 == x2 | (x2 >> 4),
                x4 == x3 | (x3 >> 8),
                x5 == x4 | (x4 >> 16),
        ;
    }
    x5 + 1
}

/// A double-buffered collector of PCM sample chunks.
pub struct AudioCollector {
    sample_rate: u32,
    chunk_size: u32,
    node_id: u32,
    buf_a: Vec<i16>,
    buf_b: Vec<i16>,
    read_is_a: bool,
    running: bool,
}

impl View for AudioCollector {
    type V = AudioModel;

    closed spec fn view(&self) -> AudioModel {
        AudioModel {
            read: if self.read_is_a {
                self.buf_a@
            } else {
                self.buf_b@
            },
            write: if self.read_is_a {
                self.buf_b@
            } else {
                self.buf_a@
            },
            sample_rate: self.sample_rate,
            chunk_size: self.chunk_size,
            node_id: self.node_id,
            running: self.running,
        }
    }
}

impl Default for AudioCollector {
    /// A fresh collector: default configuration, both buffers silent, no
    /// worker running.
    fn default() -> (c: AudioCollector)
        ensures
            c@ == AudioModel::init(),
            c@.wf(),
    {
        let c = AudioCollector {
            sample_rate: DEFAULT_SAMPLE_RATE,
            chunk_size: DEFAULT_CHUNK_SIZE,
            node_id: NODE_ANY,
            buf_a: vec![0i16; DEFAULT_CHUNK_SIZE as usize],
            buf_b: vec![0i16; DEFAULT_CHUNK_SIZE as usize],
            read_is_a: true,
            running: false,
        };
        proof {
            assert(c@.read =~= AudioModel::init().read);
            assert(c@.write =~= AudioModel::init().write);
            assert(c@ =~= AudioModel::init());
        }
        c
    }
}

impl AudioCollector {
    /// Current sample rate in Hz.
    pub fn sample_rate(&self) -> (r: u32)
        ensures
            r == self@.sample_rate,
    {
        self.sample_rate
    }

    /// Current chunk size in frames.
    pub fn chunk_size(&self) -> (r: u32)
        ensures
            r == self@.chunk_size,
    {
        self.chunk_size
    }

    /// Current device-node selector.
    pub fn node_id(&self) -> (r: u32)
        ensures
            r == self@.node_id,
    {
        self.node_id
    }

    /// Whether a capture worker is live.
    pub fn is_running(&self) -> (r: bool)
        ensures
            r == self@.running,
    {
        self.running
    }

    /// Zero-fills the write buffer, then swaps it into the read role: the
    /// readable chunk becomes all silence without stopping a worker.
    pub fn clear_buffer(&mut self)
        requires
            old(self)@.wf(),
        ensures
            final(self)@ == old(self)@.clear_buffer(),
            final(self)@.wf(),
            final(self)@.read == zero_seq(old(self)@.chunk_size as nat),
    {
        if self.read_is_a {
            fill_zero(&mut self.buf_b);
        } else {
            fill_zero(&mut self.buf_a);
        }
        self.read_is_a = !self.read_is_a;
        proof {
            assert(self@ =~= old(self)@.clear_buffer());
        }
    }

    /// Atomically exchanges the read and write roles: the buffer just
    /// written becomes readable, the previous read buffer becomes the
    /// next write target. Loading and clearing already end in a swap;
    /// this is the bare exchange for a producer that filled the write
    /// slot by other means.
    pub fn swap(&mut self)
        requires
            old(self)@.wf(),
        ensures
            final(self)@ == old(self)@.swapped(),
            final(self)@.wf(),
    {
        self.read_is_a = !self.read_is_a;
        proof {
            assert(self@ =~= old(self)@.swapped());
        }
    }

    /// Copies the first `count` samples (clamped to the chunk size) into
    /// the write buffer, keeping its older tail, then swaps, so the loaded
    /// frames become the readable chunk.
    pub fn load_chunk(&mut self, samples: &[i16], count: u32)
        requires
            old(self)@.wf(),
            samples@.len() >= old(self)@.load_count(count),
        ensures
            final(self)@ == old(self)@.load_chunk(samples@, count),
            final(self)@.wf(),
            final(self)@.read == samples@.take(old(self)@.load_count(count) as int) + old(
                self,
            )@.write.skip(old(self)@.load_count(count) as int),
            final(self)@.write == old(self)@.read,
    {
        let c = if count <= self.chunk_size {
            count
        } else {
            self.chunk_size
        };
        if self.read_is_a {
            copy_prefix(&mut self.buf_b, samples, c as usize);
        } else {
            copy_prefix(&mut self.buf_a, samples, c as usize);
        }
        self.read_is_a = !self.read_is_a;
        proof {
            assert(self@.read =~= samples@.take(old(self)@.load_count(count) as int) + old(
                self,
            )@.write.skip(old(self)@.load_count(count) as int));
            assert(self@ =~= old(self)@.load_chunk(samples@, count));
        }
    }

    /// Copies up to `count` frames (clamped into `[1, chunk_size]`) from
    /// the readable chunk into the front of `out` and returns how many were
    /// copied. The rest of `out` is untouched; the collector never changes.
    pub fn read_chunk(&self, out: &mut Vec<i16>, count: u32) -> (r: u32)
        requires
            self@.wf(),
            old(out)@.len() >= self@.read_count(count),
        ensures
            r == self@.read_count(count),
            final(out)@.len() == old(out)@.len(),
            final(out)@.take(r as int) == self@.read_result(count),
            forall|j: int| r <= j < old(out)@.len() ==> final(out)@[j] == old(out)@[j],
    {
        let c0 = if count <= self.chunk_size {
            count
        } else {
            self.chunk_size
        };
        let c = if c0 < 1 {
            1
        } else {
            c0
        };
        if self.read_is_a {
            copy_prefix(out, self.buf_a.as_slice(), c as usize);
        } else {
            copy_prefix(out, self.buf_b.as_slice(), c as usize);
        }
        proof {
            assert(out@.take(c as int) =~= self@.read_result(count));
        }
        c
    }

    /// Reallocates both buffers to the current chunk size, zero-filled,
    /// and resets the role assignment.
    fn realloc_buffers(&mut self)
        ensures
            final(self)@ == old(self)@.cleared(),
    {
        let n = self.chunk_size as usize;
        self.buf_a = vec![0i16; n];
        self.buf_b = vec![0i16; n];
        self.read_is_a = true;
        proof {
            assert(self@.read =~= zero_seq(old(self)@.chunk_size as nat));
            assert(self@.write =~= zero_seq(old(self)@.chunk_size as nat));
            assert(self@ =~= old(self)@.cleared());
        }
    }

    /// Starts a capture worker: a no-op while one is running (the second
    /// call spawns nothing). Otherwise both buffers are silenced and the
    /// returned snapshot of the configuration is the one the worker must be
    /// bound to; the caller spawns the worker exactly when `Some` comes
    /// back.
    pub fn start(&mut self) -> (r: Option<CaptureConfig>)
        requires
            old(self)@.wf(),
        ensures
            final(self)@ == old(self)@.started(),
            final(self)@.wf(),
            old(self)@.running ==> final(self)@ == old(self)@ && r is None,
            !old(self)@.running ==> r == Some(final(self)@.spec_config()),
    {
        if self.running {
            return None;
        }
        self.realloc_buffers();
        self.running = true;
        proof {
            assert(self@ =~= old(self)@.started());
        }
        Some(
            CaptureConfig {
                sample_rate: self.sample_rate,
                chunk_size: self.chunk_size,
                node_id: self.node_id,
            },
        )
    }

    /// Stops the worker role: a no-op when none is running. Returns whether
    /// a worker was live; the caller must then make the worker quit and
    /// join it. Buffers and configuration are kept.
    pub fn stop(&mut self) -> (r: bool)
        requires
            old(self)@.wf(),
        ensures
            final(self)@ == old(self)@.stopped(),
            final(self)@.wf(),
            r == old(self)@.running,
    {
        let was = self.running;
        self.running = false;
        proof {
            assert(self@ =~= old(self)@.stopped());
        }
        was
    }

    /// Sets the device node. A no-op on an equal value. Returns whether
    /// the value changed, and — when a running worker had to be restarted
    /// to pick the node up — the configuration snapshot for the fresh
    /// worker; the caller then joins the old worker and spawns a new one.
    pub fn set_node_id(&mut self, id: u32) -> (r: (bool, Option<CaptureConfig>))
        requires
            old(self)@.wf(),
        ensures
            final(self)@ == old(self)@.with_node_id(id),
            final(self)@.wf(),
            r.0 == (id != old(self)@.node_id),
            r.1 == (if id != old(self)@.node_id && old(self)@.running {
                Some(final(self)@.spec_config())
            } else {
                None::<CaptureConfig>
            }),
    {
        if self.node_id == id {
            return (false, None);
        }
        self.node_id = id;
        if self.running {
            let _ = self.stop();
            let cfg = self.start();
            (true, cfg)
        } else {
            (true, None)
        }
    }

    /// Sets the sample rate, clamped to the minimum. A no-op on an equal
    /// (raw) value. Both buffers are reallocated — zero-filled, length
    /// unchanged — and a running worker is restarted as in `set_node_id`.
    pub fn set_sample_rate(&mut self, rate: u32) -> (r: (bool, Option<CaptureConfig>))
        requires
            old(self)@.wf(),
        ensures
            final(self)@ == old(self)@.with_sample_rate(rate),
            final(self)@.wf(),
            final(self)@.chunk_size == old(self)@.chunk_size,
            final(self)@.read.len() == old(self)@.read.len(),
            r.0 == (rate != old(self)@.sample_rate),
            r.1 == (if rate != old(self)@.sample_rate && old(self)@.running {
                Some(final(self)@.spec_config())
            } else {
                None::<CaptureConfig>
            }),
    {
        if self.sample_rate == rate {
            return (false, None);
        }
        self.sample_rate = if rate < MIN_SAMPLE_RATE {
            MIN_SAMPLE_RATE
        } else {
            rate
        };
        self.realloc_buffers();
        if self.running {
            let _ = self.stop();
            let cfg = self.start();
            (true, cfg)
        } else {
            (true, None)
        }
    }

    /// Sets the chunk size, clamped to the minimum. A no-op on an equal
    /// (raw) value. Both buffers are reallocated to the new length,
    /// zero-filled, and a running worker is restarted as in `set_node_id`.
    pub fn set_chunk_size(&mut self, size: u32) -> (r: (bool, Option<CaptureConfig>))
        requires
            old(self)@.wf(),
        ensures
            final(self)@ == old(self)@.with_chunk_size(size),
            final(self)@.wf(),
            r.0 == (size != old(self)@.chunk_size),
            r.1 == (if size != old(self)@.chunk_size && old(self)@.running {
                Some(final(self)@.spec_config())
            } else {
                None::<CaptureConfig>
            }),
    {
        if self.chunk_size == size {
            return (false, None);
        }
        self.chunk_size = if size < MIN_CHUNK_SIZE {
            MIN_CHUNK_SIZE
        } else {
            size
        };
        self.realloc_buffers();
        if self.running {
            let _ = self.stop();
            let cfg = self.start();
            (true, cfg)
        } else {
            (true, None)
        }
    }
}

/// Law: the load/read round trip is exact. After loading `count` samples
/// of `s` (with `count` between 1 and the chunk size), a read asking for
/// the same count copies exactly `count` frames, and they are exactly the
/// samples that were loaded.
pub proof fn lemma_load_then_read(m: AudioModel, s: Seq<i16>, count: u32)
    requires
        m.wf(),
        1 <= count <= m.chunk_size,
        s.len() >= count,
    ensures
        m.load_chunk(s, count).read_count(count) == count,
        m.load_chunk(s, count).read_result(count) == s.take(count as int),
{
    assert(m.load_chunk(s, count).read_result(count) =~= s.take(count as int));
}

/// Law: after a clear, and before any other write, every read returns
/// silence only.
pub proof fn lemma_clear_then_read(m: AudioModel, count: u32)
    requires
        m.wf(),
    ensures
        m.clear_buffer().read_result(count) == zero_seq(
            m.clear_buffer().read_count(count) as nat,
        ),
{
    assert(m.clear_buffer().read_result(count) =~= zero_seq(
        m.clear_buffer().read_count(count) as nat,
    ));
}

/// Law: a fresh collector, with no worker ever started, reads as silence.
pub proof fn lemma_fresh_read_silence(count: u32)
    ensures
        AudioModel::init().wf(),
        AudioModel::init().read_result(count) == zero_seq(
            AudioModel::init().read_count(count) as nat,
        ),
{
    assert(AudioModel::init().read_result(count) =~= zero_seq(
        AudioModel::init().read_count(count) as nat,
    ));
}

/// Law: reads never mix generations. After a load that covers the whole
/// chunk, every read returns a prefix of that load's samples alone — the
/// buffers' earlier contents have no influence on it. (For concurrent
/// producers and readers this holds provided each operation runs under the
/// caller's swap lock, which serializes them.)
pub proof fn lemma_read_after_full_load(m: AudioModel, s: Seq<i16>, count: u32, n: u32)
    requires
        m.wf(),
        count >= m.chunk_size,
        s.len() >= m.chunk_size,
    ensures
        m.load_chunk(s, count).read_result(n) == s.take(
            m.load_chunk(s, count).read_count(n) as int,
        ),
{
    assert(m.load_chunk(s, count).read_result(n) =~= s.take(
        m.load_chunk(s, count).read_count(n) as int,
    ));
}

/// Law: a read never sees the producer's in-progress work. What a read
/// returns depends on the read slot alone: two states agreeing on the
/// read slot and the chunk size read identically, whatever their write
/// slots hold. Partially written data can only ever sit in the write
/// slot, so no read observes it before the swap publishes it.
pub proof fn lemma_read_ignores_write_slot(m1: AudioModel, m2: AudioModel, count: u32)
    requires
        m1.read == m2.read,
        m1.chunk_size == m2.chunk_size,
    ensures
        m1.read_count(count) == m2.read_count(count),
        m1.read_result(count) == m2.read_result(count),
{
}

/// Zero-fills a buffer in place.
fn fill_zero(v: &mut Vec<i16>)
    ensures
        final(v)@.len() == old(v)@.len(),
        final(v)@ == zero_seq(old(v)@.len()),
{
    let n = v.len();
    let mut i: usize = 0;
    while i < n
        invariant
            i <= n,
            v@.len() == n,
            forall|j: int| 0 <= j < i ==> v@[j] == 0i16,
        decreases n - i,
    {
        v.set(i, 0i16);
        i += 1;
    }
    proof {
        assert(v@ =~= zero_seq(old(v)@.len()));
    }
}

/// Copies `src[0..count]` over the front of `dst`, leaving its tail.
fn copy_prefix(dst: &mut Vec<i16>, src: &[i16], count: usize)
    requires
        count <= old(dst)@.len(),
        count <= src@.len(),
    ensures
        final(dst)@.len() == old(dst)@.len(),
        forall|j: int| 0 <= j < count ==> final(dst)@[j] == src@[j],
        forall|j: int| count <= j < old(dst)@.len() ==> final(dst)@[j] == old(dst)@[j],
{
    let mut i: usize = 0;
    while i < count
        invariant
            i <= count,
            count <= src@.len(),
            dst@.len() == old(dst)@.len(),
            count <= dst@.len(),
            forall|j: int| 0 <= j < i ==> dst@[j] == src@[j],
            forall|j: int| i <= j < dst@.len() ==> dst@[j] == old(dst)@[j],
        decreases count - i,
    {
        dst.set(i, src[i]);
        i += 1;
    }
}

} // verus!
