use vstd::prelude::*;

use crate::latency::{LatencyMode, mode_right_context};

verus! {

/// Sample rate of the audio the engine takes, in Hz (16-bit mono PCM).
pub const SAMPLE_RATE: i32 = 16000;

/// Number of mel bins of the engine's front end.
pub const N_MELS: i32 = 128;

/// Audio samples per mel frame (a 10ms hop at 16kHz).
pub const HOP_LENGTH: i32 = 160;

/// Mel frames per encoder frame (the encoder's subsampling factor).
pub const SUBSAMPLING_FACTOR: i32 = 8;

/// Length of one encoder frame in milliseconds.
pub const FRAME_MS: i32 = 80;

/// The value fits an `i32`.
pub open spec fn fits_i32(value: int) -> bool {
    i32::MIN <= value <= i32::MAX
}

/// The value fits a `usize`.
pub open spec fn fits_usize(value: int) -> bool {
    0 <= value <= usize::MAX
}

/// Mel frames in one streaming chunk: the current encoder frame and its
/// lookahead frames. This is this library's model of the engine's chunking
/// (8 mel frames per encoder frame), not a value read from the engine.
pub open spec fn spec_chunk_mel_frames(context: int) -> int {
    (context + 1) * SUBSAMPLING_FACTOR
}

/// Audio samples in one streaming chunk, in this library's model of the
/// engine's chunking (160 samples per mel frame).
pub open spec fn spec_chunk_samples(context: int) -> int {
    spec_chunk_mel_frames(context) * HOP_LENGTH
}

/// Latency in milliseconds of one streaming chunk: 80ms per encoder frame,
/// which gives the documented 80, 160, 560 and 1120ms of the four latency
/// modes.
pub open spec fn spec_latency_ms(context: int) -> int {
    (context + 1) * FRAME_MS
}

/// Cache configuration for streaming.
#[derive(Debug, Clone, Copy, PartialEq, Eq, Structural)]
pub struct CacheConfig {
    sample_rate: i32,
    n_mels: i32,
    att_right_context: i32,
}

impl CacheConfig {
    /// Sample rate of the configured stream, in Hz.
    pub closed spec fn spec_sample_rate(self) -> int {
        self.sample_rate as int
    }

    /// Mel bins of the configured stream.
    pub closed spec fn spec_n_mels(self) -> int {
        self.n_mels as int
    }

    /// Attention right context (lookahead encoder frames).
    pub closed spec fn spec_right_context(self) -> int {
        self.att_right_context as int
    }

    /// The configuration has the engine's fixed front end (16kHz audio,
    /// 128 mel bins) and the given right context.
    pub open spec fn is_config_with(self, context: int) -> bool {
        &&& self.spec_sample_rate() == SAMPLE_RATE
        &&& self.spec_n_mels() == N_MELS
        &&& self.spec_right_context() == context
    }

    /// Create default cache configuration: in this library, the `Default`
    /// latency mode (right context 13, 1.12s latency). The engine's own
    /// default is not read; this is the library's choice.
    pub fn default() -> (r: Self)
        ensures
            r.is_config_with(mode_right_context(LatencyMode::Default)),
    {
        CacheConfig { sample_rate: SAMPLE_RATE, n_mels: N_MELS, att_right_context: 13 }
    }

    /// Create cache configuration with specific latency mode
    pub fn with_latency(mode: LatencyMode) -> (r: Self)
        ensures
            r.is_config_with(mode_right_context(mode)),
    {
        CacheConfig {
            sample_rate: SAMPLE_RATE,
            n_mels: N_MELS,
            att_right_context: mode.att_right_context(),
        }
    }

    /// Set right context (lookahead frames)
    pub fn set_right_context(&mut self, context: i32) -> (r: &mut Self)
        ensures
            r.spec_right_context() == context,
            r.spec_sample_rate() == old(self).spec_sample_rate(),
            r.spec_n_mels() == old(self).spec_n_mels(),
            *final(self) == *final(r),
    {
        self.att_right_context = context;
        self
    }

    /// Sample rate in Hz.
    pub fn sample_rate(&self) -> (r: i32)
        ensures
            r == self.spec_sample_rate(),
    {
        self.sample_rate
    }

    /// Number of mel bins.
    pub fn n_mels(&self) -> (r: i32)
        ensures
            r == self.spec_n_mels(),
    {
        self.n_mels
    }

    /// Attention right context (lookahead frames).
    pub fn right_context(&self) -> (r: i32)
        ensures
            r == self.spec_right_context(),
    {
        self.att_right_context
    }

    /// Get chunk size in mel frames, in this library's model of the engine's
    /// chunking.
    pub fn chunk_mel_frames(&self) -> (r: usize)
        requires
            fits_usize(spec_chunk_mel_frames(self.spec_right_context())),
        ensures
            r == spec_chunk_mel_frames(self.spec_right_context()),
    {
        let frames: i64 = (self.att_right_context as i64 + 1) * (SUBSAMPLING_FACTOR as i64);
        frames as usize
    }

    /// Get chunk size in audio samples, in this library's model of the
    /// engine's chunking.
    pub fn chunk_samples(&self) -> (r: i32)
        requires
            fits_i32(spec_chunk_samples(self.spec_right_context())),
        ensures
            r == spec_chunk_samples(self.spec_right_context()),
    {
        let samples: i64 = (self.att_right_context as i64 + 1) * (SUBSAMPLING_FACTOR as i64) * (
        HOP_LENGTH as i64);
        samples as i32
    }

    /// Get latency in milliseconds
    pub fn latency_ms(&self) -> (r: i32)
        requires
            fits_i32(spec_latency_ms(self.spec_right_context())),
        ensures
            r == spec_latency_ms(self.spec_right_context()),
    {
        let latency: i64 = (self.att_right_context as i64 + 1) * (FRAME_MS as i64);
        latency as i32
    }
}

impl Default for CacheConfig {
    fn default() -> (r: Self)
        ensures
            r.is_config_with(mode_right_context(LatencyMode::Default)),
    {
        CacheConfig::default()
    }
}

/// A cache configuration is determined by its right context: two
/// configurations with the same right context are equal. So setting the right
/// context of any configuration to that of a latency mode gives
/// `CacheConfig::with_latency` of that mode.
pub proof fn lemma_config_determined_by_right_context(a: CacheConfig, b: CacheConfig, context: int)
    requires
        a.is_config_with(context),
        b.is_config_with(context),
    ensures
        a == b,
{
}

/// The latency of a chunk is the duration of the audio in it: its samples at
/// 16kHz, in milliseconds.
pub proof fn lemma_latency_is_chunk_duration(context: int)
    ensures
        spec_latency_ms(context) * SAMPLE_RATE == spec_chunk_samples(context) * 1000,
        spec_chunk_samples(context) == spec_chunk_mel_frames(context) * HOP_LENGTH,
{
}

/// More lookahead never lowers latency: latency and chunk sizes grow with the
/// right context.
pub proof fn lemma_latency_monotone(smaller: int, larger: int)
    requires
        0 <= smaller <= larger,
    ensures
        spec_latency_ms(smaller) <= spec_latency_ms(larger),
        spec_chunk_samples(smaller) <= spec_chunk_samples(larger),
        spec_chunk_mel_frames(smaller) <= spec_chunk_mel_frames(larger),
{
}

/// For a right context that is not negative the chunk sizes and latency are
/// positive; for one that is at least -1 they are not negative.
pub proof fn lemma_chunk_sizes_positive(context: int)
    ensures
        0 <= context ==> 0 < spec_chunk_mel_frames(context) && 0 < spec_chunk_samples(context)
            && 0 < spec_latency_ms(context),
        -1 <= context ==> 0 <= spec_chunk_mel_frames(context) && 0 <= spec_chunk_samples(context)
            && 0 <= spec_latency_ms(context),
{
}

/// Every right context that a standard latency mode uses has chunk sizes and
/// a latency that fit their types.
pub proof fn lemma_mode_chunk_sizes_fit(mode: LatencyMode)
    ensures
        fits_usize(spec_chunk_mel_frames(mode_right_context(mode))),
        fits_i32(spec_chunk_samples(mode_right_context(mode))),
        fits_i32(spec_latency_ms(mode_right_context(mode))),
{
}

} // verus!
