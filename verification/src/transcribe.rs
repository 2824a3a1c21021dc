//! The parts of a transcription run that decide on plain values: checking the
//! audio format, locating the model for download and cutting audio into the
//! chunks that are handed to a stream.

use vstd::prelude::*;

use crate::config::SAMPLE_RATE;
use crate::text::{joined, lemma_joined_push};

verus! {

/// How the samples of a WAV file are stored.
#[derive(Debug, Clone, Copy, PartialEq, Eq, Structural)]
pub enum SampleFormat {
    Float,
    Int,
}

/// The format of a WAV file, as its header states it.
#[derive(Debug, Clone, Copy, PartialEq, Eq, Structural)]
pub struct WavSpec {
    pub channels: u16,
    pub sample_rate: u32,
    pub bits_per_sample: u16,
    pub sample_format: SampleFormat,
}

/// Why a WAV file cannot be streamed to the engine.
#[derive(Debug, Clone, Copy, PartialEq, Eq, Structural)]
pub enum WavFormatError {
    /// The file is not mono; the channel count it has.
    NotMono(u16),
    /// The file is not sampled at 16kHz; the rate it has.
    WrongSampleRate(u32),
    /// The samples are not 16-bit; the bit depth they have.
    WrongBitDepth(u16),
    /// The samples are not integers.
    NotIntegerSamples,
}

/// The first requirement of the engine that `spec` fails, checked in the
/// order channels, sample rate, bit depth, sample format; `Ok` where it fails
/// none.
pub open spec fn spec_check_wav_format(spec: WavSpec) -> Result<(), WavFormatError> {
    if spec.channels != 1 {
        Err(WavFormatError::NotMono(spec.channels))
    } else if spec.sample_rate != SAMPLE_RATE {
        Err(WavFormatError::WrongSampleRate(spec.sample_rate))
    } else if spec.bits_per_sample != 16 {
        Err(WavFormatError::WrongBitDepth(spec.bits_per_sample))
    } else if spec.sample_format != SampleFormat::Int {
        Err(WavFormatError::NotIntegerSamples)
    } else {
        Ok(())
    }
}

/// A WAV file passes exactly when it is mono, 16kHz, 16-bit integer audio; a
/// failure names the first requirement it breaks, in the order channels,
/// sample rate, bit depth, sample format, and carries the file's own value.
pub proof fn lemma_wav_check_reports_first_failure(spec: WavSpec)
    ensures
        spec_check_wav_format(spec) is Ok <==> (spec.channels == 1 && spec.sample_rate == 16000
            && spec.bits_per_sample == 16 && spec.sample_format == SampleFormat::Int),
        spec.channels != 1 ==> spec_check_wav_format(spec) == Err::<(), WavFormatError>(
            WavFormatError::NotMono(spec.channels),
        ),
        spec.channels == 1 && spec.sample_rate != 16000 ==> spec_check_wav_format(spec) == Err::<
            (),
            WavFormatError,
        >(WavFormatError::WrongSampleRate(spec.sample_rate)),
        spec.channels == 1 && spec.sample_rate == 16000 && spec.bits_per_sample != 16
            ==> spec_check_wav_format(spec) == Err::<(), WavFormatError>(
            WavFormatError::WrongBitDepth(spec.bits_per_sample),
        ),
        spec.channels == 1 && spec.sample_rate == 16000 && spec.bits_per_sample == 16
            && spec.sample_format == SampleFormat::Float ==> spec_check_wav_format(spec) == Err::<
            (),
            WavFormatError,
        >(WavFormatError::NotIntegerSamples),
{
}

/// Check that a WAV file holds what the engine takes: mono, 16kHz, 16-bit
/// integer samples.
pub fn validate_wav_format(spec: &WavSpec) -> (r: Result<(), WavFormatError>)
    ensures
        r == spec_check_wav_format(*spec),
        r is Ok <==> (spec.channels == 1 && spec.sample_rate == 16000 && spec.bits_per_sample == 16
            && spec.sample_format == SampleFormat::Int),
        spec.channels != 1 ==> r == Err::<(), WavFormatError>(WavFormatError::NotMono(spec.channels)),
        r matches Err(WavFormatError::NotMono(c)) ==> c == spec.channels && c != 1,
        r matches Err(WavFormatError::WrongSampleRate(rate)) ==> {
            &&& rate == spec.sample_rate
            &&& rate != 16000
            &&& spec.channels == 1
        },
        r matches Err(WavFormatError::WrongBitDepth(bits)) ==> {
            &&& bits == spec.bits_per_sample
            &&& bits != 16
            &&& spec.channels == 1
            &&& spec.sample_rate == 16000
        },
        r matches Err(WavFormatError::NotIntegerSamples) ==> {
            &&& spec.sample_format != SampleFormat::Int
            &&& spec.channels == 1
            &&& spec.sample_rate == 16000
            &&& spec.bits_per_sample == 16
        },
{
    if spec.channels != 1 {
        return Err(WavFormatError::NotMono(spec.channels));
    }
    if spec.sample_rate != 16000 {
        return Err(WavFormatError::WrongSampleRate(spec.sample_rate));
    }
    if spec.bits_per_sample != 16 {
        return Err(WavFormatError::WrongBitDepth(spec.bits_per_sample));
    }
    match spec.sample_format {
        SampleFormat::Int => Ok(()),
        SampleFormat::Float => Err(WavFormatError::NotIntegerSamples),
    }
}

/// The download address of a model file: the base address and the file name,
/// with one `/` between them unless the base already ends in one.
pub open spec fn spec_model_download_url(base_url: Seq<char>, filename: Seq<char>) -> Seq<char> {
    if base_url.len() > 0 && base_url.last() == '/' {
        base_url + filename
    } else {
        base_url + seq!['/'] + filename
    }
}

/// The text ends in a `/`.
pub open spec fn ends_with_slash(text: Seq<char>) -> bool {
    text.len() > 0 && text[text.len() - 1] == '/'
}

/// A download address is the base address followed by the file name, with
/// exactly one `/` between them: it starts with the whole base address, ends
/// with the whole file name, and holds one more character, a `/` right after
/// the base, only where the base does not already end in `/`.
pub proof fn lemma_download_url_joins(base_url: Seq<char>, filename: Seq<char>)
    ensures
        ({
            let url = spec_model_download_url(base_url, filename);
            &&& url.take(base_url.len() as int) == base_url
            &&& url.skip(url.len() - filename.len()) == filename
            &&& url.len() == base_url.len() + filename.len() + (if ends_with_slash(base_url) {
                0int
            } else {
                1int
            })
            &&& !ends_with_slash(base_url) ==> url[base_url.len() as int] == '/'
        }),
{
    let url = spec_model_download_url(base_url, filename);
    if ends_with_slash(base_url) {
        assert(url.take(base_url.len() as int) =~= base_url);
        assert(url.skip(url.len() - filename.len()) =~= filename);
    } else {
        assert(url.take(base_url.len() as int) =~= base_url);
        assert(url.skip(url.len() - filename.len()) =~= filename);
    }
}

/// The address to download the model file `filename` from, under `base_url`.
pub fn model_download_url(base_url: &str, filename: &str) -> (r: String)
    ensures
        r@ == spec_model_download_url(base_url@, filename@),
        r@.take(base_url@.len() as int) == base_url@,
        r@.skip(r@.len() - filename@.len()) == filename@,
        r@.len() == base_url@.len() + filename@.len() + (if ends_with_slash(base_url@) {
            0int
        } else {
            1int
        }),
        !ends_with_slash(base_url@) ==> r@[base_url@.len() as int] == '/',
{
    let len = base_url.unicode_len();
    let ends_with_slash = len > 0 && base_url.get_char(len - 1) == '/';
    let mut url = base_url.to_owned();
    if !ends_with_slash {
        proof {
            reveal_strlit("/");
        }
        url.append("/");
    }
    url.append(filename);
    proof {
        lemma_download_url_joins(base_url@, filename@);
    }
    url
}

/// The contents of a list of vectors, each seen as a sequence.
pub open spec fn chunk_views(chunks: Seq<Vec<i16>>) -> Seq<Seq<i16>> {
    chunks.map_values(|chunk: Vec<i16>| chunk@)
}

/// Cut `samples` into consecutive chunks of `chunk_size` samples, the last of
/// which may be shorter, as a stream takes them one call at a time.
pub fn split_into_chunks(samples: &[i16], chunk_size: usize) -> (chunks: Vec<Vec<i16>>)
    requires
        chunk_size > 0,
    ensures
        joined(chunk_views(chunks@)) == samples@,
        forall|k: int| 0 <= k < chunks.len() ==> 0 < #[trigger] chunks[k].len() <= chunk_size,
        forall|k: int| 0 <= k < chunks.len() - 1 ==> #[trigger] chunks[k].len() == chunk_size,
{
    let n = samples.len();
    let mut chunks: Vec<Vec<i16>> = Vec::new();
    let mut pos: usize = 0;
    while pos < n
        invariant
            n == samples@.len(),
            pos <= n,
            chunk_size > 0,
            joined(chunk_views(chunks@)) == samples@.take(pos as int),
            forall|k: int| 0 <= k < chunks.len() ==> 0 < #[trigger] chunks[k].len() <= chunk_size,
            forall|k: int| 0 <= k < chunks.len() - 1 ==> #[trigger] chunks[k].len() == chunk_size,
            chunks.len() > 0 && chunks[chunks.len() - 1].len() < chunk_size ==> pos == n,
        decreases n - pos,
    {
        let end = if n - pos > chunk_size {
            pos + chunk_size
        } else {
            n
        };
        let mut chunk: Vec<i16> = Vec::new();
        let mut j = pos;
        while j < end
            invariant
                pos <= j <= end <= n,
                n == samples@.len(),
                chunk@ == samples@.subrange(pos as int, j as int),
            decreases end - j,
        {
            chunk.push(samples[j]);
            j += 1;
        }
        proof {
            assert(chunk_views(chunks@.push(chunk)) =~= chunk_views(chunks@).push(chunk@));
            lemma_joined_push(chunk_views(chunks@), chunk@);
            assert(samples@.take(end as int) =~= samples@.take(pos as int) + chunk@);
        }
        chunks.push(chunk);
        pos = end;
    }
    assert(samples@.take(n as int) =~= samples@);
    chunks
}

} // verus!
