use vstd::prelude::*;

use crate::config::CacheConfig;
use crate::error::{InitializationError, StreamInitializationError};
use crate::latency::{LatencyMode, mode_right_context};
use crate::text::{
    decode_lossy, joined, lemma_joined_push, lemma_nul_free_concat, lossy_utf8, nul_free,
    nul_free_bytes,
};

verus! {

/// The text the engine handed back for one call: its characters, or nothing
/// where the engine returned no text (a null string).
pub open spec fn reply_text(reply: Option<String>) -> Seq<char> {
    match reply {
        Some(text) => text@,
        None => Seq::empty(),
    }
}

/// An optional string slice, as an optional sequence of characters.
pub open spec fn optional_str(s: Option<&str>) -> Option<Seq<char>> {
    match s {
        Some(s) => Some(s@),
        None => None,
    }
}

/// Main model context: a model that the engine has loaded on a backend.
pub struct Context {
    model_path: String,
    requested_backend: Option<String>,
    backend_name: String,
}

impl Context {
    /// The engine takes the model path and gives the backend name as C
    /// strings: neither holds a NUL.
    #[verifier::type_invariant]
    spec fn names_are_c_strings(self) -> bool {
        nul_free(self.model_path@) && nul_free(self.backend_name@)
    }

    /// Path of the loaded model file.
    pub closed spec fn spec_model_path(&self) -> Seq<char> {
        self.model_path@
    }

    /// The backend the caller asked for; nothing for automatic selection.
    pub closed spec fn spec_requested_backend(&self) -> Option<Seq<char>> {
        match self.requested_backend {
            Some(name) => Some(name@),
            None => None,
        }
    }

    /// Name of the backend the model runs on.
    pub closed spec fn spec_backend_name(&self) -> Seq<char> {
        self.backend_name@
    }

    /// Initialize model from GGUF file with optional backend selection.
    ///
    /// `model_path` is the GGUF model file and `backend` the backend name
    /// (e.g. "CPU", "Vulkan"), or `None` to let the engine choose. The engine
    /// loads the model and answers with the name of the backend it runs on,
    /// or with nothing where it could not load the model: that answer is
    /// `loaded_backend`. No path or name may hold a NUL character, as the
    /// engine takes and gives them as C strings.
    pub fn new(model_path: &str, backend: Option<&str>, loaded_backend: Option<String>) -> (r:
        Result<Context, InitializationError>)
        requires
            nul_free(model_path@),
            backend matches Some(name) ==> nul_free(name@),
            loaded_backend matches Some(name) ==> nul_free(name@),
        ensures
            r is Ok <==> loaded_backend is Some,
            r matches Ok(ctx) ==> {
                &&& ctx.spec_model_path() == model_path@
                &&& ctx.spec_requested_backend() == optional_str(backend)
                &&& ctx.spec_backend_name() == reply_text(loaded_backend)
            },
            r matches Err(e) ==> e == InitializationError::InitializationFailed,
    {
        match loaded_backend {
            Some(backend_name) => {
                let requested_backend = match backend {
                    Some(name) => Some(name.to_owned()),
                    None => None,
                };
                Ok(Context { model_path: model_path.to_owned(), requested_backend, backend_name })
            },
            None => Err(InitializationError::InitializationFailed),
        }
    }

    /// Get the name of the backend being used
    pub fn backend_name(&self) -> (r: &str)
        ensures
            r@ == self.spec_backend_name(),
            nul_free(r@),
    {
        proof {
            use_type_invariant(self);
        }
        self.backend_name.as_str()
    }

    /// Create a streaming context.
    ///
    /// The stream runs with `config`, or with the default configuration where
    /// none is given. `opened` is the engine's answer: whether it could set up
    /// the stream's caches.
    pub fn create_stream(&mut self, config: Option<&CacheConfig>, opened: bool) -> (r: Result<
        Stream,
        StreamInitializationError,
    >)
        ensures
            *final(self) == *old(self),
            r is Ok <==> opened,
            r matches Ok(stream) ==> {
                &&& stream.spec_texts() == Seq::<Seq<char>>::empty()
                &&& stream.spec_transcript() == Seq::<char>::empty()
                &&& (config matches Some(c) ==> stream.spec_config() == *c)
                &&& (config is None ==> stream.spec_config().is_config_with(
                    mode_right_context(LatencyMode::Default),
                ))
            },
            r matches Err(e) ==> e == StreamInitializationError::StreamInitializationFailed,
    {
        if opened {
            let config = match config {
                Some(c) => *c,
                None => CacheConfig::default(),
            };
            Ok(Stream::opened(config))
        } else {
            Err(StreamInitializationError::StreamInitializationFailed)
        }
    }
}

/// Streaming transcription context.
///
/// The stream keeps the transcript: the texts the engine handed back for the
/// audio processed since the stream was created or last reset, in order.
pub struct Stream {
    config: CacheConfig,
    transcript: String,
    texts: Ghost<Seq<Seq<char>>>,
}

/// The text of an engine reply given as the bytes of a C string: its lossy
/// UTF-8 decoding, or nothing where the engine returned no text.
pub open spec fn reply_bytes_text(reply: Option<&[u8]>) -> Seq<char> {
    match reply {
        Some(bytes) => lossy_utf8(bytes@),
        None => Seq::empty(),
    }
}

/// The engine's reply holds no zero byte.
pub open spec fn reply_bytes_nul_free(reply: Option<&[u8]>) -> bool {
    match reply {
        Some(bytes) => nul_free_bytes(bytes@),
        None => true,
    }
}

impl Stream {
    /// The transcript is the concatenation of the texts returned so far, and
    /// like them it holds no NUL character.
    #[verifier::type_invariant]
    spec fn transcript_is_joined_texts(self) -> bool {
        &&& self.transcript@ == joined(self.texts@)
        &&& nul_free(self.transcript@)
    }

    /// The configuration the stream runs with.
    pub closed spec fn spec_config(&self) -> CacheConfig {
        self.config
    }

    /// The accumulated transcript.
    pub closed spec fn spec_transcript(&self) -> Seq<char> {
        self.transcript@
    }

    /// The texts returned by `process`, `finalize` and `accept_text` since the
    /// stream was created or last reset, in order.
    pub closed spec fn spec_texts(&self) -> Seq<Seq<char>> {
        self.texts@
    }

    /// A fresh stream with the given configuration and an empty transcript.
    fn opened(config: CacheConfig) -> (r: Stream)
        ensures
            r.spec_config() == config,
            r.spec_texts() == Seq::<Seq<char>>::empty(),
            r.spec_transcript() == Seq::<char>::empty(),
    {
        Stream { config, transcript: String::new(), texts: Ghost(Seq::empty()) }
    }

    /// The configuration the stream runs with.
    pub fn config(&self) -> (r: CacheConfig)
        ensures
            r == self.spec_config(),
    {
        self.config
    }

    /// The sample count handed to the engine with `audio`, which takes it as
    /// an `i32`.
    pub fn sample_count(audio: &[i16]) -> (n: i32)
        requires
            audio.len() <= i32::MAX,
        ensures
            n == audio.len(),
    {
        audio.len() as i32
    }

    /// Take the decoded text of one engine reply (nothing where the engine
    /// returned no text), append it to the transcript and return it.
    pub fn accept_text(&mut self, reply: Option<String>) -> (text: String)
        requires
            nul_free(reply_text(reply)),
        ensures
            text@ == reply_text(reply),
            final(self).spec_texts() == old(self).spec_texts().push(text@),
            final(self).spec_transcript() == old(self).spec_transcript() + text@,
            final(self).spec_config() == old(self).spec_config(),
    {
        let text = match reply {
            Some(text) => text,
            None => String::new(),
        };
        let mut current = Stream::opened(self.config);
        std::mem::swap(self, &mut current);
        proof {
            use_type_invariant(&current);
        }
        let Stream { config, mut transcript, texts } = current;
        proof {
            lemma_joined_push(texts@, text@);
            lemma_nul_free_concat(transcript@, text@);
        }
        transcript.append(text.as_str());
        *self = Stream { config, transcript, texts: Ghost(texts@.push(text@)) };
        text
    }

    /// Process audio chunk incrementally.
    ///
    /// The audio (16-bit signed PCM, 16kHz, mono) goes to the engine with
    /// `sample_count` samples, and `decoded` is the engine's reply: the bytes
    /// of the new transcription text, or nothing where no new tokens came out.
    /// Returns the new text, decoded lossily from UTF-8 (empty where there is
    /// none), and appends it to the transcript.
    pub fn process(&mut self, decoded: Option<&[u8]>) -> (text: String)
        requires
            reply_bytes_nul_free(decoded),
        ensures
            text@ == reply_bytes_text(decoded),
            final(self).spec_texts() == old(self).spec_texts().push(text@),
            final(self).spec_transcript() == old(self).spec_transcript() + text@,
            final(self).spec_config() == old(self).spec_config(),
    {
        let reply = match decoded {
            Some(bytes) => Some(decode_lossy(bytes)),
            None => None,
        };
        self.accept_text(reply)
    }

    /// Finalize streaming and flush remaining audio.
    ///
    /// `flushed` is the engine's reply to the flush: the bytes of the text of
    /// the audio it still held, or nothing. Returns that text, decoded lossily
    /// from UTF-8 (empty where there is none), and appends it to the
    /// transcript.
    pub fn finalize(&mut self, flushed: Option<&[u8]>) -> (text: String)
        requires
            reply_bytes_nul_free(flushed),
        ensures
            text@ == reply_bytes_text(flushed),
            final(self).spec_texts() == old(self).spec_texts().push(text@),
            final(self).spec_transcript() == old(self).spec_transcript() + text@,
            final(self).spec_config() == old(self).spec_config(),
    {
        let reply = match flushed {
            Some(bytes) => Some(decode_lossy(bytes)),
            None => None,
        };
        self.accept_text(reply)
    }

    /// Get full accumulated transcript: the concatenation of the texts
    /// returned since the stream was created or last reset.
    pub fn get_transcript(&self) -> (r: String)
        ensures
            r@ == self.spec_transcript(),
            r@ == joined(self.spec_texts()),
            nul_free(r@),
    {
        proof {
            use_type_invariant(self);
        }
        self.transcript.clone()
    }

    /// Reset streaming state (clear caches and transcript)
    pub fn reset(&mut self)
        ensures
            final(self).spec_texts() == Seq::<Seq<char>>::empty(),
            final(self).spec_transcript() == Seq::<char>::empty(),
            final(self).spec_config() == old(self).spec_config(),
    {
        *self = Stream::opened(self.config);
    }
}

} // verus!
