//! Voice pipeline configuration and memory classification types: the plain
//! values the speech, synthesis and memory services move around.

use vstd::prelude::*;
use crate::strutil::copy_str;

verus! {

/// Speech-to-text provider selection.
#[derive(Debug, Clone, Copy, PartialEq, Eq, Structural)]
pub enum SttProvider {
    Whisper,
    OpenAI,
    Local,
}

/// Whisper transcription configuration.
#[derive(Debug, Clone)]
pub struct WhisperConfig {
    pub model: String,
    pub api_key: Option<String>,
    pub api_url: String,
    pub local_model_path: Option<String>,
}

impl Default for WhisperConfig {
    fn default() -> (r: Self)
        ensures
            r.model@ == "whisper-1"@,
            r.api_key is None,
            r.api_url@ == "https://api.openai.com/v1/audio/transcriptions"@,
            r.local_model_path is None,
    {
        WhisperConfig {
            model: copy_str("whisper-1"),
            api_key: None,
            api_url: copy_str("https://api.openai.com/v1/audio/transcriptions"),
            local_model_path: None,
        }
    }
}

/// Speech-to-text configuration.
#[derive(Debug, Clone)]
pub struct SttConfig {
    pub provider: SttProvider,
    pub whisper: WhisperConfig,
    pub timeout_seconds: u64,
    pub language: Option<String>,
}

impl Default for SttConfig {
    fn default() -> (r: Self)
        ensures
            r.provider == SttProvider::Whisper,
            r.timeout_seconds == 30,
            r.language matches Some(l) && l@ == "en"@,
    {
        SttConfig {
            provider: SttProvider::Whisper,
            whisper: WhisperConfig::default(),
            timeout_seconds: 30,
            language: Some(copy_str("en")),
        }
    }
}

/// Text-to-speech provider selection.
#[derive(Debug, Clone, Copy, PartialEq, Eq, Structural)]
pub enum TtsProvider {
    ElevenLabs,
    OpenAI,
    Local,
}

/// Text-to-speech configuration for the OpenAI backend.
#[derive(Debug, Clone)]
pub struct OpenAITtsConfig {
    pub api_key: String,
    pub api_url: String,
    pub model: String,
    pub voice: String,
}

impl Default for OpenAITtsConfig {
    fn default() -> (r: Self)
        ensures
            r.api_key@.len() == 0,
            r.api_url@ == "https://api.openai.com/v1/audio/speech"@,
            r.model@ == "tts-1"@,
            r.voice@ == "alloy"@,
    {
        OpenAITtsConfig {
            api_key: String::new(),
            api_url: copy_str("https://api.openai.com/v1/audio/speech"),
            model: copy_str("tts-1"),
            voice: copy_str("alloy"),
        }
    }
}

/// Audio capture and playback configuration.
#[derive(Debug, Clone)]
pub struct AudioConfig {
    pub sample_rate: u32,
    pub channels: u16,
    pub bits_per_sample: u16,
    pub buffer_size: usize,
    pub input_device: Option<String>,
    pub output_device: Option<String>,
}

impl Default for AudioConfig {
    fn default() -> (r: Self)
        ensures
            r.sample_rate == 16000,
            r.channels == 1,
            r.bits_per_sample == 16,
            r.buffer_size == 1024,
            r.input_device is None,
            r.output_device is None,
    {
        AudioConfig {
            sample_rate: 16000,
            channels: 1,
            bits_per_sample: 16,
            buffer_size: 1024,
            input_device: None,
            output_device: None,
        }
    }
}

/// What kind of information a memory holds.
#[derive(Debug, Clone, Copy, PartialEq, Eq, Structural)]
pub enum InformationCategory {
    Personal,
    Projects,
    Knowledge,
    Relationships,
    Events,
    Preferences,
    Ideas,
    Other,
}

/// How important a memory is.
#[derive(Debug, Clone, Copy, PartialEq, Eq, Structural)]
pub enum ImportanceLevel {
    Critical,
    High,
    Medium,
    Low,
}

/// A text-to-speech request.
#[derive(Debug, Clone)]
pub struct TTSRequest {
    pub text: String,
    pub voice_id: Option<String>,
    pub model_id: Option<String>,
}

/// A text-to-speech result: audio and its content type.
#[derive(Debug, Clone)]
pub struct TTSResponse {
    pub audio_base64: String,
    pub content_type: String,
}

} // verus!
