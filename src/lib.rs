//! A typed client for a REST service that serves Quran editions as text and
//! audio: the wire model, its decoding from JSON values, the error taxonomy,
//! and the request and reply logic of each operation.
pub mod json;
pub mod models;
pub mod decode;
pub mod error;
pub mod client;

pub use client::{HttpReply, QuranApiClient};
pub use decode::{DecodeError, Field};
pub use error::{QuranApiError, TransportError};
pub use json::JsonValue;
pub use models::{
    AudioAyah, AudioSurah, Ayah, Edition, EditionType, EditionTypesResponse, EditionsResponse,
    Format, FormatsResponse, Language, LanguagesResponse, QuranAudioData, QuranAudioResponse,
    QuranData, QuranEdition, QuranResponse, QuranTextData, SajdaDetail, SajdaType, Surah,
};
