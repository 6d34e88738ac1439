//! The data model: enumerations with their lowercase wire tokens, entities,
//! and response envelopes.
use vstd::prelude::*;

verus! {

/// Compares two strings by their characters.
fn same_text(a: &str, b: &str) -> (r: bool)
    ensures
        r == (a@ == b@),
{
    a.to_string() == b.to_string()
}

/// The format of an edition.
#[derive(Debug, Clone, Copy, PartialEq, Eq, Structural)]
pub enum Format {
    Text,
    Audio,
}

pub open spec fn format_token(f: Format) -> Seq<char> {
    match f {
        Format::Text => "text"@,
        Format::Audio => "audio"@,
    }
}

pub open spec fn format_from_token(s: Seq<char>) -> Option<Format> {
    if s == "text"@ {
        Some(Format::Text)
    } else if s == "audio"@ {
        Some(Format::Audio)
    } else {
        None
    }
}

impl Format {
    /// The wire token of this format.
    pub fn to_string(&self) -> (r: String)
        ensures
            r@ == format_token(*self),
    {
        match self {
            Format::Text => "text".to_string(),
            Format::Audio => "audio".to_string(),
        }
    }

    /// The format whose wire token is `s`, if any.
    pub fn from_token(s: &str) -> (r: Option<Format>)
        ensures
            r == format_from_token(s@),
    {
        if same_text(s, "text") {
            Some(Format::Text)
        } else if same_text(s, "audio") {
            Some(Format::Audio)
        } else {
            None
        }
    }
}

/// The language of an edition, as a two-letter code.
#[derive(Debug, Clone, Copy, PartialEq, Eq, Structural)]
pub enum Language {
    En,
    Fr,
    Ar,
}

pub open spec fn language_token(l: Language) -> Seq<char> {
    match l {
        Language::En => "en"@,
        Language::Fr => "fr"@,
        Language::Ar => "ar"@,
    }
}

pub open spec fn language_from_token(s: Seq<char>) -> Option<Language> {
    if s == "en"@ {
        Some(Language::En)
    } else if s == "fr"@ {
        Some(Language::Fr)
    } else if s == "ar"@ {
        Some(Language::Ar)
    } else {
        None
    }
}

impl Language {
    /// The wire token of this language.
    pub fn to_string(&self) -> (r: String)
        ensures
            r@ == language_token(*self),
    {
        match self {
            Language::En => "en".to_string(),
            Language::Fr => "fr".to_string(),
            Language::Ar => "ar".to_string(),
        }
    }

    /// The language whose wire token is `s`, if any.
    pub fn from_token(s: &str) -> (r: Option<Language>)
        ensures
            r == language_from_token(s@),
    {
        if same_text(s, "en") {
            Some(Language::En)
        } else if same_text(s, "fr") {
            Some(Language::Fr)
        } else if same_text(s, "ar") {
            Some(Language::Ar)
        } else {
            None
        }
    }
}

/// The kind of an edition; `Other` carries a token not enumerated here.
#[derive(Debug)]
pub enum EditionType {
    VerseByVerse,
    Translation,
    Tafsir,
    Quran,
    Transliteration,
    Other(String),
}

/// The token of each enumerated edition type; `Other` carries its own.
pub open spec fn edition_type_token(t: EditionType) -> Seq<char> {
    match t {
        EditionType::VerseByVerse => "versebyverse"@,
        EditionType::Translation => "translation"@,
        EditionType::Tafsir => "tafsir"@,
        EditionType::Quran => "quran"@,
        EditionType::Transliteration => "transliteration"@,
        EditionType::Other(s) => s@,
    }
}

/// Whether `s` is the token of an enumerated edition type.
pub open spec fn is_known_edition_type(s: Seq<char>) -> bool {
    s == "versebyverse"@ || s == "translation"@ || s == "tafsir"@ || s == "quran"@
        || s == "transliteration"@
}

/// Whether `t` is what the token `s` decodes to: the enumerated variant whose
/// token it is, or else `Other` holding `s` verbatim.
pub open spec fn edition_type_decodes_to(s: Seq<char>, t: EditionType) -> bool {
    if is_known_edition_type(s) {
        !(t is Other) && edition_type_token(t) == s
    } else {
        t is Other && t->Other_0@ == s
    }
}

impl EditionType {
    /// The wire token of this edition type.
    pub fn to_string(&self) -> (r: String)
        ensures
            r@ == edition_type_token(*self),
    {
        match self {
            EditionType::VerseByVerse => "versebyverse".to_string(),
            EditionType::Translation => "translation".to_string(),
            EditionType::Tafsir => "tafsir".to_string(),
            EditionType::Quran => "quran".to_string(),
            EditionType::Transliteration => "transliteration".to_string(),
            EditionType::Other(s) => s.clone(),
        }
    }

    /// The edition type that the token `s` stands for.
    pub fn from_token(s: &str) -> (r: EditionType)
        ensures
            edition_type_decodes_to(s@, r),
    {
        if same_text(s, "versebyverse") {
            EditionType::VerseByVerse
        } else if same_text(s, "translation") {
            EditionType::Translation
        } else if same_text(s, "tafsir") {
            EditionType::Tafsir
        } else if same_text(s, "quran") {
            EditionType::Quran
        } else if same_text(s, "transliteration") {
            EditionType::Transliteration
        } else {
            EditionType::Other(s.to_string())
        }
    }
}

/// Decoding a format's token gives the format back.
pub proof fn lemma_format_round_trip(f: Format)
    ensures
        format_from_token(format_token(f)) == Some(f),
{
    reveal_strlit("text");
    reveal_strlit("audio");
    assert("text"@.len() != "audio"@.len());
}

/// Decoding a language's token gives the language back.
pub proof fn lemma_language_round_trip(l: Language)
    ensures
        language_from_token(language_token(l)) == Some(l),
{
    reveal_strlit("en");
    reveal_strlit("fr");
    reveal_strlit("ar");
    assert("en"@[0] != "fr"@[0] && "en"@[0] != "ar"@[0] && "fr"@[0] != "ar"@[0]);
}

/// Decoding an edition type's token gives the same edition type back; the
/// token of `Other` is its carried string, exactly.
pub proof fn lemma_edition_type_round_trip(t: EditionType)
    requires
        t is Other ==> !is_known_edition_type(t->Other_0@),
    ensures
        edition_type_decodes_to(edition_type_token(t), t),
        t is Other ==> edition_type_token(t) == t->Other_0@,
{
    reveal_strlit("versebyverse");
    reveal_strlit("translation");
    reveal_strlit("tafsir");
    reveal_strlit("quran");
    reveal_strlit("transliteration");
}

/// One published edition of the text: a translation, a recitation, and so on.
#[derive(Debug)]
pub struct Edition {
    pub identifier: String,
    pub language: String,
    pub name: String,
    pub english_name: String,
    pub format: String,
    pub type_: String,
    pub direction: Option<String>,
}

/// The envelope of a list of editions.
#[derive(Debug)]
pub struct EditionsResponse {
    pub code: u32,
    pub status: String,
    pub data: Vec<Edition>,
}

/// The envelope of the list of language codes.
#[derive(Debug)]
pub struct LanguagesResponse {
    pub code: u32,
    pub status: String,
    pub data: Vec<String>,
}

/// The envelope of the list of edition type tokens.
#[derive(Debug)]
pub struct EditionTypesResponse {
    pub code: u32,
    pub status: String,
    pub data: Vec<String>,
}

/// The envelope of the list of format tokens.
#[derive(Debug)]
pub struct FormatsResponse {
    pub code: u32,
    pub status: String,
    pub data: Vec<String>,
}

/// One verse with its structural locators.
#[allow(non_snake_case)]
#[derive(Debug)]
pub struct Ayah {
    pub number: u32,
    pub text: String,
    pub numberInSurah: u32,
    pub juz: u32,
    pub manzil: u32,
    pub page: u32,
    pub ruku: u32,
    pub hizbQuarter: u32,
    pub sajda: SajdaType,
}

/// The prostration mark of a verse: a bare flag, or a detail object.
#[derive(Debug, Clone, Copy, PartialEq, Eq, Structural)]
pub enum SajdaType {
    Bool(bool),
    Object(SajdaDetail),
}

/// The detail form of a prostration mark.
#[derive(Debug, Clone, Copy, PartialEq, Eq, Structural)]
pub struct SajdaDetail {
    pub recommended: bool,
    pub obligatory: bool,
}

/// One chapter with its verses.
#[derive(Debug)]
pub struct Surah {
    pub number: u32,
    pub name: String,
    pub english_name: String,
    pub english_name_translation: String,
    pub revelation_type: String,
    pub ayahs: Vec<Ayah>,
}

/// The envelope of a complete text edition.
#[derive(Debug)]
pub struct QuranResponse {
    pub code: u32,
    pub status: String,
    pub data: QuranData,
}

/// The chapters of a text edition and the edition that holds them.
#[derive(Debug)]
pub struct QuranData {
    pub surahs: Vec<Surah>,
    pub edition: QuranEdition,
}

/// The edition descriptor nested in complete text and audio payloads.
#[derive(Debug)]
pub struct QuranEdition {
    pub identifier: String,
    pub language: String,
    pub name: String,
    pub english_name: String,
    pub format: String,
    pub type_: String,
}

/// The chapters of a text edition alone.
#[derive(Debug)]
pub struct QuranTextData {
    pub surahs: Vec<Surah>,
}

/// One verse with its recitation addresses.
#[allow(non_snake_case)]
#[derive(Debug)]
pub struct AudioAyah {
    pub number: u32,
    pub text: String,
    pub numberInSurah: u32,
    pub juz: u32,
    pub manzil: u32,
    pub page: u32,
    pub ruku: u32,
    pub hizbQuarter: u32,
    pub audio: String,
    pub audioSecondary: Vec<String>,
    pub sajda: SajdaType,
}

/// One chapter with its recited verses.
#[allow(non_snake_case)]
#[derive(Debug)]
pub struct AudioSurah {
    pub number: u32,
    pub name: String,
    pub english_name: String,
    pub english_name_translation: String,
    pub revelationType: String,
    pub ayahs: Vec<AudioAyah>,
}

/// The envelope of a complete audio edition.
#[derive(Debug)]
pub struct QuranAudioResponse {
    pub code: u32,
    pub status: String,
    pub data: QuranAudioData,
}

/// The chapters of an audio edition and the edition that holds them.
#[derive(Debug)]
pub struct QuranAudioData {
    pub surahs: Vec<AudioSurah>,
    pub edition: QuranEdition,
}

} // verus!
