//! Decoding of the wire model from JSON values, field by field in declaration
//! order; the first field that fails decides the error.
use vstd::prelude::*;
use crate::json::{JsonValue, get_member, lookup, member};
use crate::models::{
    AudioAyah, AudioSurah, Ayah, Edition, EditionTypesResponse, EditionsResponse, FormatsResponse,
    LanguagesResponse, QuranAudioData, QuranAudioResponse, QuranData, QuranEdition, QuranResponse,
    QuranTextData, SajdaDetail, SajdaType, Surah,
};

verus! {

/// The wire name of each member that the model reads.
#[derive(Debug, Clone, Copy, PartialEq, Eq, Structural)]
pub enum Field {
    Code,
    Status,
    Data,
    Identifier,
    Language,
    Name,
    EnglishName,
    Format,
    Type,
    Direction,
    Number,
    Text,
    NumberInSurah,
    Juz,
    Manzil,
    Page,
    Ruku,
    HizbQuarter,
    Sajda,
    Recommended,
    Obligatory,
    EnglishNameTranslation,
    RevelationType,
    Ayahs,
    Surahs,
    Edition,
    Audio,
    AudioSecondary,
}

pub open spec fn field_name(f: Field) -> Seq<char> {
    match f {
        Field::Code => "code"@,
        Field::Status => "status"@,
        Field::Data => "data"@,
        Field::Identifier => "identifier"@,
        Field::Language => "language"@,
        Field::Name => "name"@,
        Field::EnglishName => "englishName"@,
        Field::Format => "format"@,
        Field::Type => "type"@,
        Field::Direction => "direction"@,
        Field::Number => "number"@,
        Field::Text => "text"@,
        Field::NumberInSurah => "numberInSurah"@,
        Field::Juz => "juz"@,
        Field::Manzil => "manzil"@,
        Field::Page => "page"@,
        Field::Ruku => "ruku"@,
        Field::HizbQuarter => "hizbQuarter"@,
        Field::Sajda => "sajda"@,
        Field::Recommended => "recommended"@,
        Field::Obligatory => "obligatory"@,
        Field::EnglishNameTranslation => "englishNameTranslation"@,
        Field::RevelationType => "revelationType"@,
        Field::Ayahs => "ayahs"@,
        Field::Surahs => "surahs"@,
        Field::Edition => "edition"@,
        Field::Audio => "audio"@,
        Field::AudioSecondary => "audioSecondary"@,
    }
}

impl Field {
    /// The member name on the wire.
    pub fn name(&self) -> (r: String)
        ensures
            r@ == field_name(*self),
    {
        match self {
            Field::Code => "code".to_string(),
            Field::Status => "status".to_string(),
            Field::Data => "data".to_string(),
            Field::Identifier => "identifier".to_string(),
            Field::Language => "language".to_string(),
            Field::Name => "name".to_string(),
            Field::EnglishName => "englishName".to_string(),
            Field::Format => "format".to_string(),
            Field::Type => "type".to_string(),
            Field::Direction => "direction".to_string(),
            Field::Number => "number".to_string(),
            Field::Text => "text".to_string(),
            Field::NumberInSurah => "numberInSurah".to_string(),
            Field::Juz => "juz".to_string(),
            Field::Manzil => "manzil".to_string(),
            Field::Page => "page".to_string(),
            Field::Ruku => "ruku".to_string(),
            Field::HizbQuarter => "hizbQuarter".to_string(),
            Field::Sajda => "sajda".to_string(),
            Field::Recommended => "recommended".to_string(),
            Field::Obligatory => "obligatory".to_string(),
            Field::EnglishNameTranslation => "englishNameTranslation".to_string(),
            Field::RevelationType => "revelationType".to_string(),
            Field::Ayahs => "ayahs".to_string(),
            Field::Surahs => "surahs".to_string(),
            Field::Edition => "edition".to_string(),
            Field::Audio => "audio".to_string(),
            Field::AudioSecondary => "audioSecondary".to_string(),
        }
    }
}

/// Why a JSON value does not have the expected shape.
#[derive(Debug)]
pub enum DecodeError {
    /// The body is not JSON at all; the parser's message.
    Syntax(String),
    /// A value that must be an object is not one.
    ExpectedObject,
    /// A required member is absent.
    MissingField(Field),
    /// A member holds a value of the wrong kind or out of range.
    InvalidType(Field),
}

/// The first of two outcomes that is an error.
pub open spec fn or_else(a: Option<DecodeError>, b: Option<DecodeError>) -> Option<DecodeError> {
    if a is Some {
        a
    } else {
        b
    }
}

pub open spec fn err_of<T>(r: Result<T, DecodeError>) -> Option<DecodeError> {
    match r {
        Ok(_) => None,
        Err(e) => Some(e),
    }
}

pub open spec fn object_error(v: JsonValue) -> Option<DecodeError> {
    if v is Object {
        None
    } else {
        Some(DecodeError::ExpectedObject)
    }
}

/// The string member `f` of `v`.
pub open spec fn text_field(v: JsonValue, f: Field) -> Result<String, DecodeError> {
    match member(v, field_name(f)) {
        None => Err(DecodeError::MissingField(f)),
        Some(JsonValue::Str(s)) => Ok(s),
        Some(_) => Err(DecodeError::InvalidType(f)),
    }
}

/// The optional string member `f` of `v`: absent or null is `None`.
pub open spec fn optional_text_field(v: JsonValue, f: Field) -> Result<Option<String>, DecodeError> {
    match member(v, field_name(f)) {
        None => Ok(None),
        Some(JsonValue::Null) => Ok(None),
        Some(JsonValue::Str(s)) => Ok(Some(s)),
        Some(_) => Err(DecodeError::InvalidType(f)),
    }
}

/// The unsigned 32-bit member `f` of `v`.
pub open spec fn u32_field(v: JsonValue, f: Field) -> Result<u32, DecodeError> {
    match member(v, field_name(f)) {
        None => Err(DecodeError::MissingField(f)),
        Some(JsonValue::Integer(n)) => if 0 <= n <= u32::MAX {
            Ok(n as u32)
        } else {
            Err(DecodeError::InvalidType(f))
        },
        Some(_) => Err(DecodeError::InvalidType(f)),
    }
}

/// The boolean member `f` of `v`.
pub open spec fn bool_field(v: JsonValue, f: Field) -> Result<bool, DecodeError> {
    match member(v, field_name(f)) {
        None => Err(DecodeError::MissingField(f)),
        Some(JsonValue::Bool(b)) => Ok(b),
        Some(_) => Err(DecodeError::InvalidType(f)),
    }
}

fn is_object(v: &JsonValue) -> (r: bool)
    ensures
        r == (*v is Object),
{
    match v {
        JsonValue::Object(_) => true,
        _ => false,
    }
}

fn read_text(v: &JsonValue, f: Field) -> (r: Result<String, DecodeError>)
    ensures
        r == text_field(*v, f),
{
    match get_member(v, &f.name()) {
        None => Err(DecodeError::MissingField(f)),
        Some(JsonValue::Str(s)) => Ok(s.clone()),
        Some(_) => Err(DecodeError::InvalidType(f)),
    }
}

fn read_optional_text(v: &JsonValue, f: Field) -> (r: Result<Option<String>, DecodeError>)
    ensures
        r == optional_text_field(*v, f),
{
    match get_member(v, &f.name()) {
        None => Ok(None),
        Some(JsonValue::Null) => Ok(None),
        Some(JsonValue::Str(s)) => Ok(Some(s.clone())),
        Some(_) => Err(DecodeError::InvalidType(f)),
    }
}

fn read_u32(v: &JsonValue, f: Field) -> (r: Result<u32, DecodeError>)
    ensures
        r == u32_field(*v, f),
{
    match get_member(v, &f.name()) {
        None => Err(DecodeError::MissingField(f)),
        Some(JsonValue::Integer(n)) => if 0 <= *n && *n <= 0xffff_ffff {
            Ok(*n as u32)
        } else {
            Err(DecodeError::InvalidType(f))
        },
        Some(_) => Err(DecodeError::InvalidType(f)),
    }
}

fn read_bool(v: &JsonValue, f: Field) -> (r: Result<bool, DecodeError>)
    ensures
        r == bool_field(*v, f),
{
    match get_member(v, &f.name()) {
        None => Err(DecodeError::MissingField(f)),
        Some(JsonValue::Bool(b)) => Ok(*b),
        Some(_) => Err(DecodeError::InvalidType(f)),
    }
}

/// The error, if any, of decoding `v` as an edition.
pub open spec fn edition_error(v: JsonValue) -> Option<DecodeError> {
    or_else(object_error(v),
    or_else(err_of(text_field(v, Field::Identifier)),
    or_else(err_of(text_field(v, Field::Language)),
    or_else(err_of(text_field(v, Field::Name)),
    or_else(err_of(text_field(v, Field::EnglishName)),
    or_else(err_of(text_field(v, Field::Format)),
    or_else(err_of(text_field(v, Field::Type)),
    err_of(optional_text_field(v, Field::Direction)))))))))
}

/// Whether `e` holds the members of `v` that an edition reads.
pub open spec fn is_edition(e: Edition, v: JsonValue) -> bool {
    &&& Ok::<String, DecodeError>(e.identifier) == text_field(v, Field::Identifier)
    &&& Ok::<String, DecodeError>(e.language) == text_field(v, Field::Language)
    &&& Ok::<String, DecodeError>(e.name) == text_field(v, Field::Name)
    &&& Ok::<String, DecodeError>(e.english_name) == text_field(v, Field::EnglishName)
    &&& Ok::<String, DecodeError>(e.format) == text_field(v, Field::Format)
    &&& Ok::<String, DecodeError>(e.type_) == text_field(v, Field::Type)
    &&& Ok::<Option<String>, DecodeError>(e.direction) == optional_text_field(v, Field::Direction)
}

/// Decodes an edition from `v`.
pub fn decode_edition(v: &JsonValue) -> (r: Result<Edition, DecodeError>)
    ensures
        match r {
            Ok(e) => edition_error(*v) is None && is_edition(e, *v),
            Err(e) => edition_error(*v) == Some(e),
        },
{
    if !is_object(v) {
        return Err(DecodeError::ExpectedObject);
    }
    let identifier = read_text(v, Field::Identifier)?;
    let language = read_text(v, Field::Language)?;
    let name = read_text(v, Field::Name)?;
    let english_name = read_text(v, Field::EnglishName)?;
    let format = read_text(v, Field::Format)?;
    let type_ = read_text(v, Field::Type)?;
    let direction = read_optional_text(v, Field::Direction)?;
    Ok(Edition { identifier, language, name, english_name, format, type_, direction })
}

/// The first error among `items` under `check`, in order.
pub open spec fn items_error(items: Seq<JsonValue>, check: spec_fn(JsonValue) -> Option<DecodeError>) -> Option<DecodeError>
    decreases items.len(),
{
    if items.len() == 0 {
        None
    } else {
        or_else(items_error(items.drop_last(), check), check(items.last()))
    }
}

/// The array member `f` of `v`.
pub open spec fn list_field(v: JsonValue, f: Field) -> Result<Seq<JsonValue>, DecodeError> {
    match member(v, field_name(f)) {
        None => Err(DecodeError::MissingField(f)),
        Some(JsonValue::Array(items)) => Ok(items@),
        Some(_) => Err(DecodeError::InvalidType(f)),
    }
}

/// The error, if any, of decoding the array member `f` of `v` item by item.
pub open spec fn list_error(v: JsonValue, f: Field, check: spec_fn(JsonValue) -> Option<DecodeError>) -> Option<DecodeError> {
    match list_field(v, f) {
        Err(e) => Some(e),
        Ok(items) => items_error(items, check),
    }
}

/// Whether `xs` are the items of the array member `f` of `v`, one for one.
pub open spec fn list_matches<T>(xs: Seq<T>, v: JsonValue, f: Field, rel: spec_fn(T, JsonValue) -> bool) -> bool {
    &&& list_field(v, f) is Ok
    &&& xs.len() == list_field(v, f)->Ok_0.len()
    &&& forall|i: int| 0 <= i < xs.len() ==> #[trigger] rel(xs[i], list_field(v, f)->Ok_0[i])
}

fn read_list<'a>(v: &'a JsonValue, f: Field) -> (r: Result<&'a Vec<JsonValue>, DecodeError>)
    ensures
        match r {
            Ok(items) => list_field(*v, f) == Ok::<Seq<JsonValue>, DecodeError>(items@),
            Err(e) => list_field(*v, f) == Err::<Seq<JsonValue>, DecodeError>(e),
        },
{
    match get_member(v, &f.name()) {
        None => Err(DecodeError::MissingField(f)),
        Some(JsonValue::Array(items)) => Ok(items),
        Some(_) => Err(DecodeError::InvalidType(f)),
    }
}

pub open spec fn text_error(v: JsonValue, f: Field) -> Option<DecodeError> {
    if v is Str {
        None
    } else {
        Some(DecodeError::InvalidType(f))
    }
}

pub open spec fn is_text(s: String, v: JsonValue) -> bool {
    v == JsonValue::Str(s)
}

pub open spec fn text_check(f: Field) -> spec_fn(JsonValue) -> Option<DecodeError> {
    |x: JsonValue| text_error(x, f)
}

pub open spec fn text_rel() -> spec_fn(String, JsonValue) -> bool {
    |s: String, x: JsonValue| is_text(s, x)
}

/// Decodes the array member `f` of `v` as a list of strings.
fn read_text_list(v: &JsonValue, f: Field) -> (r: Result<Vec<String>, DecodeError>)
    ensures
        match r {
            Ok(xs) => list_error(*v, f, text_check(f)) is None
                && list_matches(xs@, *v, f, text_rel()),
            Err(e) => list_error(*v, f, text_check(f)) == Some(e),
        },
{
    let items = read_list(v, f)?;
    let ghost check = text_check(f);
    let mut out: Vec<String> = Vec::new();
    let mut i: usize = 0;
    while i < items.len()
        invariant
            0 <= i <= items@.len(),
            list_field(*v, f) == Ok::<Seq<JsonValue>, DecodeError>(items@),
            check == text_check(f),
            items_error(items@.take(i as int), check) is None,
            out@.len() == i,
            forall|j: int| 0 <= j < i ==> #[trigger] is_text(out@[j], items@[j]),
        decreases items@.len() - i,
    {
        assert(items@.take(i as int + 1).drop_last() =~= items@.take(i as int));
        match &items[i] {
            JsonValue::Str(s) => {
                out.push(s.clone());
            },
            _ => {
                proof {
                    assert(items@.take(i as int + 1).last() == items@[i as int]);
                    assert(check(items@[i as int]) == text_error(items@[i as int], f));
                    assert(items_error(items@.take(i as int + 1), check) == check(items@[i as int]));
                    lemma_items_error_prefix(items@, i as int + 1, check);
                }
                return Err(DecodeError::InvalidType(f));
            },
        }
        i = i + 1;
    }
    assert(items@.take(i as int) =~= items@);
    Ok(out)
}

/// An error in a prefix is the error of the whole list.
proof fn lemma_items_error_prefix(items: Seq<JsonValue>, n: int, check: spec_fn(JsonValue) -> Option<DecodeError>)
    requires
        0 <= n <= items.len(),
        items_error(items.take(n), check) is Some,
    ensures
        items_error(items, check) == items_error(items.take(n), check),
    decreases items.len() - n,
{
    if n < items.len() {
        assert(items.take(n + 1).drop_last() =~= items.take(n));
        lemma_items_error_prefix(items, n + 1, check);
    } else {
        assert(items.take(n) =~= items);
    }
}

/// The error, if any, of decoding the member `f` of `v` under `check`.
pub open spec fn nested_error(v: JsonValue, f: Field, check: spec_fn(JsonValue) -> Option<DecodeError>) -> Option<DecodeError> {
    match member(v, field_name(f)) {
        None => Some(DecodeError::MissingField(f)),
        Some(x) => check(x),
    }
}

fn read_member<'a>(v: &'a JsonValue, f: Field) -> (r: Result<&'a JsonValue, DecodeError>)
    ensures
        match r {
            Ok(x) => member(*v, field_name(f)) == Some(*x),
            Err(e) => member(*v, field_name(f)) is None && e == DecodeError::MissingField(f),
        },
{
    match get_member(v, &f.name()) {
        None => Err(DecodeError::MissingField(f)),
        Some(x) => Ok(x),
    }
}

/// A prostration mark: a boolean first, else the detail object, else neither.
pub open spec fn sajda_of(v: JsonValue) -> Result<SajdaType, DecodeError> {
    match v {
        JsonValue::Bool(b) => Ok(SajdaType::Bool(b)),
        _ => match detail_of(v) {
            Ok(d) => Ok(SajdaType::Object(d)),
            Err(_) => Err(DecodeError::InvalidType(Field::Sajda)),
        },
    }
}

/// The detail object of a prostration mark.
pub open spec fn detail_of(v: JsonValue) -> Result<SajdaDetail, DecodeError> {
    if !(v is Object) {
        Err(DecodeError::ExpectedObject)
    } else {
        match bool_field(v, Field::Recommended) {
            Err(e) => Err(e),
            Ok(recommended) => match bool_field(v, Field::Obligatory) {
                Err(e) => Err(e),
                Ok(obligatory) => Ok(SajdaDetail { recommended, obligatory }),
            },
        }
    }
}

pub open spec fn sajda_check() -> spec_fn(JsonValue) -> Option<DecodeError> {
    |x: JsonValue| err_of(sajda_of(x))
}

/// Decodes the detail object of a prostration mark.
pub fn decode_sajda_detail(v: &JsonValue) -> (r: Result<SajdaDetail, DecodeError>)
    ensures
        r == detail_of(*v),
{
    if !is_object(v) {
        return Err(DecodeError::ExpectedObject);
    }
    let recommended = read_bool(v, Field::Recommended)?;
    let obligatory = read_bool(v, Field::Obligatory)?;
    Ok(SajdaDetail { recommended, obligatory })
}

/// Decodes a prostration mark, trying the boolean shape before the object one.
pub fn decode_sajda(v: &JsonValue) -> (r: Result<SajdaType, DecodeError>)
    ensures
        r == sajda_of(*v),
{
    if let JsonValue::Bool(b) = v {
        return Ok(SajdaType::Bool(*b));
    }
    match decode_sajda_detail(v) {
        Ok(d) => Ok(SajdaType::Object(d)),
        Err(_) => Err(DecodeError::InvalidType(Field::Sajda)),
    }
}

/// Encodes a prostration mark in the shape it stands for: the flag as a
/// boolean, the detail as an object with its two members.
pub fn encode_sajda(s: &SajdaType) -> (r: JsonValue)
    ensures
        sajda_of(r) == Ok::<SajdaType, DecodeError>(*s),
{
    match s {
        SajdaType::Bool(b) => JsonValue::Bool(*b),
        SajdaType::Object(d) => {
            let entries = vec![
                (Field::Recommended.name(), JsonValue::Bool(d.recommended)),
                (Field::Obligatory.name(), JsonValue::Bool(d.obligatory)),
            ];
            let r = JsonValue::Object(entries);
            proof {
                reveal_strlit("recommended");
                reveal_strlit("obligatory");
                let es = entries@;
                assert(es[0].0@ == field_name(Field::Recommended));
                assert(es[1].0@ == field_name(Field::Obligatory));
                assert(es[0].0@.len() != es[1].0@.len());
                assert(es.drop_first()[0] == es[1]);
                assert(es.drop_first().len() == 1);
                assert(lookup(es.drop_first(), field_name(Field::Obligatory)) == Some(JsonValue::Bool(d.obligatory)));
                assert(lookup(es, field_name(Field::Obligatory)) == lookup(es.drop_first(), field_name(Field::Obligatory)));
                assert(member(r, field_name(Field::Recommended)) == Some(JsonValue::Bool(d.recommended)));
                assert(member(r, field_name(Field::Obligatory)) == Some(JsonValue::Bool(d.obligatory)));
            }
            r
        },
    }
}

/// The error, if any, of decoding `v` as an edition descriptor.
pub open spec fn quran_edition_error(v: JsonValue) -> Option<DecodeError> {
    or_else(object_error(v),
    or_else(err_of(text_field(v, Field::Identifier)),
    or_else(err_of(text_field(v, Field::Language)),
    or_else(err_of(text_field(v, Field::Name)),
    or_else(err_of(text_field(v, Field::EnglishName)),
    or_else(err_of(text_field(v, Field::Format)),
    err_of(text_field(v, Field::Type))))))))
}

/// Whether `x` holds the members of `v` that an edition descriptor reads.
pub open spec fn is_quran_edition(x: QuranEdition, v: JsonValue) -> bool {
    &&& Ok::<String, DecodeError>(x.identifier) == text_field(v, Field::Identifier)
    &&& Ok::<String, DecodeError>(x.language) == text_field(v, Field::Language)
    &&& Ok::<String, DecodeError>(x.name) == text_field(v, Field::Name)
    &&& Ok::<String, DecodeError>(x.english_name) == text_field(v, Field::EnglishName)
    &&& Ok::<String, DecodeError>(x.format) == text_field(v, Field::Format)
    &&& Ok::<String, DecodeError>(x.type_) == text_field(v, Field::Type)
}

/// Decodes an edition descriptor from `v`.
pub fn decode_quran_edition(v: &JsonValue) -> (r: Result<QuranEdition, DecodeError>)
    ensures
        match r {
            Ok(x) => quran_edition_error(*v) is None && is_quran_edition(x, *v),
            Err(e) => quran_edition_error(*v) == Some(e),
        },
{
    if !is_object(v) {
        return Err(DecodeError::ExpectedObject);
    }
    let identifier = read_text(v, Field::Identifier)?;
    let language = read_text(v, Field::Language)?;
    let name = read_text(v, Field::Name)?;
    let english_name = read_text(v, Field::EnglishName)?;
    let format = read_text(v, Field::Format)?;
    let type_ = read_text(v, Field::Type)?;
    Ok(QuranEdition { identifier, language, name, english_name, format, type_ })
}

pub open spec fn quran_edition_error_check() -> spec_fn(JsonValue) -> Option<DecodeError> {
    |x: JsonValue| quran_edition_error(x)
}

pub open spec fn edition_error_check() -> spec_fn(JsonValue) -> Option<DecodeError> {
    |x: JsonValue| edition_error(x)
}

pub open spec fn is_edition_rel() -> spec_fn(Edition, JsonValue) -> bool {
    |a: Edition, x: JsonValue| is_edition(a, x)
}

/// Decodes the array member `f` of `v` item by item.
fn read_editions(v: &JsonValue, f: Field) -> (r: Result<Vec<Edition>, DecodeError>)
    ensures
        match r {
            Ok(xs) => list_error(*v, f, edition_error_check()) is None
                && list_matches(xs@, *v, f, is_edition_rel()),
            Err(e) => list_error(*v, f, edition_error_check()) == Some(e),
        },
{
    let items = read_list(v, f)?;
    let ghost check = edition_error_check();
    let mut out: Vec<Edition> = Vec::new();
    let mut i: usize = 0;
    while i < items.len()
        invariant
            0 <= i <= items@.len(),
            list_field(*v, f) == Ok::<Seq<JsonValue>, DecodeError>(items@),
            check == edition_error_check(),
            items_error(items@.take(i as int), check) is None,
            out@.len() == i,
            forall|j: int| 0 <= j < i ==> #[trigger] is_edition(out@[j], items@[j]),
        decreases items@.len() - i,
    {
        assert(items@.take(i as int + 1).drop_last() =~= items@.take(i as int));
        assert(items@.take(i as int + 1).last() == items@[i as int]);
        match decode_edition(&items[i]) {
            Ok(x) => {
                out.push(x);
            },
            Err(e) => {
                proof {
                    assert(check(items@[i as int]) == edition_error(items@[i as int]));
                    lemma_items_error_prefix(items@, i as int + 1, check);
                }
                return Err(e);
            },
        }
        i = i + 1;
    }
    assert(items@.take(i as int) =~= items@);
    Ok(out)
}

/// The error, if any, of decoding `v` as a verse.
pub open spec fn ayah_error(v: JsonValue) -> Option<DecodeError> {
    or_else(object_error(v),
    or_else(err_of(u32_field(v, Field::Number)),
    or_else(err_of(text_field(v, Field::Text)),
    or_else(err_of(u32_field(v, Field::NumberInSurah)),
    or_else(err_of(u32_field(v, Field::Juz)),
    or_else(err_of(u32_field(v, Field::Manzil)),
    or_else(err_of(u32_field(v, Field::Page)),
    or_else(err_of(u32_field(v, Field::Ruku)),
    or_else(err_of(u32_field(v, Field::HizbQuarter)),
    nested_error(v, Field::Sajda, sajda_check()))))))))))
}

/// Whether `x` holds the members of `v` that a verse reads.
pub open spec fn is_ayah(x: Ayah, v: JsonValue) -> bool {
    &&& Ok::<u32, DecodeError>(x.number) == u32_field(v, Field::Number)
    &&& Ok::<String, DecodeError>(x.text) == text_field(v, Field::Text)
    &&& Ok::<u32, DecodeError>(x.numberInSurah) == u32_field(v, Field::NumberInSurah)
    &&& Ok::<u32, DecodeError>(x.juz) == u32_field(v, Field::Juz)
    &&& Ok::<u32, DecodeError>(x.manzil) == u32_field(v, Field::Manzil)
    &&& Ok::<u32, DecodeError>(x.page) == u32_field(v, Field::Page)
    &&& Ok::<u32, DecodeError>(x.ruku) == u32_field(v, Field::Ruku)
    &&& Ok::<u32, DecodeError>(x.hizbQuarter) == u32_field(v, Field::HizbQuarter)
    &&& member(v, field_name(Field::Sajda)) is Some && Ok::<SajdaType, DecodeError>(x.sajda) == sajda_of(member(v, field_name(Field::Sajda))->0)
}

/// Decodes a verse from `v`.
pub fn decode_ayah(v: &JsonValue) -> (r: Result<Ayah, DecodeError>)
    ensures
        match r {
            Ok(x) => ayah_error(*v) is None && is_ayah(x, *v),
            Err(e) => ayah_error(*v) == Some(e),
        },
{
    if !is_object(v) {
        return Err(DecodeError::ExpectedObject);
    }
    let number = read_u32(v, Field::Number)?;
    let text = read_text(v, Field::Text)?;
    let numberInSurah = read_u32(v, Field::NumberInSurah)?;
    let juz = read_u32(v, Field::Juz)?;
    let manzil = read_u32(v, Field::Manzil)?;
    let page = read_u32(v, Field::Page)?;
    let ruku = read_u32(v, Field::Ruku)?;
    let hizbQuarter = read_u32(v, Field::HizbQuarter)?;
    let sajda = decode_sajda(read_member(v, Field::Sajda)?)?;
    Ok(Ayah { number, text, numberInSurah, juz, manzil, page, ruku, hizbQuarter, sajda })
}

pub open spec fn ayah_error_check() -> spec_fn(JsonValue) -> Option<DecodeError> {
    |x: JsonValue| ayah_error(x)
}

pub open spec fn is_ayah_rel() -> spec_fn(Ayah, JsonValue) -> bool {
    |a: Ayah, x: JsonValue| is_ayah(a, x)
}

/// Decodes the array member `f` of `v` item by item.
fn read_ayahs(v: &JsonValue, f: Field) -> (r: Result<Vec<Ayah>, DecodeError>)
    ensures
        match r {
            Ok(xs) => list_error(*v, f, ayah_error_check()) is None
                && list_matches(xs@, *v, f, is_ayah_rel()),
            Err(e) => list_error(*v, f, ayah_error_check()) == Some(e),
        },
{
    let items = read_list(v, f)?;
    let ghost check = ayah_error_check();
    let mut out: Vec<Ayah> = Vec::new();
    let mut i: usize = 0;
    while i < items.len()
        invariant
            0 <= i <= items@.len(),
            list_field(*v, f) == Ok::<Seq<JsonValue>, DecodeError>(items@),
            check == ayah_error_check(),
            items_error(items@.take(i as int), check) is None,
            out@.len() == i,
            forall|j: int| 0 <= j < i ==> #[trigger] is_ayah(out@[j], items@[j]),
        decreases items@.len() - i,
    {
        assert(items@.take(i as int + 1).drop_last() =~= items@.take(i as int));
        assert(items@.take(i as int + 1).last() == items@[i as int]);
        match decode_ayah(&items[i]) {
            Ok(x) => {
                out.push(x);
            },
            Err(e) => {
                proof {
                    assert(check(items@[i as int]) == ayah_error(items@[i as int]));
                    lemma_items_error_prefix(items@, i as int + 1, check);
                }
                return Err(e);
            },
        }
        i = i + 1;
    }
    assert(items@.take(i as int) =~= items@);
    Ok(out)
}

/// The error, if any, of decoding `v` as a recited verse.
pub open spec fn audio_ayah_error(v: JsonValue) -> Option<DecodeError> {
    or_else(object_error(v),
    or_else(err_of(u32_field(v, Field::Number)),
    or_else(err_of(text_field(v, Field::Text)),
    or_else(err_of(u32_field(v, Field::NumberInSurah)),
    or_else(err_of(u32_field(v, Field::Juz)),
    or_else(err_of(u32_field(v, Field::Manzil)),
    or_else(err_of(u32_field(v, Field::Page)),
    or_else(err_of(u32_field(v, Field::Ruku)),
    or_else(err_of(u32_field(v, Field::HizbQuarter)),
    or_else(err_of(text_field(v, Field::Audio)),
    or_else(list_error(v, Field::AudioSecondary, text_check(Field::AudioSecondary)),
    nested_error(v, Field::Sajda, sajda_check()))))))))))))
}

/// Whether `x` holds the members of `v` that a recited verse reads.
pub open spec fn is_audio_ayah(x: AudioAyah, v: JsonValue) -> bool {
    &&& Ok::<u32, DecodeError>(x.number) == u32_field(v, Field::Number)
    &&& Ok::<String, DecodeError>(x.text) == text_field(v, Field::Text)
    &&& Ok::<u32, DecodeError>(x.numberInSurah) == u32_field(v, Field::NumberInSurah)
    &&& Ok::<u32, DecodeError>(x.juz) == u32_field(v, Field::Juz)
    &&& Ok::<u32, DecodeError>(x.manzil) == u32_field(v, Field::Manzil)
    &&& Ok::<u32, DecodeError>(x.page) == u32_field(v, Field::Page)
    &&& Ok::<u32, DecodeError>(x.ruku) == u32_field(v, Field::Ruku)
    &&& Ok::<u32, DecodeError>(x.hizbQuarter) == u32_field(v, Field::HizbQuarter)
    &&& Ok::<String, DecodeError>(x.audio) == text_field(v, Field::Audio)
    &&& list_matches(x.audioSecondary@, v, Field::AudioSecondary, text_rel())
    &&& member(v, field_name(Field::Sajda)) is Some && Ok::<SajdaType, DecodeError>(x.sajda) == sajda_of(member(v, field_name(Field::Sajda))->0)
}

/// Decodes a recited verse from `v`.
pub fn decode_audio_ayah(v: &JsonValue) -> (r: Result<AudioAyah, DecodeError>)
    ensures
        match r {
            Ok(x) => audio_ayah_error(*v) is None && is_audio_ayah(x, *v),
            Err(e) => audio_ayah_error(*v) == Some(e),
        },
{
    if !is_object(v) {
        return Err(DecodeError::ExpectedObject);
    }
    let number = read_u32(v, Field::Number)?;
    let text = read_text(v, Field::Text)?;
    let numberInSurah = read_u32(v, Field::NumberInSurah)?;
    let juz = read_u32(v, Field::Juz)?;
    let manzil = read_u32(v, Field::Manzil)?;
    let page = read_u32(v, Field::Page)?;
    let ruku = read_u32(v, Field::Ruku)?;
    let hizbQuarter = read_u32(v, Field::HizbQuarter)?;
    let audio = read_text(v, Field::Audio)?;
    let audioSecondary = read_text_list(v, Field::AudioSecondary)?;
    let sajda = decode_sajda(read_member(v, Field::Sajda)?)?;
    Ok(AudioAyah { number, text, numberInSurah, juz, manzil, page, ruku, hizbQuarter, audio, audioSecondary, sajda })
}

pub open spec fn audio_ayah_error_check() -> spec_fn(JsonValue) -> Option<DecodeError> {
    |x: JsonValue| audio_ayah_error(x)
}

pub open spec fn is_audio_ayah_rel() -> spec_fn(AudioAyah, JsonValue) -> bool {
    |a: AudioAyah, x: JsonValue| is_audio_ayah(a, x)
}

/// Decodes the array member `f` of `v` item by item.
fn read_audio_ayahs(v: &JsonValue, f: Field) -> (r: Result<Vec<AudioAyah>, DecodeError>)
    ensures
        match r {
            Ok(xs) => list_error(*v, f, audio_ayah_error_check()) is None
                && list_matches(xs@, *v, f, is_audio_ayah_rel()),
            Err(e) => list_error(*v, f, audio_ayah_error_check()) == Some(e),
        },
{
    let items = read_list(v, f)?;
    let ghost check = audio_ayah_error_check();
    let mut out: Vec<AudioAyah> = Vec::new();
    let mut i: usize = 0;
    while i < items.len()
        invariant
            0 <= i <= items@.len(),
            list_field(*v, f) == Ok::<Seq<JsonValue>, DecodeError>(items@),
            check == audio_ayah_error_check(),
            items_error(items@.take(i as int), check) is None,
            out@.len() == i,
            forall|j: int| 0 <= j < i ==> #[trigger] is_audio_ayah(out@[j], items@[j]),
        decreases items@.len() - i,
    {
        assert(items@.take(i as int + 1).drop_last() =~= items@.take(i as int));
        assert(items@.take(i as int + 1).last() == items@[i as int]);
        match decode_audio_ayah(&items[i]) {
            Ok(x) => {
                out.push(x);
            },
            Err(e) => {
                proof {
                    assert(check(items@[i as int]) == audio_ayah_error(items@[i as int]));
                    lemma_items_error_prefix(items@, i as int + 1, check);
                }
                return Err(e);
            },
        }
        i = i + 1;
    }
    assert(items@.take(i as int) =~= items@);
    Ok(out)
}

/// The error, if any, of decoding `v` as a chapter.
pub open spec fn surah_error(v: JsonValue) -> Option<DecodeError> {
    or_else(object_error(v),
    or_else(err_of(u32_field(v, Field::Number)),
    or_else(err_of(text_field(v, Field::Name)),
    or_else(err_of(text_field(v, Field::EnglishName)),
    or_else(err_of(text_field(v, Field::EnglishNameTranslation)),
    or_else(err_of(text_field(v, Field::RevelationType)),
    list_error(v, Field::Ayahs, ayah_error_check())))))))
}

/// Whether `x` holds the members of `v` that a chapter reads.
pub open spec fn is_surah(x: Surah, v: JsonValue) -> bool {
    &&& Ok::<u32, DecodeError>(x.number) == u32_field(v, Field::Number)
    &&& Ok::<String, DecodeError>(x.name) == text_field(v, Field::Name)
    &&& Ok::<String, DecodeError>(x.english_name) == text_field(v, Field::EnglishName)
    &&& Ok::<String, DecodeError>(x.english_name_translation) == text_field(v, Field::EnglishNameTranslation)
    &&& Ok::<String, DecodeError>(x.revelation_type) == text_field(v, Field::RevelationType)
    &&& list_matches(x.ayahs@, v, Field::Ayahs, is_ayah_rel())
}

/// Decodes a chapter from `v`.
pub fn decode_surah(v: &JsonValue) -> (r: Result<Surah, DecodeError>)
    ensures
        match r {
            Ok(x) => surah_error(*v) is None && is_surah(x, *v),
            Err(e) => surah_error(*v) == Some(e),
        },
{
    if !is_object(v) {
        return Err(DecodeError::ExpectedObject);
    }
    let number = read_u32(v, Field::Number)?;
    let name = read_text(v, Field::Name)?;
    let english_name = read_text(v, Field::EnglishName)?;
    let english_name_translation = read_text(v, Field::EnglishNameTranslation)?;
    let revelation_type = read_text(v, Field::RevelationType)?;
    let ayahs = read_ayahs(v, Field::Ayahs)?;
    Ok(Surah { number, name, english_name, english_name_translation, revelation_type, ayahs })
}

pub open spec fn surah_error_check() -> spec_fn(JsonValue) -> Option<DecodeError> {
    |x: JsonValue| surah_error(x)
}

pub open spec fn is_surah_rel() -> spec_fn(Surah, JsonValue) -> bool {
    |a: Surah, x: JsonValue| is_surah(a, x)
}

/// Decodes the array member `f` of `v` item by item.
fn read_surahs(v: &JsonValue, f: Field) -> (r: Result<Vec<Surah>, DecodeError>)
    ensures
        match r {
            Ok(xs) => list_error(*v, f, surah_error_check()) is None
                && list_matches(xs@, *v, f, is_surah_rel()),
            Err(e) => list_error(*v, f, surah_error_check()) == Some(e),
        },
{
    let items = read_list(v, f)?;
    let ghost check = surah_error_check();
    let mut out: Vec<Surah> = Vec::new();
    let mut i: usize = 0;
    while i < items.len()
        invariant
            0 <= i <= items@.len(),
            list_field(*v, f) == Ok::<Seq<JsonValue>, DecodeError>(items@),
            check == surah_error_check(),
            items_error(items@.take(i as int), check) is None,
            out@.len() == i,
            forall|j: int| 0 <= j < i ==> #[trigger] is_surah(out@[j], items@[j]),
        decreases items@.len() - i,
    {
        assert(items@.take(i as int + 1).drop_last() =~= items@.take(i as int));
        assert(items@.take(i as int + 1).last() == items@[i as int]);
        match decode_surah(&items[i]) {
            Ok(x) => {
                out.push(x);
            },
            Err(e) => {
                proof {
                    assert(check(items@[i as int]) == surah_error(items@[i as int]));
                    lemma_items_error_prefix(items@, i as int + 1, check);
                }
                return Err(e);
            },
        }
        i = i + 1;
    }
    assert(items@.take(i as int) =~= items@);
    Ok(out)
}

/// The error, if any, of decoding `v` as a recited chapter.
pub open spec fn audio_surah_error(v: JsonValue) -> Option<DecodeError> {
    or_else(object_error(v),
    or_else(err_of(u32_field(v, Field::Number)),
    or_else(err_of(text_field(v, Field::Name)),
    or_else(err_of(text_field(v, Field::EnglishName)),
    or_else(err_of(text_field(v, Field::EnglishNameTranslation)),
    or_else(err_of(text_field(v, Field::RevelationType)),
    list_error(v, Field::Ayahs, audio_ayah_error_check())))))))
}

/// Whether `x` holds the members of `v` that a recited chapter reads.
pub open spec fn is_audio_surah(x: AudioSurah, v: JsonValue) -> bool {
    &&& Ok::<u32, DecodeError>(x.number) == u32_field(v, Field::Number)
    &&& Ok::<String, DecodeError>(x.name) == text_field(v, Field::Name)
    &&& Ok::<String, DecodeError>(x.english_name) == text_field(v, Field::EnglishName)
    &&& Ok::<String, DecodeError>(x.english_name_translation) == text_field(v, Field::EnglishNameTranslation)
    &&& Ok::<String, DecodeError>(x.revelationType) == text_field(v, Field::RevelationType)
    &&& list_matches(x.ayahs@, v, Field::Ayahs, is_audio_ayah_rel())
}

/// Decodes a recited chapter from `v`.
pub fn decode_audio_surah(v: &JsonValue) -> (r: Result<AudioSurah, DecodeError>)
    ensures
        match r {
            Ok(x) => audio_surah_error(*v) is None && is_audio_surah(x, *v),
            Err(e) => audio_surah_error(*v) == Some(e),
        },
{
    if !is_object(v) {
        return Err(DecodeError::ExpectedObject);
    }
    let number = read_u32(v, Field::Number)?;
    let name = read_text(v, Field::Name)?;
    let english_name = read_text(v, Field::EnglishName)?;
    let english_name_translation = read_text(v, Field::EnglishNameTranslation)?;
    let revelationType = read_text(v, Field::RevelationType)?;
    let ayahs = read_audio_ayahs(v, Field::Ayahs)?;
    Ok(AudioSurah { number, name, english_name, english_name_translation, revelationType, ayahs })
}

pub open spec fn audio_surah_error_check() -> spec_fn(JsonValue) -> Option<DecodeError> {
    |x: JsonValue| audio_surah_error(x)
}

pub open spec fn is_audio_surah_rel() -> spec_fn(AudioSurah, JsonValue) -> bool {
    |a: AudioSurah, x: JsonValue| is_audio_surah(a, x)
}

/// Decodes the array member `f` of `v` item by item.
fn read_audio_surahs(v: &JsonValue, f: Field) -> (r: Result<Vec<AudioSurah>, DecodeError>)
    ensures
        match r {
            Ok(xs) => list_error(*v, f, audio_surah_error_check()) is None
                && list_matches(xs@, *v, f, is_audio_surah_rel()),
            Err(e) => list_error(*v, f, audio_surah_error_check()) == Some(e),
        },
{
    let items = read_list(v, f)?;
    let ghost check = audio_surah_error_check();
    let mut out: Vec<AudioSurah> = Vec::new();
    let mut i: usize = 0;
    while i < items.len()
        invariant
            0 <= i <= items@.len(),
            list_field(*v, f) == Ok::<Seq<JsonValue>, DecodeError>(items@),
            check == audio_surah_error_check(),
            items_error(items@.take(i as int), check) is None,
            out@.len() == i,
            forall|j: int| 0 <= j < i ==> #[trigger] is_audio_surah(out@[j], items@[j]),
        decreases items@.len() - i,
    {
        assert(items@.take(i as int + 1).drop_last() =~= items@.take(i as int));
        assert(items@.take(i as int + 1).last() == items@[i as int]);
        match decode_audio_surah(&items[i]) {
            Ok(x) => {
                out.push(x);
            },
            Err(e) => {
                proof {
                    assert(check(items@[i as int]) == audio_surah_error(items@[i as int]));
                    lemma_items_error_prefix(items@, i as int + 1, check);
                }
                return Err(e);
            },
        }
        i = i + 1;
    }
    assert(items@.take(i as int) =~= items@);
    Ok(out)
}

/// The error, if any, of decoding `v` as the data of a text edition.
pub open spec fn quran_data_error(v: JsonValue) -> Option<DecodeError> {
    or_else(object_error(v),
    or_else(list_error(v, Field::Surahs, surah_error_check()),
    nested_error(v, Field::Edition, quran_edition_error_check())))
}

/// Whether `x` holds the members of `v` that the data of a text edition reads.
pub open spec fn is_quran_data(x: QuranData, v: JsonValue) -> bool {
    &&& list_matches(x.surahs@, v, Field::Surahs, is_surah_rel())
    &&& member(v, field_name(Field::Edition)) is Some && is_quran_edition(x.edition, member(v, field_name(Field::Edition))->0)
}

/// Decodes the data of a text edition from `v`.
pub fn decode_quran_data(v: &JsonValue) -> (r: Result<QuranData, DecodeError>)
    ensures
        match r {
            Ok(x) => quran_data_error(*v) is None && is_quran_data(x, *v),
            Err(e) => quran_data_error(*v) == Some(e),
        },
{
    if !is_object(v) {
        return Err(DecodeError::ExpectedObject);
    }
    let surahs = read_surahs(v, Field::Surahs)?;
    let edition = decode_quran_edition(read_member(v, Field::Edition)?)?;
    Ok(QuranData { surahs, edition })
}

pub open spec fn quran_data_error_check() -> spec_fn(JsonValue) -> Option<DecodeError> {
    |x: JsonValue| quran_data_error(x)
}

/// The error, if any, of decoding `v` as the chapters of a text edition.
pub open spec fn quran_text_data_error(v: JsonValue) -> Option<DecodeError> {
    or_else(object_error(v),
    list_error(v, Field::Surahs, surah_error_check()))
}

/// Whether `x` holds the members of `v` that the chapters of a text edition reads.
pub open spec fn is_quran_text_data(x: QuranTextData, v: JsonValue) -> bool {
    &&& list_matches(x.surahs@, v, Field::Surahs, is_surah_rel())
}

/// Decodes the chapters of a text edition from `v`.
pub fn decode_quran_text_data(v: &JsonValue) -> (r: Result<QuranTextData, DecodeError>)
    ensures
        match r {
            Ok(x) => quran_text_data_error(*v) is None && is_quran_text_data(x, *v),
            Err(e) => quran_text_data_error(*v) == Some(e),
        },
{
    if !is_object(v) {
        return Err(DecodeError::ExpectedObject);
    }
    let surahs = read_surahs(v, Field::Surahs)?;
    Ok(QuranTextData { surahs })
}

/// The error, if any, of decoding `v` as the data of an audio edition.
pub open spec fn quran_audio_data_error(v: JsonValue) -> Option<DecodeError> {
    or_else(object_error(v),
    or_else(list_error(v, Field::Surahs, audio_surah_error_check()),
    nested_error(v, Field::Edition, quran_edition_error_check())))
}

/// Whether `x` holds the members of `v` that the data of an audio edition reads.
pub open spec fn is_quran_audio_data(x: QuranAudioData, v: JsonValue) -> bool {
    &&& list_matches(x.surahs@, v, Field::Surahs, is_audio_surah_rel())
    &&& member(v, field_name(Field::Edition)) is Some && is_quran_edition(x.edition, member(v, field_name(Field::Edition))->0)
}

/// Decodes the data of an audio edition from `v`.
pub fn decode_quran_audio_data(v: &JsonValue) -> (r: Result<QuranAudioData, DecodeError>)
    ensures
        match r {
            Ok(x) => quran_audio_data_error(*v) is None && is_quran_audio_data(x, *v),
            Err(e) => quran_audio_data_error(*v) == Some(e),
        },
{
    if !is_object(v) {
        return Err(DecodeError::ExpectedObject);
    }
    let surahs = read_audio_surahs(v, Field::Surahs)?;
    let edition = decode_quran_edition(read_member(v, Field::Edition)?)?;
    Ok(QuranAudioData { surahs, edition })
}

pub open spec fn quran_audio_data_error_check() -> spec_fn(JsonValue) -> Option<DecodeError> {
    |x: JsonValue| quran_audio_data_error(x)
}

/// The error, if any, of decoding `v` as a list of editions.
pub open spec fn editions_response_error(v: JsonValue) -> Option<DecodeError> {
    or_else(object_error(v),
    or_else(err_of(u32_field(v, Field::Code)),
    or_else(err_of(text_field(v, Field::Status)),
    list_error(v, Field::Data, edition_error_check()))))
}

/// Whether `x` holds the members of `v` that a list of editions reads.
pub open spec fn is_editions_response(x: EditionsResponse, v: JsonValue) -> bool {
    &&& Ok::<u32, DecodeError>(x.code) == u32_field(v, Field::Code)
    &&& Ok::<String, DecodeError>(x.status) == text_field(v, Field::Status)
    &&& list_matches(x.data@, v, Field::Data, is_edition_rel())
}

/// Decodes a list of editions from `v`.
pub fn decode_editions_response(v: &JsonValue) -> (r: Result<EditionsResponse, DecodeError>)
    ensures
        match r {
            Ok(x) => editions_response_error(*v) is None && is_editions_response(x, *v),
            Err(e) => editions_response_error(*v) == Some(e),
        },
{
    if !is_object(v) {
        return Err(DecodeError::ExpectedObject);
    }
    let code = read_u32(v, Field::Code)?;
    let status = read_text(v, Field::Status)?;
    let data = read_editions(v, Field::Data)?;
    Ok(EditionsResponse { code, status, data })
}

/// The error, if any, of decoding `v` as the list of languages.
pub open spec fn languages_response_error(v: JsonValue) -> Option<DecodeError> {
    or_else(object_error(v),
    or_else(err_of(u32_field(v, Field::Code)),
    or_else(err_of(text_field(v, Field::Status)),
    list_error(v, Field::Data, text_check(Field::Data)))))
}

/// Whether `x` holds the members of `v` that the list of languages reads.
pub open spec fn is_languages_response(x: LanguagesResponse, v: JsonValue) -> bool {
    &&& Ok::<u32, DecodeError>(x.code) == u32_field(v, Field::Code)
    &&& Ok::<String, DecodeError>(x.status) == text_field(v, Field::Status)
    &&& list_matches(x.data@, v, Field::Data, text_rel())
}

/// Decodes the list of languages from `v`.
pub fn decode_languages_response(v: &JsonValue) -> (r: Result<LanguagesResponse, DecodeError>)
    ensures
        match r {
            Ok(x) => languages_response_error(*v) is None && is_languages_response(x, *v),
            Err(e) => languages_response_error(*v) == Some(e),
        },
{
    if !is_object(v) {
        return Err(DecodeError::ExpectedObject);
    }
    let code = read_u32(v, Field::Code)?;
    let status = read_text(v, Field::Status)?;
    let data = read_text_list(v, Field::Data)?;
    Ok(LanguagesResponse { code, status, data })
}

/// The error, if any, of decoding `v` as the list of edition types.
pub open spec fn edition_types_response_error(v: JsonValue) -> Option<DecodeError> {
    or_else(object_error(v),
    or_else(err_of(u32_field(v, Field::Code)),
    or_else(err_of(text_field(v, Field::Status)),
    list_error(v, Field::Data, text_check(Field::Data)))))
}

/// Whether `x` holds the members of `v` that the list of edition types reads.
pub open spec fn is_edition_types_response(x: EditionTypesResponse, v: JsonValue) -> bool {
    &&& Ok::<u32, DecodeError>(x.code) == u32_field(v, Field::Code)
    &&& Ok::<String, DecodeError>(x.status) == text_field(v, Field::Status)
    &&& list_matches(x.data@, v, Field::Data, text_rel())
}

/// Decodes the list of edition types from `v`.
pub fn decode_edition_types_response(v: &JsonValue) -> (r: Result<EditionTypesResponse, DecodeError>)
    ensures
        match r {
            Ok(x) => edition_types_response_error(*v) is None && is_edition_types_response(x, *v),
            Err(e) => edition_types_response_error(*v) == Some(e),
        },
{
    if !is_object(v) {
        return Err(DecodeError::ExpectedObject);
    }
    let code = read_u32(v, Field::Code)?;
    let status = read_text(v, Field::Status)?;
    let data = read_text_list(v, Field::Data)?;
    Ok(EditionTypesResponse { code, status, data })
}

/// The error, if any, of decoding `v` as the list of formats.
pub open spec fn formats_response_error(v: JsonValue) -> Option<DecodeError> {
    or_else(object_error(v),
    or_else(err_of(u32_field(v, Field::Code)),
    or_else(err_of(text_field(v, Field::Status)),
    list_error(v, Field::Data, text_check(Field::Data)))))
}

/// Whether `x` holds the members of `v` that the list of formats reads.
pub open spec fn is_formats_response(x: FormatsResponse, v: JsonValue) -> bool {
    &&& Ok::<u32, DecodeError>(x.code) == u32_field(v, Field::Code)
    &&& Ok::<String, DecodeError>(x.status) == text_field(v, Field::Status)
    &&& list_matches(x.data@, v, Field::Data, text_rel())
}

/// Decodes the list of formats from `v`.
pub fn decode_formats_response(v: &JsonValue) -> (r: Result<FormatsResponse, DecodeError>)
    ensures
        match r {
            Ok(x) => formats_response_error(*v) is None && is_formats_response(x, *v),
            Err(e) => formats_response_error(*v) == Some(e),
        },
{
    if !is_object(v) {
        return Err(DecodeError::ExpectedObject);
    }
    let code = read_u32(v, Field::Code)?;
    let status = read_text(v, Field::Status)?;
    let data = read_text_list(v, Field::Data)?;
    Ok(FormatsResponse { code, status, data })
}

/// The error, if any, of decoding `v` as a complete text edition.
pub open spec fn quran_response_error(v: JsonValue) -> Option<DecodeError> {
    or_else(object_error(v),
    or_else(err_of(u32_field(v, Field::Code)),
    or_else(err_of(text_field(v, Field::Status)),
    nested_error(v, Field::Data, quran_data_error_check()))))
}

/// Whether `x` holds the members of `v` that a complete text edition reads.
pub open spec fn is_quran_response(x: QuranResponse, v: JsonValue) -> bool {
    &&& Ok::<u32, DecodeError>(x.code) == u32_field(v, Field::Code)
    &&& Ok::<String, DecodeError>(x.status) == text_field(v, Field::Status)
    &&& member(v, field_name(Field::Data)) is Some && is_quran_data(x.data, member(v, field_name(Field::Data))->0)
}

/// Decodes a complete text edition from `v`.
pub fn decode_quran_response(v: &JsonValue) -> (r: Result<QuranResponse, DecodeError>)
    ensures
        match r {
            Ok(x) => quran_response_error(*v) is None && is_quran_response(x, *v),
            Err(e) => quran_response_error(*v) == Some(e),
        },
{
    if !is_object(v) {
        return Err(DecodeError::ExpectedObject);
    }
    let code = read_u32(v, Field::Code)?;
    let status = read_text(v, Field::Status)?;
    let data = decode_quran_data(read_member(v, Field::Data)?)?;
    Ok(QuranResponse { code, status, data })
}

/// The error, if any, of decoding `v` as a complete audio edition.
pub open spec fn quran_audio_response_error(v: JsonValue) -> Option<DecodeError> {
    or_else(object_error(v),
    or_else(err_of(u32_field(v, Field::Code)),
    or_else(err_of(text_field(v, Field::Status)),
    nested_error(v, Field::Data, quran_audio_data_error_check()))))
}

/// Whether `x` holds the members of `v` that a complete audio edition reads.
pub open spec fn is_quran_audio_response(x: QuranAudioResponse, v: JsonValue) -> bool {
    &&& Ok::<u32, DecodeError>(x.code) == u32_field(v, Field::Code)
    &&& Ok::<String, DecodeError>(x.status) == text_field(v, Field::Status)
    &&& member(v, field_name(Field::Data)) is Some && is_quran_audio_data(x.data, member(v, field_name(Field::Data))->0)
}

/// Decodes a complete audio edition from `v`.
pub fn decode_quran_audio_response(v: &JsonValue) -> (r: Result<QuranAudioResponse, DecodeError>)
    ensures
        match r {
            Ok(x) => quran_audio_response_error(*v) is None && is_quran_audio_response(x, *v),
            Err(e) => quran_audio_response_error(*v) == Some(e),
        },
{
    if !is_object(v) {
        return Err(DecodeError::ExpectedObject);
    }
    let code = read_u32(v, Field::Code)?;
    let status = read_text(v, Field::Status)?;
    let data = decode_quran_audio_data(read_member(v, Field::Data)?)?;
    Ok(QuranAudioResponse { code, status, data })
}

/// A prostration mark decodes from both wire shapes: a literal boolean gives
/// the flag, an object with the two boolean members gives the detail, and
/// any other kind of value fails.
pub proof fn lemma_sajda_shapes(v: JsonValue)
    ensures
        v matches JsonValue::Bool(b) ==> sajda_of(v) == Ok::<SajdaType, DecodeError>(SajdaType::Bool(b)),
        v is Object && bool_field(v, Field::Recommended) is Ok && bool_field(v, Field::Obligatory) is Ok
            ==> sajda_of(v) == Ok::<SajdaType, DecodeError>(SajdaType::Object(SajdaDetail {
                recommended: bool_field(v, Field::Recommended)->Ok_0,
                obligatory: bool_field(v, Field::Obligatory)->Ok_0,
            })),
        !(v is Bool) && !(v is Object) ==> sajda_of(v) == Err::<SajdaType, DecodeError>(DecodeError::InvalidType(Field::Sajda)),
{
}

} // verus!
