use quran_api::client::{
    edition_types_reply, editions_reply, formats_reply, is_success, languages_reply,
    quran_audio_reply, quran_text_reply,
};
use quran_api::decode::{decode_ayah, decode_edition, decode_sajda, decode_surah, encode_sajda};
use quran_api::{
    DecodeError, EditionType, Field, Format, HttpReply, JsonValue, Language, QuranApiClient,
    QuranApiError, SajdaDetail, SajdaType, TransportError,
};

fn s(x: &str) -> JsonValue {
    JsonValue::Str(x.to_string())
}

fn n(x: i128) -> JsonValue {
    JsonValue::Integer(x)
}

fn obj(entries: Vec<(&str, JsonValue)>) -> JsonValue {
    JsonValue::Object(entries.into_iter().map(|(k, v)| (k.to_string(), v)).collect())
}

fn edition_json(id: &str, lang: &str, direction: Option<&str>) -> JsonValue {
    let mut entries = vec![
        ("identifier", s(id)),
        ("language", s(lang)),
        ("name", s("Name")),
        ("englishName", s("English")),
        ("format", s("text")),
        ("type", s("translation")),
    ];
    if let Some(d) = direction {
        entries.push(("direction", s(d)));
    }
    obj(entries)
}

fn ayah_json(number: i128, in_surah: i128, text: &str, sajda: JsonValue) -> JsonValue {
    obj(vec![
        ("number", n(number)),
        ("text", s(text)),
        ("numberInSurah", n(in_surah)),
        ("juz", n(1)),
        ("manzil", n(2)),
        ("page", n(3)),
        ("ruku", n(4)),
        ("hizbQuarter", n(5)),
        ("sajda", sajda),
    ])
}

fn surah_json(number: i128, name: &str, ayahs: Vec<JsonValue>) -> JsonValue {
    obj(vec![
        ("number", n(number)),
        ("name", s(name)),
        ("englishName", s("English")),
        ("englishNameTranslation", s("Translation")),
        ("revelationType", s("Meccan")),
        ("ayahs", JsonValue::Array(ayahs)),
    ])
}

fn quran_edition_json() -> JsonValue {
    obj(vec![
        ("identifier", s("en.asad")),
        ("language", s("en")),
        ("name", s("Asad")),
        ("englishName", s("Muhammad Asad")),
        ("format", s("text")),
        ("type", s("translation")),
    ])
}

fn envelope(data: JsonValue) -> JsonValue {
    obj(vec![("code", n(200)), ("status", s("OK")), ("data", data)])
}

fn ok_reply(body: JsonValue) -> HttpReply {
    HttpReply { status: 200, body: Ok(body) }
}

fn text_fixture() -> JsonValue {
    let first: Vec<JsonValue> =
        (1..=3).map(|i| ayah_json(i, i, &format!("verse {}", i), JsonValue::Bool(false))).collect();
    let second: Vec<JsonValue> = (1..=5)
        .map(|i| ayah_json(3 + i, i, &format!("second {}", i), JsonValue::Bool(false)))
        .collect();
    envelope(obj(vec![
        (
            "surahs",
            JsonValue::Array(vec![surah_json(1, "First", first), surah_json(2, "Second", second)]),
        ),
        ("edition", quran_edition_json()),
    ]))
}

#[test]
fn format_round_trips_through_its_token() {
    for f in [Format::Text, Format::Audio] {
        assert_eq!(Format::from_token(&f.to_string()), Some(f));
    }
    assert_eq!(Format::Text.to_string(), "text");
    assert_eq!(Format::Audio.to_string(), "audio");
    assert_eq!(Format::from_token("Text"), None);
}

#[test]
fn language_round_trips_through_its_token() {
    for l in [Language::En, Language::Fr, Language::Ar] {
        assert_eq!(Language::from_token(&l.to_string()), Some(l));
    }
    assert_eq!(Language::Ar.to_string(), "ar");
    assert_eq!(Language::from_token("de"), None);
}

#[test]
fn edition_type_round_trips_through_its_token() {
    let known = [
        (EditionType::VerseByVerse, "versebyverse"),
        (EditionType::Translation, "translation"),
        (EditionType::Tafsir, "tafsir"),
        (EditionType::Quran, "quran"),
        (EditionType::Transliteration, "transliteration"),
    ];
    for (t, token) in known {
        assert_eq!(t.to_string(), token);
        let back = EditionType::from_token(token);
        assert_eq!(format!("{:?}", back), format!("{:?}", t));
    }
    let other = EditionType::Other("Commentary".to_string());
    assert_eq!(other.to_string(), "Commentary");
    match EditionType::from_token("Commentary") {
        EditionType::Other(x) => assert_eq!(x, "Commentary"),
        t => panic!("unexpected {:?}", t),
    }
    assert!(matches!(EditionType::from_token("tafsir"), EditionType::Tafsir));
}

#[test]
fn sajda_decodes_from_both_shapes() {
    assert_eq!(decode_sajda(&JsonValue::Bool(true)).unwrap(), SajdaType::Bool(true));
    assert_eq!(decode_sajda(&JsonValue::Bool(false)).unwrap(), SajdaType::Bool(false));
    let detail = obj(vec![("recommended", JsonValue::Bool(true)), ("obligatory", JsonValue::Bool(false))]);
    assert_eq!(
        decode_sajda(&detail).unwrap(),
        SajdaType::Object(SajdaDetail { recommended: true, obligatory: false })
    );
    assert!(matches!(decode_sajda(&s("yes")), Err(DecodeError::InvalidType(Field::Sajda))));
    let partial = obj(vec![("recommended", JsonValue::Bool(true))]);
    assert!(matches!(decode_sajda(&partial), Err(DecodeError::InvalidType(Field::Sajda))));
}

#[test]
fn editions_list_decodes_field_for_field() {
    let body = envelope(JsonValue::Array(vec![
        edition_json("en.asad", "en", Some("ltr")),
        edition_json("ar.alafasy", "ar", None),
    ]));
    let r = editions_reply(ok_reply(body)).unwrap();
    assert_eq!(r.code, 200);
    assert_eq!(r.status, "OK");
    assert_eq!(r.data.len(), 2);
    assert_eq!(r.data[0].identifier, "en.asad");
    assert_eq!(r.data[0].language, "en");
    assert_eq!(r.data[0].name, "Name");
    assert_eq!(r.data[0].english_name, "English");
    assert_eq!(r.data[0].format, "text");
    assert_eq!(r.data[0].type_, "translation");
    assert_eq!(r.data[0].direction.as_deref(), Some("ltr"));
    assert_eq!(r.data[1].identifier, "ar.alafasy");
    assert_eq!(r.data[1].direction, None);
}

#[test]
fn editions_url_joins_filters_in_order() {
    let c = QuranApiClient::new("http://api.example").unwrap();
    assert_eq!(
        c.editions_url(Some(Format::Audio), Some(Language::Ar), None),
        "http://api.example/edition?format=audio&language=ar"
    );
    assert_eq!(c.editions_url(None, None, None), "http://api.example/edition");
    assert_eq!(
        c.editions_url(None, None, Some(EditionType::Other("VerseByVerse".to_string()))),
        "http://api.example/edition?type=versebyverse"
    );
    assert_eq!(
        c.editions_url(Some(Format::Text), Some(Language::En), Some(EditionType::Tafsir)),
        "http://api.example/edition?format=text&language=en&type=tafsir"
    );
}

#[test]
fn path_endpoints() {
    let c = QuranApiClient::new("http://api.example").unwrap();
    assert_eq!(c.build_url("x/y"), "http://api.example/x/y");
    assert_eq!(c.languages_url(), "http://api.example/edition/language");
    assert_eq!(c.editions_by_language_url(Language::Fr), "http://api.example/edition/language/fr");
    assert_eq!(c.edition_types_url(), "http://api.example/edition/type");
    assert_eq!(
        c.editions_by_type_url(&EditionType::Other("ABC".to_string())),
        "http://api.example/edition/type/abc"
    );
    assert_eq!(c.editions_by_type_url(&EditionType::Quran), "http://api.example/edition/type/quran");
    assert_eq!(c.formats_url(), "http://api.example/edition/format");
    assert_eq!(c.editions_by_format_url(Format::Audio), "http://api.example/edition/format/audio");
    assert_eq!(c.quran_url("en.asad"), "http://api.example/quran/en.asad");
}

fn is_status_error<T>(r: Result<T, QuranApiError>, code: u16) -> bool {
    matches!(r, Err(QuranApiError::Http(TransportError::Status(c))) if c == code)
}

#[test]
fn server_error_is_transport_for_every_operation() {
    let r = || HttpReply { status: 500, body: Ok(envelope(JsonValue::Array(vec![]))) };
    assert!(is_status_error(editions_reply(r()), 500));
    assert!(is_status_error(languages_reply(r()), 500));
    assert!(is_status_error(edition_types_reply(r()), 500));
    assert!(is_status_error(formats_reply(r()), 500));
    assert!(is_status_error(quran_text_reply(r()), 500));
    assert!(is_status_error(quran_audio_reply(r()), 500));
    let bad_body = HttpReply { status: 404, body: Err("not json".to_string()) };
    assert!(is_status_error(editions_reply(bad_body), 404));
    assert!(!is_success(500));
    assert!(is_success(200));
    assert!(is_success(302));
    assert!(!is_success(199));
}

fn is_missing_data<T>(r: Result<T, QuranApiError>) -> bool {
    matches!(r, Err(QuranApiError::Deserialization(DecodeError::MissingField(Field::Data))))
}

#[test]
fn missing_data_is_decoding_for_every_operation() {
    let r = || ok_reply(obj(vec![("code", n(200)), ("status", s("OK"))]));
    assert!(is_missing_data(editions_reply(r())));
    assert!(is_missing_data(languages_reply(r())));
    assert!(is_missing_data(edition_types_reply(r())));
    assert!(is_missing_data(formats_reply(r())));
    assert!(is_missing_data(quran_text_reply(r())));
    assert!(is_missing_data(quran_audio_reply(r())));
}

#[test]
fn quran_text_fixture_decodes_verbatim() {
    let c = QuranApiClient::new("http://api.example").unwrap();
    assert_eq!(c.quran_url("en.asad"), "http://api.example/quran/en.asad");
    let r = quran_text_reply(ok_reply(text_fixture())).unwrap();
    assert_eq!(r.data.surahs.len(), 2);
    assert_eq!(r.data.surahs[0].ayahs.len(), 3);
    assert_eq!(r.data.surahs[1].ayahs.len(), 5);
    let first = &r.data.surahs[0];
    assert_eq!(first.number, 1);
    assert_eq!(first.name, "First");
    assert_eq!(first.english_name, "English");
    assert_eq!(first.english_name_translation, "Translation");
    assert_eq!(first.revelation_type, "Meccan");
    let a = &first.ayahs[2];
    assert_eq!(a.number, 3);
    assert_eq!(a.text, "verse 3");
    assert_eq!(a.numberInSurah, 3);
    assert_eq!((a.juz, a.manzil, a.page, a.ruku, a.hizbQuarter), (1, 2, 3, 4, 5));
    assert_eq!(a.sajda, SajdaType::Bool(false));
    assert_eq!(r.data.surahs[1].ayahs[4].number, 8);
    assert_eq!(r.data.edition.identifier, "en.asad");
    assert_eq!(r.data.edition.english_name, "Muhammad Asad");
}

#[test]
fn string_lists_decode() {
    let body = envelope(JsonValue::Array(vec![s("ar"), s("en")]));
    let r = languages_reply(ok_reply(body)).unwrap();
    assert_eq!(r.data, vec!["ar".to_string(), "en".to_string()]);
    let body = envelope(JsonValue::Array(vec![s("text"), n(3)]));
    assert!(matches!(
        formats_reply(ok_reply(body)),
        Err(QuranApiError::Deserialization(DecodeError::InvalidType(Field::Data)))
    ));
    let body = envelope(JsonValue::Array(vec![s("tafsir")]));
    assert_eq!(edition_types_reply(ok_reply(body)).unwrap().data, vec!["tafsir".to_string()]);
}

#[test]
fn audio_edition_decodes() {
    let ayah = obj(vec![
        ("number", n(1)),
        ("text", s("t")),
        ("numberInSurah", n(1)),
        ("juz", n(1)),
        ("manzil", n(1)),
        ("page", n(1)),
        ("ruku", n(1)),
        ("hizbQuarter", n(1)),
        ("audio", s("a.mp3")),
        ("audioSecondary", JsonValue::Array(vec![s("b.mp3"), s("c.mp3")])),
        ("sajda", obj(vec![("recommended", JsonValue::Bool(false)), ("obligatory", JsonValue::Bool(true))])),
    ]);
    let body = envelope(obj(vec![
        ("surahs", JsonValue::Array(vec![surah_json(1, "S", vec![ayah])])),
        ("edition", quran_edition_json()),
    ]));
    let r = quran_audio_reply(ok_reply(body)).unwrap();
    let a = &r.data.surahs[0].ayahs[0];
    assert_eq!(a.audio, "a.mp3");
    assert_eq!(a.audioSecondary, vec!["b.mp3".to_string(), "c.mp3".to_string()]);
    assert_eq!(a.sajda, SajdaType::Object(SajdaDetail { recommended: false, obligatory: true }));
    assert_eq!(r.data.surahs[0].revelationType, "Meccan");
}

#[test]
fn each_decode_error_kind() {
    let syntax = HttpReply { status: 200, body: Err("expected value".to_string()) };
    assert!(matches!(
        editions_reply(syntax),
        Err(QuranApiError::Deserialization(DecodeError::Syntax(m))) if m == "expected value"
    ));
    assert!(matches!(decode_edition(&s("x")), Err(DecodeError::ExpectedObject)));
    let no_name = obj(vec![("identifier", s("a")), ("language", s("en"))]);
    assert!(matches!(decode_edition(&no_name), Err(DecodeError::MissingField(Field::Name))));
    let bad_direction = obj(vec![
        ("identifier", s("a")),
        ("language", s("en")),
        ("name", s("n")),
        ("englishName", s("e")),
        ("format", s("text")),
        ("type", s("quran")),
        ("direction", n(1)),
    ]);
    assert!(matches!(decode_edition(&bad_direction), Err(DecodeError::InvalidType(Field::Direction))));
    let null_direction = obj(vec![
        ("identifier", s("a")),
        ("language", s("en")),
        ("name", s("n")),
        ("englishName", s("e")),
        ("format", s("text")),
        ("type", s("quran")),
        ("direction", JsonValue::Null),
    ]);
    assert_eq!(decode_edition(&null_direction).unwrap().direction, None);
    let big = ayah_json(1 << 40, 1, "t", JsonValue::Bool(true));
    assert!(matches!(decode_ayah(&big), Err(DecodeError::InvalidType(Field::Number))));
    let negative = ayah_json(-1, 1, "t", JsonValue::Bool(true));
    assert!(matches!(decode_ayah(&negative), Err(DecodeError::InvalidType(Field::Number))));
    let bad_ayah = surah_json(1, "S", vec![ayah_json(1, 1, "t", JsonValue::Bool(true)), s("no")]);
    assert!(matches!(decode_surah(&bad_ayah), Err(DecodeError::ExpectedObject)));
    let not_list = obj(vec![
        ("number", n(1)),
        ("name", s("S")),
        ("englishName", s("E")),
        ("englishNameTranslation", s("T")),
        ("revelationType", s("Meccan")),
        ("ayahs", s("none")),
    ]);
    assert!(matches!(decode_surah(&not_list), Err(DecodeError::InvalidType(Field::Ayahs))));
}

#[test]
fn first_duplicate_member_wins() {
    let v = obj(vec![
        ("recommended", JsonValue::Bool(true)),
        ("obligatory", JsonValue::Bool(true)),
        ("recommended", JsonValue::Bool(false)),
    ]);
    assert_eq!(
        decode_sajda(&v).unwrap(),
        SajdaType::Object(SajdaDetail { recommended: true, obligatory: true })
    );
}

#[test]
fn sajda_re_encodes_in_the_shape_received() {
    let flag = SajdaType::Bool(true);
    let encoded = encode_sajda(&flag);
    assert!(matches!(encoded, JsonValue::Bool(true)));
    assert_eq!(decode_sajda(&encoded).unwrap(), flag);
    let detail = SajdaType::Object(SajdaDetail { recommended: false, obligatory: true });
    let encoded = encode_sajda(&detail);
    match &encoded {
        JsonValue::Object(entries) => {
            assert_eq!(entries.len(), 2);
            assert_eq!(entries[0].0, "recommended");
            assert_eq!(entries[1].0, "obligatory");
        }
        other => panic!("unexpected {:?}", other),
    }
    assert_eq!(decode_sajda(&encoded).unwrap(), detail);
}

#[test]
fn error_descriptions() {
    let e = QuranApiError::Http(TransportError::Status(500));
    assert_eq!(e.to_string(), "HTTP error: status 500");
    assert_eq!(QuranApiError::Http(TransportError::Status(7)).to_string(), "HTTP error: status 7");
    assert_eq!(
        QuranApiError::Http(TransportError::Connection("refused".to_string())).to_string(),
        "HTTP error: refused"
    );
    assert_eq!(
        QuranApiError::Deserialization(DecodeError::MissingField(Field::Data)).to_string(),
        "Deserialization error: missing field data"
    );
    assert_eq!(
        QuranApiError::Deserialization(DecodeError::InvalidType(Field::HizbQuarter)).to_string(),
        "Deserialization error: invalid value in field hizbQuarter"
    );
    assert_eq!(
        QuranApiError::Deserialization(DecodeError::ExpectedObject).to_string(),
        "Deserialization error: expected an object"
    );
    assert_eq!(
        QuranApiError::Deserialization(DecodeError::Syntax("eof".to_string())).to_string(),
        "Deserialization error: invalid JSON: eof"
    );
    assert_eq!(QuranApiError::Other("x".to_string()).to_string(), "Other error: x");
    assert_eq!(QuranApiError::Http(TransportError::Status(65535)).to_string(), "HTTP error: status 65535");
}

#[test]
fn new_client_keeps_its_root() {
    let c = QuranApiClient::new("https://api.example/v1").unwrap();
    assert_eq!(c.base_url, "https://api.example/v1");
}
