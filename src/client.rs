//! The client: the endpoint of each operation, and what its reply means.
use vstd::prelude::*;
use vstd::string::StringExecFns;
use crate::decode::{
    DecodeError, Field, field_name, edition_types_response_error, editions_response_error, formats_response_error,
    is_edition_types_response, is_editions_response, is_formats_response,
    is_languages_response, is_quran_audio_response, is_quran_response,
    languages_response_error, quran_audio_response_error, quran_response_error,
    decode_edition_types_response, decode_editions_response, decode_formats_response,
    decode_languages_response, decode_quran_audio_response, decode_quran_response,
};
use crate::error::{QuranApiError, TransportError};
use crate::json::{JsonValue, member};
use crate::models::{
    EditionType, EditionTypesResponse, EditionsResponse, Format, FormatsResponse, Language,
    LanguagesResponse, QuranAudioResponse, QuranResponse, edition_type_token, format_token,
    language_token,
};

verus! {

#[verifier::external_type_specification]
#[verifier::external_body]
pub struct ExClient(reqwest::Client);

/// What `str::to_lowercase` makes of a string.
pub uninterp spec fn lower_of(s: Seq<char>) -> Seq<char>;

/// Relies on `str::to_lowercase`: the lowercase form of `s`, a function of
/// its characters alone.
#[verifier::external_body]
fn lowercase(s: &str) -> (r: String)
    ensures
        r@ == lower_of(s@),
{
    s.to_lowercase()
}

/// Relies on `reqwest::ClientBuilder::build` on a default builder: a
/// connection-pooling HTTP client, or `None` where the TLS backend or the
/// resolver cannot be set up.
#[verifier::external_body]
fn new_transport() -> Option<reqwest::Client> {
    reqwest::Client::builder().build().ok()
}

/// A client bound to one service root, with one transport shared by all
/// its requests.
#[derive(Clone)]
pub struct QuranApiClient {
    pub base_url: String,
    pub client: std::sync::Arc<reqwest::Client>,
}

/// The address of `endpoint` under the root `base`.
pub open spec fn url_of(base: Seq<char>, endpoint: Seq<char>) -> Seq<char> {
    base + "/"@ + endpoint
}

/// The query value of an edition type: its token in lowercase.
pub open spec fn edition_type_value(t: EditionType) -> Seq<char> {
    match t {
        EditionType::Other(s) => lower_of(s@),
        _ => edition_type_token(t),
    }
}

/// The `key=value` filters that are present, in the order format, language, type.
pub open spec fn filter_params(
    format: Option<Format>,
    language: Option<Language>,
    edition_type: Option<EditionType>,
) -> Seq<Seq<char>> {
    let f = match format {
        Some(x) => seq!["format="@ + format_token(x)],
        None => Seq::empty(),
    };
    let l = match language {
        Some(x) => seq!["language="@ + language_token(x)],
        None => Seq::empty(),
    };
    let t = match edition_type {
        Some(x) => seq!["type="@ + edition_type_value(x)],
        None => Seq::empty(),
    };
    f + l + t
}

/// `parts` joined by `sep`.
pub open spec fn join(parts: Seq<Seq<char>>, sep: Seq<char>) -> Seq<char>
    decreases parts.len(),
{
    if parts.len() == 0 {
        Seq::empty()
    } else if parts.len() == 1 {
        parts[0]
    } else {
        join(parts.drop_last(), sep) + sep + parts.last()
    }
}

/// The endpoint of the filtered edition listing: the query is there only
/// where some filter is.
pub open spec fn editions_endpoint(
    format: Option<Format>,
    language: Option<Language>,
    edition_type: Option<EditionType>,
) -> Seq<char> {
    let params = filter_params(format, language, edition_type);
    if params.len() == 0 {
        "edition"@
    } else {
        "edition"@ + "?"@ + join(params, "&"@)
    }
}

fn push_param(params: &mut Vec<String>, key: &str, value: &str)
    ensures
        final(params)@ == old(params)@.push(final(params)@.last()),
        final(params)@.last()@ == key@ + value@,
{
    let mut p = key.to_string();
    p.append(value);
    params.push(p);
}

fn join_params(params: &Vec<String>) -> (r: String)
    ensures
        r@ == join(params@.map_values(|p: String| p@), "&"@),
{
    let ghost parts = params@.map_values(|p: String| p@);
    let mut out = String::new();
    let mut i: usize = 0;
    while i < params.len()
        invariant
            0 <= i <= params@.len(),
            parts == params@.map_values(|p: String| p@),
            out@ == join(parts.take(i as int), "&"@),
        decreases params@.len() - i,
    {
        assert(parts.take(i as int + 1).drop_last() =~= parts.take(i as int));
        if i > 0 {
            out.append("&");
        }
        out.append(params[i].as_str());
        i = i + 1;
    }
    assert(parts.take(i as int) =~= parts);
    out
}

impl QuranApiClient {
    /// A client for the service rooted at `base_url`; it fails where no
    /// transport can be set up on this machine.
    pub fn new(base_url: &str) -> (r: Result<Self, QuranApiError>)
        ensures
            r matches Ok(c) ==> c.base_url@ == base_url@,
            r matches Err(e) ==> e is Other,
    {
        match new_transport() {
            Some(transport) => Ok(QuranApiClient {
                base_url: base_url.to_string(),
                client: std::sync::Arc::new(transport),
            }),
            None => Err(QuranApiError::Other("the HTTP client could not be set up".to_string())),
        }
    }

    /// The address of `endpoint` under this client's root.
    pub fn build_url(&self, endpoint: &str) -> (r: String)
        ensures
            r@ == url_of(self.base_url@, endpoint@),
    {
        let mut url = self.base_url.clone();
        url.append("/");
        url.append(endpoint);
        url
    }

    /// The address that lists the editions, filtered by those of `format`,
    /// `language` and `edition_type` that are given.
    pub fn editions_url(
        &self,
        format: Option<Format>,
        language: Option<Language>,
        edition_type: Option<EditionType>,
    ) -> (r: String)
        ensures
            r@ == url_of(self.base_url@, editions_endpoint(format, language, edition_type)),
    {
        let mut params: Vec<String> = Vec::new();
        if let Some(f) = format {
            push_param(&mut params, "format=", f.to_string().as_str());
        }
        if let Some(l) = language {
            push_param(&mut params, "language=", l.to_string().as_str());
        }
        if let Some(t) = &edition_type {
            let value = match t {
                EditionType::Other(s) => lowercase(s.as_str()),
                _ => t.to_string(),
            };
            push_param(&mut params, "type=", value.as_str());
        }
        proof {
            let expected = filter_params(format, language, edition_type);
            assert(params@.map_values(|p: String| p@) =~= expected);
            assert(params@.len() == expected.len());
        }
        let mut endpoint = "edition".to_string();
        if params.len() > 0 {
            endpoint.append("?");
            endpoint.append(join_params(&params).as_str());
        }
        self.build_url(endpoint.as_str())
    }
    /// The address that lists the language codes.
    pub fn languages_url(&self) -> (r: String)
        ensures
            r@ == url_of(self.base_url@, "edition/language"@),
    {
        self.build_url("edition/language")
    }

    /// The address that lists the editions in `language`.
    pub fn editions_by_language_url(&self, language: Language) -> (r: String)
        ensures
            r@ == url_of(self.base_url@, "edition/language/"@ + language_token(language)),
    {
        let mut endpoint = "edition/language/".to_string();
        endpoint.append(language.to_string().as_str());
        self.build_url(endpoint.as_str())
    }

    /// The address that lists the edition type tokens.
    pub fn edition_types_url(&self) -> (r: String)
        ensures
            r@ == url_of(self.base_url@, "edition/type"@),
    {
        self.build_url("edition/type")
    }

    /// The address that lists the editions of type `edition_type`.
    pub fn editions_by_type_url(&self, edition_type: &EditionType) -> (r: String)
        ensures
            r@ == url_of(self.base_url@, "edition/type/"@ + edition_type_value(*edition_type)),
    {
        let value = match edition_type {
            EditionType::Other(s) => lowercase(s.as_str()),
            _ => edition_type.to_string(),
        };
        let mut endpoint = "edition/type/".to_string();
        endpoint.append(value.as_str());
        self.build_url(endpoint.as_str())
    }

    /// The address that lists the format tokens.
    pub fn formats_url(&self) -> (r: String)
        ensures
            r@ == url_of(self.base_url@, "edition/format"@),
    {
        self.build_url("edition/format")
    }

    /// The address that lists the editions in `format`.
    pub fn editions_by_format_url(&self, format: Format) -> (r: String)
        ensures
            r@ == url_of(self.base_url@, "edition/format/"@ + format_token(format)),
    {
        let mut endpoint = "edition/format/".to_string();
        endpoint.append(format.to_string().as_str());
        self.build_url(endpoint.as_str())
    }

    /// The address of the complete edition `edition`, text or audio alike.
    pub fn quran_url(&self, edition: &str) -> (r: String)
        ensures
            r@ == url_of(self.base_url@, "quran/"@ + edition@),
    {
        let mut endpoint = "quran/".to_string();
        endpoint.append(edition);
        self.build_url(endpoint.as_str())
    }
}


/// What came back from a request that completed: the status, and the body
/// read as JSON, or the parser's message where it is not JSON.
pub struct HttpReply {
    pub status: u16,
    pub body: Result<JsonValue, String>,
}

/// A status that counts as success: 2xx or 3xx.
pub open spec fn is_success_status(status: u16) -> bool {
    200 <= status < 400
}

/// The failure, if any, of an operation whose reply is `reply` and whose
/// body must pass `check`. A failing status is a transport failure, and the
/// body is not looked at; otherwise any fault of the body is a decoding
/// failure.
pub open spec fn reply_error(reply: HttpReply, check: spec_fn(JsonValue) -> Option<DecodeError>) -> Option<QuranApiError> {
    if !is_success_status(reply.status) {
        Some(QuranApiError::Http(TransportError::Status(reply.status)))
    } else {
        match reply.body {
            Err(m) => Some(QuranApiError::Deserialization(DecodeError::Syntax(m))),
            Ok(v) => match check(v) {
                Some(e) => Some(QuranApiError::Deserialization(e)),
                None => None,
            },
        }
    }
}

/// Whether `status` counts as success.
pub fn is_success(status: u16) -> (r: bool)
    ensures
        r == is_success_status(status),
{
    200 <= status && status < 400
}

pub open spec fn editions_response_error_check() -> spec_fn(JsonValue) -> Option<DecodeError> {
    |x: JsonValue| editions_response_error(x)
}

/// The outcome of a request for a list of editions, from its reply.
pub fn editions_reply(reply: HttpReply) -> (r: Result<EditionsResponse, QuranApiError>)
    ensures
        match r {
            Ok(x) => reply_error(reply, editions_response_error_check()) is None && reply.body is Ok
                && is_editions_response(x, reply.body->Ok_0),
            Err(e) => reply_error(reply, editions_response_error_check()) == Some(e),
        },
{
    if !is_success(reply.status) {
        return Err(QuranApiError::Http(TransportError::Status(reply.status)));
    }
    match reply.body {
        Err(m) => Err(QuranApiError::Deserialization(DecodeError::Syntax(m))),
        Ok(v) => match decode_editions_response(&v) {
            Ok(x) => Ok(x),
            Err(e) => Err(QuranApiError::Deserialization(e)),
        },
    }
}

pub open spec fn languages_response_error_check() -> spec_fn(JsonValue) -> Option<DecodeError> {
    |x: JsonValue| languages_response_error(x)
}

/// The outcome of a request for the language codes, from its reply.
pub fn languages_reply(reply: HttpReply) -> (r: Result<LanguagesResponse, QuranApiError>)
    ensures
        match r {
            Ok(x) => reply_error(reply, languages_response_error_check()) is None && reply.body is Ok
                && is_languages_response(x, reply.body->Ok_0),
            Err(e) => reply_error(reply, languages_response_error_check()) == Some(e),
        },
{
    if !is_success(reply.status) {
        return Err(QuranApiError::Http(TransportError::Status(reply.status)));
    }
    match reply.body {
        Err(m) => Err(QuranApiError::Deserialization(DecodeError::Syntax(m))),
        Ok(v) => match decode_languages_response(&v) {
            Ok(x) => Ok(x),
            Err(e) => Err(QuranApiError::Deserialization(e)),
        },
    }
}

pub open spec fn edition_types_response_error_check() -> spec_fn(JsonValue) -> Option<DecodeError> {
    |x: JsonValue| edition_types_response_error(x)
}

/// The outcome of a request for the edition type tokens, from its reply.
pub fn edition_types_reply(reply: HttpReply) -> (r: Result<EditionTypesResponse, QuranApiError>)
    ensures
        match r {
            Ok(x) => reply_error(reply, edition_types_response_error_check()) is None && reply.body is Ok
                && is_edition_types_response(x, reply.body->Ok_0),
            Err(e) => reply_error(reply, edition_types_response_error_check()) == Some(e),
        },
{
    if !is_success(reply.status) {
        return Err(QuranApiError::Http(TransportError::Status(reply.status)));
    }
    match reply.body {
        Err(m) => Err(QuranApiError::Deserialization(DecodeError::Syntax(m))),
        Ok(v) => match decode_edition_types_response(&v) {
            Ok(x) => Ok(x),
            Err(e) => Err(QuranApiError::Deserialization(e)),
        },
    }
}

pub open spec fn formats_response_error_check() -> spec_fn(JsonValue) -> Option<DecodeError> {
    |x: JsonValue| formats_response_error(x)
}

/// The outcome of a request for the format tokens, from its reply.
pub fn formats_reply(reply: HttpReply) -> (r: Result<FormatsResponse, QuranApiError>)
    ensures
        match r {
            Ok(x) => reply_error(reply, formats_response_error_check()) is None && reply.body is Ok
                && is_formats_response(x, reply.body->Ok_0),
            Err(e) => reply_error(reply, formats_response_error_check()) == Some(e),
        },
{
    if !is_success(reply.status) {
        return Err(QuranApiError::Http(TransportError::Status(reply.status)));
    }
    match reply.body {
        Err(m) => Err(QuranApiError::Deserialization(DecodeError::Syntax(m))),
        Ok(v) => match decode_formats_response(&v) {
            Ok(x) => Ok(x),
            Err(e) => Err(QuranApiError::Deserialization(e)),
        },
    }
}

pub open spec fn quran_response_error_check() -> spec_fn(JsonValue) -> Option<DecodeError> {
    |x: JsonValue| quran_response_error(x)
}

/// The outcome of a request for a complete text edition, from its reply.
pub fn quran_text_reply(reply: HttpReply) -> (r: Result<QuranResponse, QuranApiError>)
    ensures
        match r {
            Ok(x) => reply_error(reply, quran_response_error_check()) is None && reply.body is Ok
                && is_quran_response(x, reply.body->Ok_0),
            Err(e) => reply_error(reply, quran_response_error_check()) == Some(e),
        },
{
    if !is_success(reply.status) {
        return Err(QuranApiError::Http(TransportError::Status(reply.status)));
    }
    match reply.body {
        Err(m) => Err(QuranApiError::Deserialization(DecodeError::Syntax(m))),
        Ok(v) => match decode_quran_response(&v) {
            Ok(x) => Ok(x),
            Err(e) => Err(QuranApiError::Deserialization(e)),
        },
    }
}

pub open spec fn quran_audio_response_error_check() -> spec_fn(JsonValue) -> Option<DecodeError> {
    |x: JsonValue| quran_audio_response_error(x)
}

/// The outcome of a request for a complete audio edition, from its reply.
pub fn quran_audio_reply(reply: HttpReply) -> (r: Result<QuranAudioResponse, QuranApiError>)
    ensures
        match r {
            Ok(x) => reply_error(reply, quran_audio_response_error_check()) is None && reply.body is Ok
                && is_quran_audio_response(x, reply.body->Ok_0),
            Err(e) => reply_error(reply, quran_audio_response_error_check()) == Some(e),
        },
{
    if !is_success(reply.status) {
        return Err(QuranApiError::Http(TransportError::Status(reply.status)));
    }
    match reply.body {
        Err(m) => Err(QuranApiError::Deserialization(DecodeError::Syntax(m))),
        Ok(v) => match decode_quran_audio_response(&v) {
            Ok(x) => Ok(x),
            Err(e) => Err(QuranApiError::Deserialization(e)),
        },
    }
}

/// A failing status is a transport failure for every operation, whatever the
/// body holds, and never a decoding one.
pub proof fn lemma_failed_status_is_transport(reply: HttpReply, check: spec_fn(JsonValue) -> Option<DecodeError>)
    requires
        !is_success_status(reply.status),
    ensures
        reply_error(reply, check) == Some(QuranApiError::Http(TransportError::Status(reply.status))),
{
}

/// A successful reply whose body lacks the `data` member is a decoding
/// failure for every operation.
pub proof fn lemma_missing_data_is_decoding(reply: HttpReply)
    requires
        is_success_status(reply.status),
        reply.body is Ok,
        member(reply.body->Ok_0, "data"@) is None,
    ensures
        reply_error(reply, editions_response_error_check()) matches Some(QuranApiError::Deserialization(_)),
        reply_error(reply, languages_response_error_check()) matches Some(QuranApiError::Deserialization(_)),
        reply_error(reply, edition_types_response_error_check()) matches Some(QuranApiError::Deserialization(_)),
        reply_error(reply, formats_response_error_check()) matches Some(QuranApiError::Deserialization(_)),
        reply_error(reply, quran_response_error_check()) matches Some(QuranApiError::Deserialization(_)),
        reply_error(reply, quran_audio_response_error_check()) matches Some(QuranApiError::Deserialization(_)),
{
    assert(field_name(Field::Data) == "data"@);
}

} // verus!
