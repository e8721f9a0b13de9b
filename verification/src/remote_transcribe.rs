//! Remote (OpenAI-compatible) batch transcription: the request the client
//! POSTs to `/v1/audio/transcriptions`, and the errors it reports.

use vstd::prelude::*;
use vstd::utf8::encode_utf8;

use crate::header::{
    header_value_from_str, header_value_ok, invalid_header_value_message, HeaderText,
};
use crate::text::{str_eq, trim_trailing_slashes, trimmed_len};

verus! {

/// Where and how to reach the remote transcription endpoint.
#[derive(Debug, Clone)]
pub struct RemoteTranscribeConfig {
    pub base_url: String,
    pub api_key: String,
    pub model: String,
    pub language: Option<String>,
    /// Optional glossary/known-words prompt passed through if the server honors it.
    pub prompt: Option<String>,
}

/// The batch transcription endpoint for a base URL.
pub open spec fn spec_transcriptions_url(base_url: Seq<char>) -> Seq<char> {
    trim_trailing_slashes(base_url) + "/v1/audio/transcriptions"@
}

/// The batch transcription endpoint: the base URL without its trailing
/// slashes, followed by `/v1/audio/transcriptions`.
pub fn transcriptions_url(base_url: &str) -> (url: String)
    ensures
        url@ == spec_transcriptions_url(base_url@),
{
    let end = trimmed_len(base_url);
    let mut url = base_url.substring_char(0, end).to_owned();
    url.append("/v1/audio/transcriptions");
    url
}

/// The `Authorization` value for an API key.
pub open spec fn bearer(api_key: Seq<char>) -> Seq<char> {
    "Bearer "@ + api_key
}

/// The error for an API key that cannot stand in a header.
pub open spec fn invalid_api_key_message() -> Seq<char> {
    "invalid api key header: "@ + "failed to parse header value"@
}

/// The `Authorization: Bearer <key>` header for the endpoint; none for an
/// empty key, and an error when the key cannot stand in a header value.
pub fn authorization_header(api_key: &str) -> (r: Result<Option<HeaderText>, String>)
    ensures
        api_key@.len() == 0 ==> r matches Ok(None),
        api_key@.len() > 0 ==> (r is Ok <==> header_value_ok(encode_utf8(bearer(api_key@)))),
        api_key@.len() > 0 && r is Ok ==> (r matches Ok(Some(h)) && h.spec_text() == bearer(api_key@)),
        r matches Err(m) ==> m@ == invalid_api_key_message(),
{
    if api_key.is_empty() {
        return Ok(None);
    }
    let mut value = "Bearer ".to_owned();
    value.append(api_key);
    match header_value_from_str(value.as_str()) {
        Ok(v) => Ok(Some(v)),
        Err(e) => {
            let mut msg = "invalid api key header: ".to_owned();
            msg.append(invalid_header_value_message(&e).as_str());
            Err(msg)
        },
    }
}

/// The language hint sent to the endpoint: the configured language, unless
/// it is "auto" (endpoint-side detection) or empty.
pub open spec fn spec_form_language(language: Option<Seq<char>>) -> Option<Seq<char>> {
    match language {
        Some(l) => if l != "auto"@ && l.len() > 0 {
            Some(l)
        } else {
            None
        },
        None => None,
    }
}

/// The prompt sent to the endpoint: the configured prompt, unless empty.
pub open spec fn spec_form_prompt(prompt: Option<Seq<char>>) -> Option<Seq<char>> {
    match prompt {
        Some(p) => if p.len() > 0 {
            Some(p)
        } else {
            None
        },
        None => None,
    }
}

/// An optional string, taken by its characters.
pub open spec fn opt_view(o: Option<String>) -> Option<Seq<char>> {
    match o {
        Some(s) => Some(s@),
        None => None,
    }
}

/// The text fields of the multipart form, in order: the model, then the
/// language hint and the prompt where they are sent. The audio goes in a
/// `file` part of its own (`audio.wav`, `audio/wav`).
pub open spec fn spec_form_fields(cfg: RemoteTranscribeConfig) -> Seq<(Seq<char>, Seq<char>)> {
    seq![("model"@, cfg.model@)] + match spec_form_language(opt_view(cfg.language)) {
        Some(l) => seq![("language"@, l)],
        None => Seq::empty(),
    } + match spec_form_prompt(opt_view(cfg.prompt)) {
        Some(p) => seq![("prompt"@, p)],
        None => Seq::empty(),
    }
}

/// Pairs of strings, taken by their characters.
pub open spec fn pairs_view(v: Seq<(String, String)>) -> Seq<(Seq<char>, Seq<char>)> {
    v.map_values(|p: (String, String)| (p.0@, p.1@))
}

/// Builds the text fields of the multipart form.
pub fn form_fields(cfg: &RemoteTranscribeConfig) -> (fields: Vec<(String, String)>)
    ensures
        pairs_view(fields@) == spec_form_fields(*cfg),
{
    let mut fields: Vec<(String, String)> = Vec::new();
    fields.push(("model".to_owned(), cfg.model.clone()));
    if let Some(lang) = &cfg.language {
        if !str_eq(lang.as_str(), "auto") && !lang.as_str().is_empty() {
            fields.push(("language".to_owned(), lang.clone()));
        }
    }
    if let Some(prompt) = &cfg.prompt {
        if !prompt.as_str().is_empty() {
            fields.push(("prompt".to_owned(), prompt.clone()));
        }
    }
    assert(pairs_view(fields@) =~= spec_form_fields(*cfg));
    fields
}

/// What the form sends: the model first; a `language` field exactly when
/// a language other than "auto" is configured, with that language; a
/// `prompt` field exactly when a non-empty prompt is configured, with that
/// prompt, whatever the language; and no other field.
pub proof fn lemma_form_fields_sent(cfg: RemoteTranscribeConfig, v: Seq<char>)
    ensures
        spec_form_fields(cfg)[0] == ("model"@, cfg.model@),
        spec_form_fields(cfg).contains(("language"@, v)) <==> (opt_view(cfg.language) == Some(v)
            && v.len() > 0 && v != "auto"@),
        spec_form_fields(cfg).contains(("prompt"@, v)) <==> (opt_view(cfg.prompt) == Some(v)
            && v.len() > 0),
        forall|i: int|
            0 <= i < spec_form_fields(cfg).len() ==> {
                let name = (#[trigger] spec_form_fields(cfg)[i]).0;
                name == "model"@ || name == "language"@ || name == "prompt"@
            },
{
    reveal_strlit("model");
    reveal_strlit("language");
    reveal_strlit("prompt");
    let f = spec_form_fields(cfg);
    let lang: Seq<(Seq<char>, Seq<char>)> = match spec_form_language(opt_view(cfg.language)) {
        Some(l) => seq![("language"@, l)],
        None => Seq::empty(),
    };
    let prompt: Seq<(Seq<char>, Seq<char>)> = match spec_form_prompt(opt_view(cfg.prompt)) {
        Some(p) => seq![("prompt"@, p)],
        None => Seq::empty(),
    };
    let model = seq![("model"@, cfg.model@)];
    assert(f =~= model + lang + prompt);
    assert("model"@.len() != "language"@.len() && "model"@.len() != "prompt"@.len()
        && "language"@.len() != "prompt"@.len());
    if f.contains(("language"@, v)) {
        let i = choose|i: int| 0 <= i < f.len() && f[i] == ("language"@, v);
        assert(i != 0);
        if lang.len() == 0 || i != 1 {
            assert(f[i] == prompt[i - 1 - lang.len()]);
        }
    }
    if opt_view(cfg.language) == Some(v) && v.len() > 0 && v != "auto"@ {
        assert(f[1] == ("language"@, v));
    }
    if f.contains(("prompt"@, v)) {
        let i = choose|i: int| 0 <= i < f.len() && f[i] == ("prompt"@, v);
        assert(i != 0);
        if lang.len() == 1 && i == 1 {
            assert(f[1] == lang[0]);
        }
        assert(f[i] == prompt[i - 1 - lang.len()]);
    }
    if opt_view(cfg.prompt) == Some(v) && v.len() > 0 {
        assert(f[f.len() - 1] == ("prompt"@, v));
    }
    assert forall|i: int| 0 <= i < f.len() implies {
        let name = (#[trigger] f[i]).0;
        name == "model"@ || name == "language"@ || name == "prompt"@
    } by {
        if i > 0 {
            if i - 1 < lang.len() {
                assert(f[i] == lang[i - 1]);
            } else {
                assert(f[i] == prompt[i - 1 - lang.len()]);
            }
        }
    }
}

/// How much of an error body the endpoint error keeps, in characters.
pub const ERROR_BODY_CHARS: usize = 300;

/// The error for a response whose status is not a success: the status as
/// rendered, then up to the first 300 characters of the body.
pub open spec fn spec_endpoint_error(status: Seq<char>, body: Seq<char>) -> Seq<char> {
    "endpoint returned "@ + status + ": "@ + if body.len() <= ERROR_BODY_CHARS {
        body
    } else {
        body.subrange(0, ERROR_BODY_CHARS as int)
    }
}

/// Formats the error for a failed response.
pub fn endpoint_error(status: &str, body: &str) -> (m: String)
    ensures
        m@ == spec_endpoint_error(status@, body@),
{
    let n = body.unicode_len();
    let keep = if n <= ERROR_BODY_CHARS {
        n
    } else {
        ERROR_BODY_CHARS
    };
    let mut m = "endpoint returned ".to_owned();
    m.append(status);
    m.append(": ");
    m.append(body.substring_char(0, keep));
    assert(n <= ERROR_BODY_CHARS ==> body@.subrange(0, keep as int) =~= body@);
    m
}

} // verus!
