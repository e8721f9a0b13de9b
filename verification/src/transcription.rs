//! The transcription manager's rules: which settings reach the remote
//! endpoint, how confidently the language of a result is known, and which
//! optional text clean-up steps run.

use vstd::prelude::*;

use crate::remote_transcribe::{opt_view, RemoteTranscribeConfig};
use crate::text::{join_strings, seq_join, str_eq, strings_view};

verus! {

/// Sample rate the audio pipeline captures and stores (16 kHz mono PCM).
pub const SAMPLE_RATE: u32 = 16_000;

/// The settings the transcription rules read.
#[derive(Debug, Clone)]
pub struct AppSettings {
    pub app_language: String,
    /// The persisted transcription language ("auto" for detection).
    pub selected_language: String,
    pub custom_words: Vec<String>,
    pub filler_word_removal_enabled: bool,
    pub custom_filler_words: Option<Vec<String>>,
    pub remote_transcription_enabled: bool,
    pub remote_transcription_base_url: String,
    pub remote_transcription_api_key: String,
    pub remote_transcription_model: String,
}

impl Default for AppSettings {
    fn default() -> (s: Self)
        ensures
            s.app_language@.len() == 0,
            s.selected_language@.len() == 0,
            s.custom_words@.len() == 0,
            s.filler_word_removal_enabled,
            s.custom_filler_words is None,
            !s.remote_transcription_enabled,
            s.remote_transcription_base_url@.len() == 0,
            s.remote_transcription_api_key@.len() == 0,
            s.remote_transcription_model@.len() == 0,
    {
        AppSettings {
            app_language: String::new(),
            selected_language: String::new(),
            custom_words: Vec::new(),
            filler_word_removal_enabled: true,
            custom_filler_words: None,
            remote_transcription_enabled: false,
            remote_transcription_base_url: String::new(),
            remote_transcription_api_key: String::new(),
            remote_transcription_model: String::new(),
        }
    }
}

/// How confidently the language of a transcription's text is known.
#[derive(Debug, Clone, PartialEq, Eq)]
pub enum OutputLanguageEvidence {
    /// The user's persisted language, which the endpoint received.
    UserSelected(String),
    /// A language the endpoint was constrained to, other than the user's.
    ModelConstrained(String),
    /// A language detected from the transcribed text itself.
    TextDetected(String),
    Unknown,
}

/// Evidence with its language taken by its characters.
pub enum EvidenceView {
    UserSelected(Seq<char>),
    ModelConstrained(Seq<char>),
    TextDetected(Seq<char>),
    Unknown,
}

pub open spec fn evidence_view(e: OutputLanguageEvidence) -> EvidenceView {
    match e {
        OutputLanguageEvidence::UserSelected(l) => EvidenceView::UserSelected(l@),
        OutputLanguageEvidence::ModelConstrained(l) => EvidenceView::ModelConstrained(l@),
        OutputLanguageEvidence::TextDetected(l) => EvidenceView::TextDetected(l@),
        OutputLanguageEvidence::Unknown => EvidenceView::Unknown,
    }
}

/// The language hint for the endpoint: the persisted selection, unless it
/// is "auto" (endpoint-side detection) or empty.
pub open spec fn spec_language_hint(selected: Seq<char>) -> Option<Seq<char>> {
    if selected.len() == 0 || selected == "auto"@ {
        None
    } else {
        Some(selected)
    }
}

/// The language hint to pass to the remote endpoint.
pub fn language_hint(settings: &AppSettings) -> (r: Option<String>)
    ensures
        opt_view(r) == spec_language_hint(settings.selected_language@),
{
    let selected = settings.selected_language.as_str();
    if selected.is_empty() || str_eq(selected, "auto") {
        None
    } else {
        Some(selected.to_owned())
    }
}

/// Where the base code of a language tag ends: at the first `-` or `_` from
/// `i` on, or at the end.
pub open spec fn code_end(s: Seq<char>, i: nat) -> nat
    decreases s.len() - i,
{
    if i >= s.len() {
        s.len()
    } else if s[i as int] == '-' || s[i as int] == '_' {
        i
    } else {
        code_end(s, i + 1)
    }
}

/// The base code of a language tag: everything before the first `-` or
/// `_` (`pt-BR` and `pt_BR` give `pt`).
pub open spec fn spec_base_language_code(s: Seq<char>) -> Seq<char> {
    s.subrange(0, code_end(s, 0) as int)
}

/// The base code of a language tag.
pub fn base_language_code(language: &str) -> (r: &str)
    ensures
        r@ == spec_base_language_code(language@),
{
    let n = language.unicode_len();
    let mut i: usize = 0;
    while i < n && language.get_char(i) != '-' && language.get_char(i) != '_'
        invariant
            n == language@.len(),
            i <= n,
            code_end(language@, i as nat) == code_end(language@, 0),
        decreases n - i,
    {
        i += 1;
    }
    language.substring_char(0, i)
}

/// An applied hint counts as evidence when it names a language: it is
/// neither empty nor "auto".
pub open spec fn spec_hint_language(hint: Option<Seq<char>>) -> Option<Seq<char>> {
    match hint {
        Some(l) => if l.len() > 0 && l != "auto"@ {
            Some(l)
        } else {
            None
        },
        None => None,
    }
}

/// Whether the user's persisted language and the applied hint name the same
/// base language (an "auto" selection never does).
pub open spec fn spec_hint_is_users(selected: Seq<char>, language: Seq<char>) -> bool {
    selected != "auto"@ && spec_base_language_code(selected) == spec_base_language_code(language)
}

/// The evidence for a run, by the applied hint: the user's language when the
/// hint is the user's selection (up to the region), the endpoint's
/// constraint when the endpoint needed another concrete language, unknown
/// when no language was applied.
pub open spec fn spec_evidence(selected: Seq<char>, hint: Option<Seq<char>>) -> EvidenceView {
    match spec_hint_language(hint) {
        Some(l) => if spec_hint_is_users(selected, l) {
            EvidenceView::UserSelected(l)
        } else {
            EvidenceView::ModelConstrained(l)
        },
        None => EvidenceView::Unknown,
    }
}

/// An optional `&str`, taken by its characters.
pub open spec fn opt_str_view(o: Option<&str>) -> Option<Seq<char>> {
    match o {
        Some(s) => Some(s@),
        None => None,
    }
}

/// Resolves how confidently the language of a run's text is known. The UI
/// language is deliberately not part of this decision.
pub fn resolve_output_language_evidence(
    settings: &AppSettings,
    applied_language_hint: Option<&str>,
) -> (r: OutputLanguageEvidence)
    ensures
        evidence_view(r) == spec_evidence(settings.selected_language@, opt_str_view(applied_language_hint)),
{
    if let Some(language) = applied_language_hint {
        if !language.is_empty() && !str_eq(language, "auto") {
            let selected = settings.selected_language.as_str();
            if !str_eq(selected, "auto") && str_eq(
                base_language_code(selected),
                base_language_code(language),
            ) {
                return OutputLanguageEvidence::UserSelected(language.to_owned());
            }
            // The endpoint may have required a concrete fallback even though
            // the user's persisted language was auto or unsupported.
            return OutputLanguageEvidence::ModelConstrained(language.to_owned());
        }
    }
    OutputLanguageEvidence::Unknown
}

/// Whether `c` separates a base language code from its region.
pub open spec fn is_code_separator(c: char) -> bool {
    c == '-' || c == '_'
}

proof fn lemma_code_end_bounds(s: Seq<char>, i: nat)
    requires
        i <= s.len(),
    ensures
        i <= code_end(s, i) <= s.len(),
        forall|j: int| i <= j < code_end(s, i) ==> !is_code_separator(#[trigger] s[j]),
        code_end(s, i) < s.len() ==> is_code_separator(s[code_end(s, i) as int]),
    decreases s.len() - i,
{
    if i < s.len() && !is_code_separator(s[i as int]) {
        lemma_code_end_bounds(s, i + 1);
    }
}

proof fn lemma_code_end_without_separator(s: Seq<char>, i: nat)
    requires
        i <= s.len(),
        forall|j: int| 0 <= j < s.len() ==> !is_code_separator(#[trigger] s[j]),
    ensures
        code_end(s, i) == s.len(),
    decreases s.len() - i,
{
    if i < s.len() {
        lemma_code_end_without_separator(s, i + 1);
    }
}

/// The base code is the part of the tag before its first separator: a
/// prefix of the tag with no separator in it, the whole tag when it has
/// none, and its own base code.
pub proof fn lemma_base_language_code(s: Seq<char>)
    ensures
        s.subrange(0, spec_base_language_code(s).len() as int) == spec_base_language_code(s),
        forall|j: int|
            0 <= j < spec_base_language_code(s).len() ==> !is_code_separator(
                #[trigger] spec_base_language_code(s)[j],
            ),
        spec_base_language_code(s).len() < s.len() ==> is_code_separator(
            s[spec_base_language_code(s).len() as int],
        ),
        spec_base_language_code(spec_base_language_code(s)) == spec_base_language_code(s),
{
    lemma_code_end_bounds(s, 0);
    let b = spec_base_language_code(s);
    assert forall|j: int| 0 <= j < b.len() implies !is_code_separator(#[trigger] b[j]) by {
        assert(b[j] == s[j]);
    }
    lemma_code_end_without_separator(b, 0);
    assert(b.subrange(0, b.len() as int) =~= b);
}

proof fn lemma_code_end_at(s: Seq<char>, n: nat, i: nat)
    requires
        i <= n <= s.len(),
        forall|j: int| i <= j < n ==> !is_code_separator(#[trigger] s[j]),
        n == s.len() || is_code_separator(s[n as int]),
    ensures
        code_end(s, i) == n,
    decreases s.len() - i,
{
    if i < n {
        lemma_code_end_at(s, n, i + 1);
    }
}

/// A tag made of a base with no `-` or `_` in it, followed by nothing or
/// by a region that starts with `-` or `_`.
pub open spec fn tag_of(base: Seq<char>, region: Seq<char>) -> bool {
    &&& forall|j: int| 0 <= j < base.len() ==> #[trigger] base[j] != '-' && base[j] != '_'
    &&& region.len() == 0 || region[0] == '-' || region[0] == '_'
}

/// For a selection other than "auto" and an applied hint that names a
/// language, the evidence is the user's language exactly when the two tags
/// share the text before their first `-` or `_` (`pt` with `pt-BR`,
/// `en-US` with `en_GB`), and the endpoint's constraint otherwise.
pub proof fn lemma_evidence_by_base_code(
    sel_base: Seq<char>,
    sel_region: Seq<char>,
    hint_base: Seq<char>,
    hint_region: Seq<char>,
)
    requires
        tag_of(sel_base, sel_region),
        tag_of(hint_base, hint_region),
        sel_base + sel_region != "auto"@,
        hint_base + hint_region != "auto"@,
        (hint_base + hint_region).len() > 0,
    ensures
        spec_evidence(sel_base + sel_region, Some(hint_base + hint_region)) == if sel_base
            == hint_base {
            EvidenceView::UserSelected(hint_base + hint_region)
        } else {
            EvidenceView::ModelConstrained(hint_base + hint_region)
        },
{
    let sel = sel_base + sel_region;
    let hint = hint_base + hint_region;
    assert forall|j: int| 0 <= j < sel_base.len() implies !is_code_separator(#[trigger] sel[j]) by {
        assert(sel[j] == sel_base[j]);
    }
    assert forall|j: int| 0 <= j < hint_base.len() implies !is_code_separator(
        #[trigger] hint[j],
    ) by {
        assert(hint[j] == hint_base[j]);
    }
    if sel_region.len() > 0 {
        assert(sel[sel_base.len() as int] == sel_region[0]);
    }
    if hint_region.len() > 0 {
        assert(hint[hint_base.len() as int] == hint_region[0]);
    }
    lemma_code_end_at(sel, sel_base.len(), 0);
    lemma_code_end_at(hint, hint_base.len(), 0);
    assert(spec_base_language_code(sel) =~= sel_base);
    assert(spec_base_language_code(hint) =~= hint_base);
}

/// The prompt goes out exactly when there are custom words: none without
/// words, the word itself for a single word, and each further word adds
/// ", " and that word at the end.
pub proof fn lemma_custom_words_prompt(words: Seq<Seq<char>>, w: Seq<char>)
    ensures
        spec_custom_words_prompt(words) is None <==> words.len() == 0,
        spec_custom_words_prompt(seq![w]) == Some(w),
        words.len() > 0 ==> spec_custom_words_prompt(words.push(w)) == Some(
            spec_custom_words_prompt(words)->0 + ", "@ + w,
        ),
{
    assert(words.push(w).drop_last() =~= words);
}

/// The hint a run sends to the endpoint always counts as evidence of the
/// user's own language: with the hint that `language_hint` derives, the
/// evidence is the user's selection when it names a language, and unknown
/// when the selection is "auto" or empty.
pub proof fn lemma_own_hint_is_user_selected(selected: Seq<char>)
    ensures
        selected.len() > 0 && selected != "auto"@ ==> spec_evidence(
            selected,
            spec_language_hint(selected),
        ) == EvidenceView::UserSelected(selected),
        selected.len() == 0 || selected == "auto"@ ==> spec_evidence(
            selected,
            spec_language_hint(selected),
        ) == EvidenceView::Unknown,
{
}

/// Only the persisted transcription language counts: two settings that
/// share it get the same language hint for the endpoint and the same
/// evidence for every applied hint, whatever their UI language and every
/// other setting.
pub proof fn lemma_evidence_ignores_other_settings(
    a: AppSettings,
    b: AppSettings,
    hint: Option<Seq<char>>,
)
    requires
        a.selected_language@ == b.selected_language@,
    ensures
        spec_language_hint(a.selected_language@) == spec_language_hint(b.selected_language@),
        spec_evidence(a.selected_language@, hint) == spec_evidence(b.selected_language@, hint),
        spec_evidence(a.selected_language@, spec_language_hint(a.selected_language@))
            == spec_evidence(b.selected_language@, spec_language_hint(b.selected_language@)),
{
}

/// The transcript of a recording with no samples, which is answered at
/// once without asking the endpoint: empty. A recording with samples gets
/// none here and goes to the endpoint.
pub fn empty_audio_transcript(sample_count: usize) -> (r: Option<String>)
    ensures
        r is Some <==> sample_count == 0,
        r matches Some(t) ==> t@.len() == 0,
{
    if sample_count == 0 {
        Some(String::new())
    } else {
        None
    }
}

/// The error when remote transcription is switched off.
pub open spec fn remote_disabled_message() -> Seq<char> {
    "sttts: remote transcription disabled — enable it in Settings → General → Remote Transcription"@
}

/// The prompt for the endpoint: the custom words joined by ", ", if any.
pub open spec fn spec_custom_words_prompt(words: Seq<Seq<char>>) -> Option<Seq<char>> {
    if words.len() == 0 {
        None
    } else {
        Some(seq_join(words, ", "@))
    }
}

/// The endpoint configuration the settings call for, or the error when
/// remote transcription is disabled.
pub fn remote_transcription_config(settings: &AppSettings) -> (r: Result<
    RemoteTranscribeConfig,
    String,
>)
    ensures
        r is Err <==> !settings.remote_transcription_enabled,
        r matches Err(m) ==> m@ == remote_disabled_message(),
        r matches Ok(cfg) ==> {
            &&& cfg.base_url@ == settings.remote_transcription_base_url@
            &&& cfg.api_key@ == settings.remote_transcription_api_key@
            &&& cfg.model@ == settings.remote_transcription_model@
            &&& opt_view(cfg.language) == spec_language_hint(settings.selected_language@)
            &&& opt_view(cfg.prompt) == spec_custom_words_prompt(
                strings_view(settings.custom_words@),
            )
        },
{
    if !settings.remote_transcription_enabled {
        return Err(
            "sttts: remote transcription disabled — enable it in Settings → General → Remote Transcription".to_owned(),
        );
    }
    let prompt = if settings.custom_words.len() == 0 {
        None
    } else {
        Some(join_strings(&settings.custom_words, ", "))
    };
    Ok(RemoteTranscribeConfig {
        base_url: settings.remote_transcription_base_url.clone(),
        api_key: settings.remote_transcription_api_key.clone(),
        model: settings.remote_transcription_model.clone(),
        language: language_hint(settings),
        prompt,
    })
}

/// Whether the fuzzy custom-word correction runs: there are custom words
/// and the model was not already prompted with them.
pub fn corrects_custom_words(settings: &AppSettings, custom_words_already_prompted: bool) -> (r:
    bool)
    ensures
        r == (settings.custom_words@.len() > 0 && !custom_words_already_prompted),
{
    settings.custom_words.len() != 0 && !custom_words_already_prompted
}

/// Whether the text-based language detection is consulted: only as the last
/// resort, when it can change the outcome (built-in, language-gated fillers).
pub fn needs_text_detection(evidence: &OutputLanguageEvidence, settings: &AppSettings) -> (r: bool)
    ensures
        r == (evidence is Unknown && settings.filler_word_removal_enabled
            && settings.custom_filler_words is None),
{
    match evidence {
        OutputLanguageEvidence::Unknown => settings.filler_word_removal_enabled
            && settings.custom_filler_words.is_none(),
        _ => false,
    }
}

/// The evidence a text-based detection yields.
pub fn detected_evidence(detected: Option<String>) -> (r: OutputLanguageEvidence)
    ensures
        evidence_view(r) == match detected {
            Some(l) => EvidenceView::TextDetected(l@),
            None => EvidenceView::Unknown,
        },
{
    match detected {
        Some(language) => OutputLanguageEvidence::TextDetected(language),
        None => OutputLanguageEvidence::Unknown,
    }
}

/// The message of a panic payload: the payload itself when it is a string
/// (`as_str` for a `&str` payload, `as_string` for a `String` one), else
/// "unknown panic".
pub fn panic_payload_message(as_str: Option<&str>, as_string: Option<&String>) -> (m: String)
    ensures
        as_str matches Some(s) ==> m@ == s@,
        as_str is None ==> (as_string matches Some(s) ==> m@ == s@),
        as_str is None && as_string is None ==> m@ == "unknown panic"@,
{
    if let Some(message) = as_str {
        message.to_owned()
    } else if let Some(message) = as_string {
        message.clone()
    } else {
        "unknown panic".to_owned()
    }
}

/// Live transcription snapshot for the overlay during a streaming run.
#[derive(Clone, Debug, PartialEq, Eq)]
pub struct StreamTextEvent {
    pub committed: String,
    pub tentative: String,
}

/// Phase of the streaming overlay card.
#[derive(Clone, Copy, Debug, PartialEq, Eq, Structural)]
pub enum StreamPhase {
    Listening,
    Working,
}

/// Kind of "working" phase, used to localize the spinner label.
#[derive(Clone, Copy, Debug, PartialEq, Eq, Structural)]
pub enum StreamWorkKind {
    Transcribing,
    Polishing,
}

/// Switches the streaming overlay to a working spinner.
#[derive(Clone, Copy, Debug, PartialEq, Eq, Structural)]
pub struct StreamPhaseEvent {
    pub phase: StreamPhase,
    /// Present only when `phase` is `Working`.
    pub kind: Option<StreamWorkKind>,
}

} // verus!
