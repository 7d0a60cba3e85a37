//! The translation engine lifecycle.
//!
//! An engine owns one decoding configuration and moves through
//! `Ready → (translating → Ready)* → Disposed`. The expensive outside
//! steps — fetching resources, binding the model, running inference —
//! are the caller's; the engine decides, before any of them, whether a
//! request may proceed, and turns a completed load or inference outcome
//! into the surfaced result. A request that fails its checks never
//! reaches the underlying model.

use vstd::prelude::*;
use crate::config::DecodingConfig;
use crate::errors::TranslationError;
use crate::lang::Language;
use crate::text::{spec_trim, trim_whitespace};
use crate::timing::{elapsed_ms_between, spec_elapsed_ms};

verus! {

/// The lifecycle states an engine can rest in between calls.
#[derive(Clone, Copy, Debug, PartialEq, Eq, Structural)]
pub enum EngineState {
    /// Loaded and able to serve translate calls.
    Ready,
    /// Released; every further call is rejected.
    Disposed,
}

/// A checked request: stateless, independent of every other request.
#[derive(Debug)]
pub struct TranslationRequest {
    pub source: Language,
    pub target: Language,
    pub text: String,
}

/// The surfaced outcome of one translate call.
#[derive(Debug)]
pub struct TranslationResult {
    /// The first candidate sequence, trimmed of surrounding whitespace.
    pub text: String,
    /// Wall-clock milliseconds the instrumented call took.
    pub elapsed_ms: u64,
}

/// One loaded model's decision core: the configuration it was built from
/// and its lifecycle state.
pub struct TranslationEngine {
    pub config: DecodingConfig,
    pub state: EngineState,
}

/// Why a translate call must be rejected before the model is invoked,
/// if it must be: a disposed engine first, then an empty text, then a
/// language pair outside the configured sets.
pub open spec fn spec_request_error(
    e: TranslationEngine,
    source: Language,
    target: Language,
    text: Seq<char>,
) -> Option<TranslationError> {
    if e.state is Disposed {
        Some(TranslationError::EngineDisposed)
    } else if text.len() == 0 {
        Some(TranslationError::EmptyInput)
    } else if !(e.config.source_languages@.contains(source)
        && e.config.target_languages@.contains(target)) {
        Some(TranslationError::UnsupportedLanguagePair(source, target))
    } else {
        None
    }
}

/// Whether `lang` occurs in `langs`.
fn lang_listed(langs: &Vec<Language>, lang: Language) -> (found: bool)
    ensures
        found == langs@.contains(lang),
{
    let mut i: usize = 0;
    while i < langs.len()
        invariant
            i <= langs@.len(),
            forall|j: int| 0 <= j < i ==> langs@[j] != lang,
        decreases langs@.len() - i,
    {
        if langs[i] == lang {
            assert(langs@[i as int] == lang);
            return true;
        }
        i += 1;
    }
    false
}

impl TranslationEngine {
    /// Turns a finished load step into an engine. A successful outcome
    /// yields a ready engine bound to `config` together with the load's
    /// elapsed milliseconds; a failed fetch, parse or device binding is
    /// surfaced as a load error and no engine exists to retry on.
    pub fn finish_load(
        config: DecodingConfig,
        load_outcome: Result<(), String>,
        start_ms: u64,
        end_ms: u64,
    ) -> (r: Result<(TranslationEngine, u64), TranslationError>)
        ensures
            load_outcome matches Ok(()) ==> (r matches Ok(p) && p.0.config == config && p.0.state
                is Ready && p.1 == spec_elapsed_ms(start_ms, end_ms)),
            load_outcome matches Err(cause) ==> r == Err::<(TranslationEngine, u64),
            TranslationError>(TranslationError::ModelLoad(cause)),
    {
        match load_outcome {
            Ok(()) => {
                let engine = TranslationEngine { config, state: EngineState::Ready };
                let elapsed = elapsed_ms_between(start_ms, end_ms);
                Ok((engine, elapsed))
            },
            Err(cause) => Err(TranslationError::ModelLoad(cause)),
        }
    }

    /// Checks a translate call before the model may be invoked. The call
    /// proceeds exactly when the engine is ready, the text is non-empty
    /// and the pair is drawn from the configured sets; otherwise the
    /// specific rejection is returned and nothing else happens.
    pub fn begin_translate(&self, source: Language, target: Language, text: &str) -> (r: Result<
        TranslationRequest,
        TranslationError,
    >)
        ensures
            match spec_request_error(*self, source, target, text@) {
                Some(err) => r == Err::<TranslationRequest, TranslationError>(err),
                None => r matches Ok(req) && req.source == source && req.target == target
                    && req.text@ == text@,
            },
    {
        if self.state == EngineState::Disposed {
            return Err(TranslationError::EngineDisposed);
        }
        if text.is_empty() {
            return Err(TranslationError::EmptyInput);
        }
        if !(lang_listed(&self.config.source_languages, source) && lang_listed(
            &self.config.target_languages,
            target,
        )) {
            return Err(TranslationError::UnsupportedLanguagePair(source, target));
        }
        Ok(TranslationRequest { source, target, text: text.to_owned() })
    }

    /// Turns the model's outcome for one checked request into the
    /// surfaced result: the first candidate sequence, trimmed, together
    /// with the call's elapsed milliseconds. An inference failure — the
    /// model's own error, or no candidate at all — aborts only this call
    /// and the engine stays ready.
    pub fn complete_translate(
        &self,
        outcome: Result<Vec<String>, String>,
        start_ms: u64,
        end_ms: u64,
    ) -> (r: Result<TranslationResult, TranslationError>)
        requires
            self.state is Ready,
        ensures
            outcome matches Ok(outs) ==> ((outs@.len() > 0 ==> (r matches Ok(res) && res.text@
                == spec_trim(outs@[0]@) && res.elapsed_ms == spec_elapsed_ms(start_ms, end_ms)))
                && (outs@.len() == 0 ==> (r matches Err(e) && e matches
            TranslationError::Inference(m) && m@ == "no candidate sequence returned"@))),
            outcome matches Err(cause) ==> r == Err::<TranslationResult, TranslationError>(
                TranslationError::Inference(cause),
            ),
    {
        match outcome {
            Ok(outs) => {
                if outs.len() == 0 {
                    return Err(
                        TranslationError::Inference("no candidate sequence returned".to_owned()),
                    );
                }
                let text = trim_whitespace(outs[0].as_str());
                let elapsed_ms = elapsed_ms_between(start_ms, end_ms);
                Ok(TranslationResult { text, elapsed_ms })
            },
            Err(cause) => Err(TranslationError::Inference(cause)),
        }
    }

    /// Releases the engine. From then on every call is rejected; the
    /// bound configuration is kept for inspection. Disposing twice is
    /// harmless.
    pub fn dispose(&mut self)
        ensures
            final(self).state is Disposed,
            final(self).config == old(self).config,
    {
        self.state = EngineState::Disposed;
    }
}

/// Law: a disposed engine rejects every call, whatever its arguments,
/// with the use-after-dispose error and nothing else.
pub proof fn lemma_disposed_rejects_every_call(
    e: TranslationEngine,
    source: Language,
    target: Language,
    text: Seq<char>,
)
    requires
        e.state is Disposed,
    ensures
        spec_request_error(e, source, target, text) == Some(TranslationError::EngineDisposed),
{
}

/// Law: a pair outside the configured sets is always rejected as
/// unsupported — the underlying model is never reached for it.
pub proof fn lemma_unsupported_pair_rejected(
    e: TranslationEngine,
    source: Language,
    target: Language,
    text: Seq<char>,
)
    requires
        e.state is Ready,
        text.len() > 0,
        !(e.config.source_languages@.contains(source) && e.config.target_languages@.contains(
            target,
        )),
    ensures
        spec_request_error(e, source, target, text) == Some(
            TranslationError::UnsupportedLanguagePair(source, target),
        ),
{
}

/// Law: the decision layer is deterministic — two engines in the same
/// state with the same configured language sets decide identical
/// requests identically. (Determinism of the model's own output under
/// disabled sampling is the inference library's promise; the engine adds
/// no nondeterminism of its own around one outcome.)
pub proof fn lemma_request_decision_deterministic(
    e1: TranslationEngine,
    e2: TranslationEngine,
    source: Language,
    target: Language,
    text1: Seq<char>,
    text2: Seq<char>,
)
    requires
        e1.state == e2.state,
        e1.config.source_languages@ == e2.config.source_languages@,
        e1.config.target_languages@ == e2.config.target_languages@,
        text1 == text2,
    ensures
        spec_request_error(e1, source, target, text1) == spec_request_error(
            e2,
            source,
            target,
            text2,
        ),
{
}

} // verus!
