//! Assembling and validating a decoding configuration.
//!
//! Fixed defaults are applied first, caller overrides second, and every
//! invariant is checked before a configuration is returned. A violated
//! invariant is reported with the field it names; nothing is ever
//! silently clamped. Real-valued hyperparameters are carried in
//! thousandths, so the whole configuration is plain integers.

use vstd::prelude::*;
use crate::device::Device;
use crate::errors::{ConfigField, TranslationError};
use crate::lang::{
    spec_model_supports, spec_supported_languages, model_supports, supported_languages, Language,
    PretrainedModelId,
};
use crate::resources::{bundle_well_formed, spec_bundle_well_formed, ResourceBundle};

verus! {

/// One in the thousandths fixed-point scale of the real-valued fields.
pub const MILLI_ONE: u32 = 1000;

pub const DEFAULT_MIN_LENGTH: u32 = 0;

pub const DEFAULT_MAX_LENGTH: u32 = 512;

pub const DEFAULT_NUM_BEAMS: u32 = 4;

pub const DEFAULT_DO_SAMPLE: bool = false;

pub const DEFAULT_EARLY_STOPPING: bool = true;

pub const DEFAULT_TEMPERATURE_MILLI: u32 = 1000;

pub const DEFAULT_TOP_K: u32 = 50;

pub const DEFAULT_TOP_P_MILLI: u32 = 1000;

pub const DEFAULT_REPETITION_PENALTY_MILLI: u32 = 1000;

pub const DEFAULT_LENGTH_PENALTY_MILLI: i32 = 1000;

pub const DEFAULT_NO_REPEAT_NGRAM_SIZE: u32 = 0;

pub const DEFAULT_NUM_RETURN_SEQUENCES: u32 = 1;

/// An immutable bundle of generation hyperparameters, the language sets
/// a translate call may draw from, and the device decision.
#[derive(Debug)]
pub struct DecodingConfig {
    pub model_id: PretrainedModelId,
    pub min_length: u32,
    pub max_length: u32,
    pub num_beams: u32,
    pub do_sample: bool,
    pub early_stopping: bool,
    /// Sampling temperature in thousandths; positive.
    pub temperature_milli: u32,
    pub top_k: u32,
    /// Nucleus-sampling bound in thousandths; in (0, [`MILLI_ONE`]].
    pub top_p_milli: u32,
    /// Repetition penalty in thousandths; at least [`MILLI_ONE`].
    pub repetition_penalty_milli: u32,
    /// Length penalty in thousandths; unconstrained.
    pub length_penalty_milli: i32,
    pub no_repeat_ngram_size: u32,
    pub num_return_sequences: u32,
    pub source_languages: Vec<Language>,
    pub target_languages: Vec<Language>,
    pub device: Device,
}

/// Caller overrides for any exposed parameter; a `None` keeps the
/// documented default.
pub struct DecodingOverrides {
    pub min_length: Option<u32>,
    pub max_length: Option<u32>,
    pub num_beams: Option<u32>,
    pub do_sample: Option<bool>,
    pub early_stopping: Option<bool>,
    pub temperature_milli: Option<u32>,
    pub top_k: Option<u32>,
    pub top_p_milli: Option<u32>,
    pub repetition_penalty_milli: Option<u32>,
    pub length_penalty_milli: Option<i32>,
    pub no_repeat_ngram_size: Option<u32>,
    pub num_return_sequences: Option<u32>,
    pub source_languages: Option<Vec<Language>>,
    pub target_languages: Option<Vec<Language>>,
}

impl DecodingOverrides {
    /// Overrides nothing: every parameter keeps its default.
    pub fn empty() -> (o: DecodingOverrides)
        ensures
            o.min_length is None,
            o.max_length is None,
            o.num_beams is None,
            o.do_sample is None,
            o.early_stopping is None,
            o.temperature_milli is None,
            o.top_k is None,
            o.top_p_milli is None,
            o.repetition_penalty_milli is None,
            o.length_penalty_milli is None,
            o.no_repeat_ngram_size is None,
            o.num_return_sequences is None,
            o.source_languages is None,
            o.target_languages is None,
    {
        DecodingOverrides {
            min_length: None,
            max_length: None,
            num_beams: None,
            do_sample: None,
            early_stopping: None,
            temperature_milli: None,
            top_k: None,
            top_p_milli: None,
            repetition_penalty_milli: None,
            length_penalty_milli: None,
            no_repeat_ngram_size: None,
            num_return_sequences: None,
            source_languages: None,
            target_languages: None,
        }
    }
}

/// The overridden value where one is given, the default otherwise.
pub open spec fn or_default<T>(o: Option<T>, d: T) -> T {
    match o {
        Some(v) => v,
        None => d,
    }
}

/// The language set a configuration ends up with: the override where one
/// is given, the model's full declared set otherwise.
pub open spec fn spec_lang_seq(o: Option<Vec<Language>>, id: PretrainedModelId) -> Seq<Language> {
    match o {
        Some(v) => v@,
        None => spec_supported_languages(id),
    }
}

/// Whether every language of `langs` is in the declared set of `id`.
pub open spec fn spec_all_supported(id: PretrainedModelId, langs: Seq<Language>) -> bool {
    forall|i: int| 0 <= i < langs.len() ==> spec_model_supports(id, #[trigger] langs[i])
}

/// The first invariant the resolved parameters violate, if any, in the
/// order the fields are checked.
pub open spec fn spec_param_violation(id: PretrainedModelId, o: DecodingOverrides) -> Option<
    ConfigField,
> {
    let min_length = or_default(o.min_length, DEFAULT_MIN_LENGTH);
    let max_length = or_default(o.max_length, DEFAULT_MAX_LENGTH);
    let num_beams = or_default(o.num_beams, DEFAULT_NUM_BEAMS);
    let temperature_milli = or_default(o.temperature_milli, DEFAULT_TEMPERATURE_MILLI);
    let top_p_milli = or_default(o.top_p_milli, DEFAULT_TOP_P_MILLI);
    let repetition_penalty_milli = or_default(
        o.repetition_penalty_milli,
        DEFAULT_REPETITION_PENALTY_MILLI,
    );
    let num_return_sequences = or_default(o.num_return_sequences, DEFAULT_NUM_RETURN_SEQUENCES);
    let src = spec_lang_seq(o.source_languages, id);
    let tgt = spec_lang_seq(o.target_languages, id);
    if max_length < 1 {
        Some(ConfigField::MaxLength)
    } else if min_length > max_length {
        Some(ConfigField::MinLength)
    } else if num_beams < 1 {
        Some(ConfigField::NumBeams)
    } else if temperature_milli < 1 {
        Some(ConfigField::Temperature)
    } else if top_p_milli < 1 || top_p_milli > MILLI_ONE {
        Some(ConfigField::TopP)
    } else if repetition_penalty_milli < MILLI_ONE {
        Some(ConfigField::RepetitionPenalty)
    } else if num_return_sequences < 1 {
        Some(ConfigField::NumReturnSequences)
    } else if !(src.len() > 0 && spec_all_supported(id, src)) {
        Some(ConfigField::SourceLanguages)
    } else if !(tgt.len() > 0 && spec_all_supported(id, tgt)) {
        Some(ConfigField::TargetLanguages)
    } else {
        None
    }
}

/// The invariants of a decoding configuration, stated as one conjunction
/// over the resolved parameters.
pub open spec fn spec_params_satisfy_invariants(
    id: PretrainedModelId,
    o: DecodingOverrides,
) -> bool {
    let min_length = or_default(o.min_length, DEFAULT_MIN_LENGTH);
    let max_length = or_default(o.max_length, DEFAULT_MAX_LENGTH);
    let num_beams = or_default(o.num_beams, DEFAULT_NUM_BEAMS);
    let temperature_milli = or_default(o.temperature_milli, DEFAULT_TEMPERATURE_MILLI);
    let top_p_milli = or_default(o.top_p_milli, DEFAULT_TOP_P_MILLI);
    let repetition_penalty_milli = or_default(
        o.repetition_penalty_milli,
        DEFAULT_REPETITION_PENALTY_MILLI,
    );
    let num_return_sequences = or_default(o.num_return_sequences, DEFAULT_NUM_RETURN_SEQUENCES);
    let src = spec_lang_seq(o.source_languages, id);
    let tgt = spec_lang_seq(o.target_languages, id);
    &&& max_length >= 1
    &&& min_length <= max_length
    &&& num_beams >= 1
    &&& temperature_milli >= 1
    &&& 1 <= top_p_milli <= MILLI_ONE
    &&& repetition_penalty_milli >= MILLI_ONE
    &&& num_return_sequences >= 1
    &&& src.len() > 0 && spec_all_supported(id, src)
    &&& tgt.len() > 0 && spec_all_supported(id, tgt)
}

/// Law: validation is total — the field-by-field check finds no violation
/// exactly when the resolved parameters satisfy every invariant, for
/// every combination of overrides.
pub proof fn lemma_validation_total(id: PretrainedModelId, o: DecodingOverrides)
    ensures
        spec_param_violation(id, o) is None <==> spec_params_satisfy_invariants(id, o),
{
}

/// What `build_decoding_config` rejects: a bundle that does not belong to
/// the model, else the first violated parameter invariant.
pub open spec fn spec_build_error(
    id: PretrainedModelId,
    b: ResourceBundle,
    o: DecodingOverrides,
) -> Option<ConfigField> {
    if !(b.model_id == id && spec_bundle_well_formed(b)) {
        Some(ConfigField::ResourceBundle)
    } else {
        spec_param_violation(id, o)
    }
}

/// The field-wise relation between an accepted configuration and the
/// inputs it was built from.
pub open spec fn spec_config_matches(
    c: DecodingConfig,
    id: PretrainedModelId,
    device: Device,
    o: DecodingOverrides,
) -> bool {
    &&& c.model_id == id
    &&& c.device == device
    &&& c.min_length == or_default(o.min_length, DEFAULT_MIN_LENGTH)
    &&& c.max_length == or_default(o.max_length, DEFAULT_MAX_LENGTH)
    &&& c.num_beams == or_default(o.num_beams, DEFAULT_NUM_BEAMS)
    &&& c.do_sample == or_default(o.do_sample, DEFAULT_DO_SAMPLE)
    &&& c.early_stopping == or_default(o.early_stopping, DEFAULT_EARLY_STOPPING)
    &&& c.temperature_milli == or_default(o.temperature_milli, DEFAULT_TEMPERATURE_MILLI)
    &&& c.top_k == or_default(o.top_k, DEFAULT_TOP_K)
    &&& c.top_p_milli == or_default(o.top_p_milli, DEFAULT_TOP_P_MILLI)
    &&& c.repetition_penalty_milli == or_default(
        o.repetition_penalty_milli,
        DEFAULT_REPETITION_PENALTY_MILLI,
    )
    &&& c.length_penalty_milli == or_default(o.length_penalty_milli, DEFAULT_LENGTH_PENALTY_MILLI)
    &&& c.no_repeat_ngram_size == or_default(
        o.no_repeat_ngram_size,
        DEFAULT_NO_REPEAT_NGRAM_SIZE,
    )
    &&& c.num_return_sequences == or_default(
        o.num_return_sequences,
        DEFAULT_NUM_RETURN_SEQUENCES,
    )
    &&& c.source_languages@ == spec_lang_seq(o.source_languages, id)
    &&& c.target_languages@ == spec_lang_seq(o.target_languages, id)
}

/// Decides [`spec_all_supported`] for a concrete language list.
fn langs_all_supported(id: PretrainedModelId, langs: &Vec<Language>) -> (ok: bool)
    ensures
        ok == spec_all_supported(id, langs@),
{
    let mut i: usize = 0;
    while i < langs.len()
        invariant
            i <= langs@.len(),
            forall|j: int| 0 <= j < i ==> spec_model_supports(id, #[trigger] langs@[j]),
        decreases langs@.len() - i,
    {
        if !model_supports(id, langs[i]) {
            assert(!spec_model_supports(id, langs@[i as int]));
            return false;
        }
        i += 1;
    }
    true
}

/// Applies the documented defaults, then the caller's overrides, and
/// validates every invariant before returning the configuration. A
/// violation is reported with the field it names; nothing is clamped.
pub fn build_decoding_config(
    model_id: PretrainedModelId,
    bundle: &ResourceBundle,
    device: Device,
    overrides: DecodingOverrides,
) -> (r: Result<DecodingConfig, TranslationError>)
    ensures
        match spec_build_error(model_id, *bundle, overrides) {
            Some(f) => r == Err::<DecodingConfig, TranslationError>(
                TranslationError::InvalidConfig(f),
            ),
            None => r matches Ok(c) && spec_config_matches(c, model_id, device, overrides),
        },
{
    if !(bundle.model_id == model_id && bundle_well_formed(bundle)) {
        return Err(TranslationError::InvalidConfig(ConfigField::ResourceBundle));
    }
    let DecodingOverrides {
        min_length,
        max_length,
        num_beams,
        do_sample,
        early_stopping,
        temperature_milli,
        top_k,
        top_p_milli,
        repetition_penalty_milli,
        length_penalty_milli,
        no_repeat_ngram_size,
        num_return_sequences,
        source_languages,
        target_languages,
    } = overrides;
    let min_length: u32 = match min_length {
        Some(v) => v,
        None => DEFAULT_MIN_LENGTH,
    };
    let max_length: u32 = match max_length {
        Some(v) => v,
        None => DEFAULT_MAX_LENGTH,
    };
    let num_beams: u32 = match num_beams {
        Some(v) => v,
        None => DEFAULT_NUM_BEAMS,
    };
    let do_sample: bool = match do_sample {
        Some(v) => v,
        None => DEFAULT_DO_SAMPLE,
    };
    let early_stopping: bool = match early_stopping {
        Some(v) => v,
        None => DEFAULT_EARLY_STOPPING,
    };
    let temperature_milli: u32 = match temperature_milli {
        Some(v) => v,
        None => DEFAULT_TEMPERATURE_MILLI,
    };
    let top_k: u32 = match top_k {
        Some(v) => v,
        None => DEFAULT_TOP_K,
    };
    let top_p_milli: u32 = match top_p_milli {
        Some(v) => v,
        None => DEFAULT_TOP_P_MILLI,
    };
    let repetition_penalty_milli: u32 = match repetition_penalty_milli {
        Some(v) => v,
        None => DEFAULT_REPETITION_PENALTY_MILLI,
    };
    let length_penalty_milli: i32 = match length_penalty_milli {
        Some(v) => v,
        None => DEFAULT_LENGTH_PENALTY_MILLI,
    };
    let no_repeat_ngram_size: u32 = match no_repeat_ngram_size {
        Some(v) => v,
        None => DEFAULT_NO_REPEAT_NGRAM_SIZE,
    };
    let num_return_sequences: u32 = match num_return_sequences {
        Some(v) => v,
        None => DEFAULT_NUM_RETURN_SEQUENCES,
    };
    let source_languages: Vec<Language> = match source_languages {
        Some(v) => v,
        None => supported_languages(model_id),
    };
    let target_languages: Vec<Language> = match target_languages {
        Some(v) => v,
        None => supported_languages(model_id),
    };
    if max_length < 1 {
        return Err(TranslationError::InvalidConfig(ConfigField::MaxLength));
    }
    if min_length > max_length {
        return Err(TranslationError::InvalidConfig(ConfigField::MinLength));
    }
    if num_beams < 1 {
        return Err(TranslationError::InvalidConfig(ConfigField::NumBeams));
    }
    if temperature_milli < 1 {
        return Err(TranslationError::InvalidConfig(ConfigField::Temperature));
    }
    if top_p_milli < 1 || top_p_milli > MILLI_ONE {
        return Err(TranslationError::InvalidConfig(ConfigField::TopP));
    }
    if repetition_penalty_milli < MILLI_ONE {
        return Err(TranslationError::InvalidConfig(ConfigField::RepetitionPenalty));
    }
    if num_return_sequences < 1 {
        return Err(TranslationError::InvalidConfig(ConfigField::NumReturnSequences));
    }
    if !(source_languages.len() > 0 && langs_all_supported(model_id, &source_languages)) {
        return Err(TranslationError::InvalidConfig(ConfigField::SourceLanguages));
    }
    if !(target_languages.len() > 0 && langs_all_supported(model_id, &target_languages)) {
        return Err(TranslationError::InvalidConfig(ConfigField::TargetLanguages));
    }
    Ok(
        DecodingConfig {
            model_id,
            min_length,
            max_length,
            num_beams,
            do_sample,
            early_stopping,
            temperature_milli,
            top_k,
            top_p_milli,
            repetition_penalty_milli,
            length_penalty_milli,
            no_repeat_ngram_size,
            num_return_sequences,
            source_languages,
            target_languages,
            device,
        },
    )
}

} // verus!
