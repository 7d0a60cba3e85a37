//! Languages and pretrained model variants known to the library.

use vstd::prelude::*;

verus! {

/// A natural language the library can name in a translation request.
///
/// The set is fixed and finite; identity is by value. Not every language
/// here is served by every pretrained model: see [`spec_model_supports`].
#[derive(Clone, Copy, Debug, PartialEq, Eq, Structural)]
pub enum Language {
    English,
    Spanish,
    French,
    German,
    Italian,
    Portuguese,
    Dutch,
    Polish,
    Russian,
    Ukrainian,
    Arabic,
    Hindi,
    Turkish,
    Japanese,
    Korean,
    ChineseMandarin,
    Esperanto,
    Basque,
}

/// One pretrained many-to-many model variant; it determines which
/// resources exist and which languages are served.
#[derive(Clone, Copy, Debug, PartialEq, Eq, Structural)]
pub enum PretrainedModelId {
    /// The 418M-parameter many-to-many multilingual model.
    M2m100_418m,
    /// The 1.2B-parameter many-to-many multilingual model.
    M2m100_12b,
}

/// Whether `lang` is in the declared source and target sets of `id`.
///
/// Both model variants serve the same hundred languages; of the languages
/// this library names, all but Esperanto and Basque are among them.
pub open spec fn spec_model_supports(id: PretrainedModelId, lang: Language) -> bool {
    !(lang is Esperanto || lang is Basque)
}

/// Decides [`spec_model_supports`] for concrete values.
pub fn model_supports(id: PretrainedModelId, lang: Language) -> (b: bool)
    ensures
        b == spec_model_supports(id, lang),
{
    match lang {
        Language::Esperanto => false,
        Language::Basque => false,
        _ => true,
    }
}

/// The languages `id` declares as both valid sources and valid targets,
/// in the order this library enumerates them.
pub open spec fn spec_supported_languages(id: PretrainedModelId) -> Seq<Language> {
    seq![
        Language::English,
        Language::Spanish,
        Language::French,
        Language::German,
        Language::Italian,
        Language::Portuguese,
        Language::Dutch,
        Language::Polish,
        Language::Russian,
        Language::Ukrainian,
        Language::Arabic,
        Language::Hindi,
        Language::Turkish,
        Language::Japanese,
        Language::Korean,
        Language::ChineseMandarin,
    ]
}

/// Builds the supported-language list of `id`.
pub fn supported_languages(id: PretrainedModelId) -> (v: Vec<Language>)
    ensures
        v@ == spec_supported_languages(id),
        forall|i: int| 0 <= i < v@.len() ==> spec_model_supports(id, #[trigger] v@[i]),
        v@.len() > 0,
{
    let v: Vec<Language> = vec![
        Language::English,
        Language::Spanish,
        Language::French,
        Language::German,
        Language::Italian,
        Language::Portuguese,
        Language::Dutch,
        Language::Polish,
        Language::Russian,
        Language::Ukrainian,
        Language::Arabic,
        Language::Hindi,
        Language::Turkish,
        Language::Japanese,
        Language::Korean,
        Language::ChineseMandarin,
    ];
    proof {
        assert(v@ =~= spec_supported_languages(id));
    }
    v
}

/// Law: the enumerated list is exact — a language stands in
/// [`spec_supported_languages`] precisely when the model serves it.
pub proof fn lemma_supported_languages_exact(id: PretrainedModelId)
    ensures
        forall|l: Language|
            #[trigger] spec_supported_languages(id).contains(l) <==> spec_model_supports(id, l),
{
    let s = spec_supported_languages(id);
    assert forall|l: Language|
        #[trigger] s.contains(l) <==> spec_model_supports(id, l) by {
        if spec_model_supports(id, l) {
            match l {
                Language::English => assert(s[0] == l),
                Language::Spanish => assert(s[1] == l),
                Language::French => assert(s[2] == l),
                Language::German => assert(s[3] == l),
                Language::Italian => assert(s[4] == l),
                Language::Portuguese => assert(s[5] == l),
                Language::Dutch => assert(s[6] == l),
                Language::Polish => assert(s[7] == l),
                Language::Russian => assert(s[8] == l),
                Language::Ukrainian => assert(s[9] == l),
                Language::Arabic => assert(s[10] == l),
                Language::Hindi => assert(s[11] == l),
                Language::Turkish => assert(s[12] == l),
                Language::Japanese => assert(s[13] == l),
                Language::Korean => assert(s[14] == l),
                Language::ChineseMandarin => assert(s[15] == l),
                Language::Esperanto => assert(false),
                Language::Basque => assert(false),
            }
        }
        if s.contains(l) {
            let i = choose|i: int| 0 <= i < s.len() && s[i] == l;
            assert(spec_model_supports(id, s[i]));
        }
    }
}

} // verus!
