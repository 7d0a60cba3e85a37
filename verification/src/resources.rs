//! Resolving a pretrained model identifier to the four resources that
//! constitute the model. Resolution is deterministic and does no fetching
//! or existence checking: it only produces the addresses a downstream
//! loader will fetch and cache.

use vstd::prelude::*;
use crate::errors::TranslationError;
use crate::lang::PretrainedModelId;

verus! {

/// One addressable resource: a cache name and the remote locator it is
/// fetched from.
#[derive(Debug)]
pub struct ResourceRef {
    pub cache_name: String,
    pub url: String,
}

/// The four resources of one pretrained model. All four belong to the
/// same model variant; partial bundles are never produced.
#[derive(Debug)]
pub struct ResourceBundle {
    pub model_id: PretrainedModelId,
    pub weights: ResourceRef,
    pub config: ResourceRef,
    pub vocab: ResourceRef,
    pub merges: ResourceRef,
}

/// The identifier under which each model variant is recognized.
pub open spec fn spec_model_id_string(id: PretrainedModelId) -> Seq<char> {
    match id {
        PretrainedModelId::M2m100_418m => "m2m100-418m"@,
        PretrainedModelId::M2m100_12b => "m2m100-1_2b"@,
    }
}

/// The resource identities of the 418M-parameter model variant.
pub open spec fn spec_bundle_418m(b: ResourceBundle) -> bool {
    &&& b.model_id == PretrainedModelId::M2m100_418m
    &&& b.weights.cache_name@ == "m2m100-418m/model"@
    &&& b.weights.url@ == "https://huggingface.co/facebook/m2m100_418M/resolve/main/rust_model.ot"@
    &&& b.config.cache_name@ == "m2m100-418m/config"@
    &&& b.config.url@ == "https://huggingface.co/facebook/m2m100_418M/resolve/main/config.json"@
    &&& b.vocab.cache_name@ == "m2m100-418m/vocab"@
    &&& b.vocab.url@ == "https://huggingface.co/facebook/m2m100_418M/resolve/main/vocab.json"@
    &&& b.merges.cache_name@ == "m2m100-418m/merges"@
    &&& b.merges.url@
        == "https://huggingface.co/facebook/m2m100_418M/resolve/main/sentencepiece.bpe.model"@
}

/// The resource identities of the 1.2B-parameter model variant.
pub open spec fn spec_bundle_12b(b: ResourceBundle) -> bool {
    &&& b.model_id == PretrainedModelId::M2m100_12b
    &&& b.weights.cache_name@ == "m2m100-1_2b/model"@
    &&& b.weights.url@ == "https://huggingface.co/facebook/m2m100_1.2B/resolve/main/rust_model.ot"@
    &&& b.config.cache_name@ == "m2m100-1_2b/config"@
    &&& b.config.url@ == "https://huggingface.co/facebook/m2m100_1.2B/resolve/main/config.json"@
    &&& b.vocab.cache_name@ == "m2m100-1_2b/vocab"@
    &&& b.vocab.url@ == "https://huggingface.co/facebook/m2m100_1.2B/resolve/main/vocab.json"@
    &&& b.merges.cache_name@ == "m2m100-1_2b/merges"@
    &&& b.merges.url@
        == "https://huggingface.co/facebook/m2m100_1.2B/resolve/main/sentencepiece.bpe.model"@
}

/// The bundle invariant: all four references belong to `b.model_id`.
pub open spec fn spec_bundle_well_formed(b: ResourceBundle) -> bool {
    match b.model_id {
        PretrainedModelId::M2m100_418m => spec_bundle_418m(b),
        PretrainedModelId::M2m100_12b => spec_bundle_12b(b),
    }
}

fn bundle_418m() -> (b: ResourceBundle)
    ensures
        spec_bundle_418m(b),
{
    ResourceBundle {
        model_id: PretrainedModelId::M2m100_418m,
        weights: ResourceRef {
            cache_name: "m2m100-418m/model".to_owned(),
            url: "https://huggingface.co/facebook/m2m100_418M/resolve/main/rust_model.ot".to_owned(),
        },
        config: ResourceRef {
            cache_name: "m2m100-418m/config".to_owned(),
            url: "https://huggingface.co/facebook/m2m100_418M/resolve/main/config.json".to_owned(),
        },
        vocab: ResourceRef {
            cache_name: "m2m100-418m/vocab".to_owned(),
            url: "https://huggingface.co/facebook/m2m100_418M/resolve/main/vocab.json".to_owned(),
        },
        merges: ResourceRef {
            cache_name: "m2m100-418m/merges".to_owned(),
            url: "https://huggingface.co/facebook/m2m100_418M/resolve/main/sentencepiece.bpe.model".to_owned(),
        },
    }
}

fn bundle_12b() -> (b: ResourceBundle)
    ensures
        spec_bundle_12b(b),
{
    ResourceBundle {
        model_id: PretrainedModelId::M2m100_12b,
        weights: ResourceRef {
            cache_name: "m2m100-1_2b/model".to_owned(),
            url: "https://huggingface.co/facebook/m2m100_1.2B/resolve/main/rust_model.ot".to_owned(),
        },
        config: ResourceRef {
            cache_name: "m2m100-1_2b/config".to_owned(),
            url: "https://huggingface.co/facebook/m2m100_1.2B/resolve/main/config.json".to_owned(),
        },
        vocab: ResourceRef {
            cache_name: "m2m100-1_2b/vocab".to_owned(),
            url: "https://huggingface.co/facebook/m2m100_1.2B/resolve/main/vocab.json".to_owned(),
        },
        merges: ResourceRef {
            cache_name: "m2m100-1_2b/merges".to_owned(),
            url: "https://huggingface.co/facebook/m2m100_1.2B/resolve/main/sentencepiece.bpe.model".to_owned(),
        },
    }
}

/// Decides [`spec_bundle_well_formed`] for a concrete bundle: whether all
/// four references are exactly those of the bundle's own model variant.
pub fn bundle_well_formed(b: &ResourceBundle) -> (ok: bool)
    ensures
        ok == spec_bundle_well_formed(*b),
{
    let expected = match b.model_id {
        PretrainedModelId::M2m100_418m => bundle_418m(),
        PretrainedModelId::M2m100_12b => bundle_12b(),
    };
    b.weights.cache_name == expected.weights.cache_name && b.weights.url == expected.weights.url
        && b.config.cache_name == expected.config.cache_name && b.config.url == expected.config.url
        && b.vocab.cache_name == expected.vocab.cache_name && b.vocab.url == expected.vocab.url
        && b.merges.cache_name == expected.merges.cache_name && b.merges.url == expected.merges.url
}

/// Resolves a model identifier to its resource bundle. The same identifier
/// always maps to the same four resource identities; an unrecognized
/// identifier is rejected and nothing is fetched.
pub fn locate_resources(model_id: &str) -> (r: Result<ResourceBundle, TranslationError>)
    ensures
        model_id@ == spec_model_id_string(PretrainedModelId::M2m100_418m) ==> (r matches Ok(b)
            && spec_bundle_418m(b)),
        model_id@ != spec_model_id_string(PretrainedModelId::M2m100_418m) && model_id@
            == spec_model_id_string(PretrainedModelId::M2m100_12b) ==> (r matches Ok(b)
            && spec_bundle_12b(b)),
        model_id@ != spec_model_id_string(PretrainedModelId::M2m100_418m) && model_id@
            != spec_model_id_string(PretrainedModelId::M2m100_12b) ==> (r matches Err(e)
            && e matches TranslationError::UnknownModel(s) && s@ == model_id@),
        r matches Ok(b) ==> spec_bundle_well_formed(b),
{
    let id: String = model_id.to_owned();
    let id_418m: String = "m2m100-418m".to_owned();
    let id_12b: String = "m2m100-1_2b".to_owned();
    if id == id_418m {
        Ok(bundle_418m())
    } else if id == id_12b {
        Ok(bundle_12b())
    } else {
        Err(TranslationError::UnknownModel(id))
    }
}

} // verus!
