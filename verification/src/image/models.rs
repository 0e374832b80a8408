//! Image generation model definitions: the catalogue of models available
//! through OpenRouter, what each can do, and the fallback order.

use vstd::prelude::*;
use crate::text::str_eq;

verus! {

/// Capabilities supported by a model.
#[derive(Debug, Clone, Copy, PartialEq, Eq, Structural)]
pub struct ModelCapabilities {
    /// Can generate images from text
    pub text_to_image: bool,
    /// Can transform existing images
    pub image_to_image: bool,
    /// Can upscale images
    pub upscaling: bool,
    /// Can do inpainting (masked editing)
    pub inpainting: bool,
}

/// Capabilities with the four flags given in order.
pub open spec fn caps(t: bool, i: bool, u: bool, p: bool) -> ModelCapabilities {
    ModelCapabilities { text_to_image: t, image_to_image: i, upscaling: u, inpainting: p }
}

impl Default for ModelCapabilities {
    /// No capability at all.
    fn default() -> (r: Self)
        ensures
            r == caps(false, false, false, false),
    {
        ModelCapabilities {
            text_to_image: false,
            image_to_image: false,
            upscaling: false,
            inpainting: false,
        }
    }
}

impl ModelCapabilities {
    /// Create capabilities for text-to-image only.
    pub fn text_only() -> (r: Self)
        ensures
            r == caps(true, false, false, false),
    {
        ModelCapabilities {
            text_to_image: true,
            image_to_image: false,
            upscaling: false,
            inpainting: false,
        }
    }

    /// Create capabilities for the full suite.
    pub fn full() -> (r: Self)
        ensures
            r == caps(true, true, true, true),
    {
        ModelCapabilities {
            text_to_image: true,
            image_to_image: true,
            upscaling: true,
            inpainting: true,
        }
    }

    /// Create capabilities for generation without inpainting.
    pub fn generation() -> (r: Self)
        ensures
            r == caps(true, true, false, false),
    {
        ModelCapabilities {
            text_to_image: true,
            image_to_image: true,
            upscaling: false,
            inpainting: false,
        }
    }
}

/// Information about an image generation model.
#[derive(Debug, Clone, Copy)]
pub struct ImageModel {
    /// Model identifier (OpenRouter format)
    pub id: &'static str,
    /// Human-readable name
    pub name: &'static str,
    /// Brief description of the model
    pub description: &'static str,
    /// Supported capabilities
    pub capabilities: ModelCapabilities,
    /// Approximate cost per image, in millionths of a US dollar
    pub cost_per_image_micro_usd: Option<u64>,
}

/// What a model is, as plain values: identifier, name, description,
/// capabilities and cost.
pub type ModelEntry = (Seq<char>, Seq<char>, Seq<char>, ModelCapabilities, Option<u64>);

impl View for ImageModel {
    type V = ModelEntry;

    open spec fn view(&self) -> ModelEntry {
        (self.id@, self.name@, self.description@, self.capabilities, self.cost_per_image_micro_usd)
    }
}

/// The identifier of the default text-to-image model.
pub open spec fn default_model_id() -> Seq<char> {
    "google/gemini-2.0-flash-exp:image"@
}

/// The catalogue of available models, in order.
pub open spec fn catalogue() -> Seq<ModelEntry> {
    seq![
        (
            default_model_id(),
            "Gemini 2.0 Flash (Image)"@,
            "Google's fast, efficient image generation model. Good quality with quick generation times."@,
            caps(true, true, false, false),
            Some(10_000u64),
        ),
        (
            "nano-banana-pro"@,
            "Nano Banana Pro"@,
            "High-quality image generation with excellent detail and artistic capabilities."@,
            caps(true, true, true, true),
            Some(20_000u64),
        ),
        (
            "openai/dall-e-3"@,
            "DALL-E 3"@,
            "OpenAI's flagship image model. Excellent at following complex prompts and artistic styles."@,
            caps(true, false, false, false),
            Some(40_000u64),
        ),
        (
            "openai/dall-e-2"@,
            "DALL-E 2"@,
            "OpenAI's previous generation model. Good for variations and editing."@,
            caps(true, true, false, true),
            Some(20_000u64),
        ),
        (
            "stabilityai/stable-diffusion-xl"@,
            "Stable Diffusion XL"@,
            "Open-source model with excellent customization. Supports negative prompts well."@,
            caps(true, true, false, false),
            Some(10_000u64),
        ),
    ]
}

/// The views of a sequence of models.
pub open spec fn views(models: Seq<ImageModel>) -> Seq<ModelEntry> {
    models.map_values(|m: ImageModel| m@)
}

/// The position of the first catalogue entry with identifier `id`.
pub open spec fn catalogue_index(id: Seq<char>) -> Option<int> {
    if exists|i: int| 0 <= i < catalogue().len() && (#[trigger] catalogue()[i]).0 == id {
        Some(choose|i: int| 0 <= i < catalogue().len() && (#[trigger] catalogue()[i]).0 == id)
    } else {
        None
    }
}

/// The catalogue identifiers are pairwise distinct.
pub proof fn lemma_catalogue_ids_distinct()
    ensures
        forall|i: int, j: int|
            0 <= i < catalogue().len() && 0 <= j < catalogue().len() && i != j ==> (#[trigger] catalogue()[i]).0
                != (#[trigger] catalogue()[j]).0,
{
    reveal_strlit("google/gemini-2.0-flash-exp:image");
    reveal_strlit("nano-banana-pro");
    reveal_strlit("openai/dall-e-3");
    reveal_strlit("openai/dall-e-2");
    reveal_strlit("stabilityai/stable-diffusion-xl");
    let c = catalogue();
    assert(c[0].0[0] != c[1].0[0]);
    assert(c[0].0[0] != c[2].0[0]);
    assert(c[0].0[0] != c[3].0[0]);
    assert(c[0].0[0] != c[4].0[0]);
    assert(c[1].0[0] != c[2].0[0]);
    assert(c[1].0[0] != c[3].0[0]);
    assert(c[1].0[0] != c[4].0[0]);
    assert(c[2].0 == "openai/dall-e-3"@);
    assert(c[3].0 == "openai/dall-e-2"@);
    assert("openai/dall-e-3"@.len() == 15);
    assert("openai/dall-e-3"@[14] == '3');
    assert("openai/dall-e-2"@[14] == '2');
    assert(c[2].0[14] != c[3].0[14]);
    assert(c[2].0[0] != c[4].0[0]);
    assert(c[3].0[0] != c[4].0[0]);
}

/// What the catalogued models can do: every one generates from text; all
/// but DALL-E 3 transform images (Stable Diffusion XL among them); only Nano
/// Banana Pro and DALL-E 2 inpaint; only Nano Banana Pro upscales.
pub proof fn lemma_catalogue_capabilities()
    ensures
        forall|i: int| 0 <= i < catalogue().len() ==> {
            let e = #[trigger] catalogue()[i];
            &&& e.3.text_to_image
            &&& e.3.image_to_image <==> e.0 != "openai/dall-e-3"@
            &&& e.3.inpainting <==> (e.0 == "nano-banana-pro"@ || e.0 == "openai/dall-e-2"@)
            &&& e.3.upscaling <==> e.0 == "nano-banana-pro"@
        },
        exists|i: int| 0 <= i < catalogue().len() && (#[trigger] catalogue()[i]).0 == "stabilityai/stable-diffusion-xl"@,
{
    lemma_catalogue_ids_distinct();
    let c = catalogue();
    assert(c[1].0 == "nano-banana-pro"@);
    assert(c[2].0 == "openai/dall-e-3"@);
    assert(c[3].0 == "openai/dall-e-2"@);
    assert(c[4].0 == "stabilityai/stable-diffusion-xl"@);
    assert forall|i: int| 0 <= i < c.len() implies {
        let e = #[trigger] c[i];
        &&& e.3.text_to_image
        &&& e.3.image_to_image <==> e.0 != "openai/dall-e-3"@
        &&& e.3.inpainting <==> (e.0 == "nano-banana-pro"@ || e.0 == "openai/dall-e-2"@)
        &&& e.3.upscaling <==> e.0 == "nano-banana-pro"@
    } by {
        if i == 0 {
            assert(c[0].0 != c[1].0 && c[0].0 != c[2].0 && c[0].0 != c[3].0);
        } else if i == 1 {
            assert(c[1].0 != c[2].0 && c[1].0 != c[3].0);
        } else if i == 2 {
            assert(c[2].0 != c[1].0 && c[2].0 != c[3].0);
        } else if i == 3 {
            assert(c[3].0 != c[1].0 && c[3].0 != c[2].0);
        } else {
            assert(c[4].0 != c[1].0 && c[4].0 != c[2].0 && c[4].0 != c[3].0);
        }
    }
}

/// All available image generation models, in catalogue order.
pub fn image_models() -> (r: Vec<ImageModel>)
    ensures
        views(r@) == catalogue(),
{
    let r = vec![
        ImageModel {
            id: "google/gemini-2.0-flash-exp:image",
            name: "Gemini 2.0 Flash (Image)",
            description: "Google's fast, efficient image generation model. Good quality with quick generation times.",
            capabilities: ModelCapabilities::generation(),
            cost_per_image_micro_usd: Some(10_000),
        },
        ImageModel {
            id: "nano-banana-pro",
            name: "Nano Banana Pro",
            description: "High-quality image generation with excellent detail and artistic capabilities.",
            capabilities: ModelCapabilities::full(),
            cost_per_image_micro_usd: Some(20_000),
        },
        ImageModel {
            id: "openai/dall-e-3",
            name: "DALL-E 3",
            description: "OpenAI's flagship image model. Excellent at following complex prompts and artistic styles.",
            capabilities: ModelCapabilities::text_only(),
            cost_per_image_micro_usd: Some(40_000),
        },
        ImageModel {
            id: "openai/dall-e-2",
            name: "DALL-E 2",
            description: "OpenAI's previous generation model. Good for variations and editing.",
            capabilities: ModelCapabilities {
                text_to_image: true,
                image_to_image: true,
                upscaling: false,
                inpainting: true,
            },
            cost_per_image_micro_usd: Some(20_000),
        },
        ImageModel {
            id: "stabilityai/stable-diffusion-xl",
            name: "Stable Diffusion XL",
            description: "Open-source model with excellent customization. Supports negative prompts well.",
            capabilities: ModelCapabilities::generation(),
            cost_per_image_micro_usd: Some(10_000),
        },
    ];
    assert(views(r@) =~= catalogue());
    r
}

/// The entries kept by a capability predicate, in order.
pub open spec fn kept_models(entries: Seq<ModelEntry>, keep: spec_fn(ModelCapabilities) -> bool) -> Seq<ModelEntry>
    decreases entries.len(),
{
    if entries.len() == 0 {
        Seq::empty()
    } else {
        let rest = kept_models(entries.drop_last(), keep);
        if keep(entries.last().3) {
            rest.push(entries.last())
        } else {
            rest
        }
    }
}

impl ImageModel {
    /// Get a model by ID: the catalogue entry with that identifier.
    pub fn by_id(id: &str) -> (r: Option<ImageModel>)
        ensures
            match catalogue_index(id@) {
                Some(i) => r matches Some(m) && m@ == catalogue()[i],
                None => r.is_none(),
            },
    {
        let models = image_models();
        let mut i: usize = 0;
        while i < models.len()
            invariant
                i <= models@.len(),
                views(models@) == catalogue(),
                forall|k: int| 0 <= k < i ==> (#[trigger] catalogue()[k]).0 != id@,
            decreases models@.len() - i,
        {
            let m = models[i];
            assert(m@ == views(models@)[i as int]);
            if str_eq(m.id, id) {
                proof {
                    lemma_catalogue_ids_distinct();
                    assert(catalogue()[i as int].0 == id@);
                    let k = choose|k: int| 0 <= k < catalogue().len() && (#[trigger] catalogue()[k]).0 == id@;
                    assert(k == i);
                }
                return Some(m);
            }
            i = i + 1;
        }
        None
    }

    /// Get the default model for text-to-image: the catalogue entry of the
    /// default identifier, else the first entry.
    pub fn default_text_to_image() -> (r: ImageModel)
        ensures
            r@ == catalogue()[0],
    {
        let models = image_models();
        assert(catalogue().len() == 5);
        assert(models@.len() == 5);
        assert(models@[0]@ == views(models@)[0]);
        match ImageModel::by_id("google/gemini-2.0-flash-exp:image") {
            Some(m) => {
                proof {
                    assert(catalogue()[0].0 == default_model_id());
                    lemma_catalogue_ids_distinct();
                    let k = choose|k: int| 0 <= k < catalogue().len() && (#[trigger] catalogue()[k]).0 == default_model_id();
                    assert(k == 0);
                }
                m
            },
            None => models[0],
        }
    }

    /// Get the models whose capabilities the filter accepts, in catalogue order.
    pub fn with_capability<F: Fn(&ModelCapabilities) -> bool>(filter: F) -> (r: Vec<ImageModel>)
        requires
            forall|c: ModelCapabilities| call_requires(filter, (&c,)),
            forall|c: ModelCapabilities, a: bool, b: bool|
                call_ensures(filter, (&c,), a) && call_ensures(filter, (&c,), b) ==> a == b,
        ensures
            views(r@) == kept_models(catalogue(), |c: ModelCapabilities| call_ensures(filter, (&c,), true)),
    {
        let models = image_models();
        let ghost keep = |c: ModelCapabilities| call_ensures(filter, (&c,), true);
        let mut out: Vec<ImageModel> = Vec::new();
        let mut i: usize = 0;
        while i < models.len()
            invariant
                i <= models@.len(),
                views(models@) == catalogue(),
                views(out@) == kept_models(catalogue().take(i as int), keep),
                forall|c: ModelCapabilities| call_requires(filter, (&c,)),
                forall|c: ModelCapabilities, a: bool, b: bool|
                    call_ensures(filter, (&c,), a) && call_ensures(filter, (&c,), b) ==> a == b,
                keep == (|c: ModelCapabilities| call_ensures(filter, (&c,), true)),
            decreases models@.len() - i,
        {
            let m = models[i];
            let keep_it = filter(&m.capabilities);
            proof {
                let c = catalogue();
                assert(m@ == views(models@)[i as int]);
                assert(c.take(i + 1).drop_last() =~= c.take(i as int));
                assert(c.take(i + 1).last() == m@);
                if !keep_it {
                    assert(!keep(m.capabilities));
                } else {
                    assert(keep(m.capabilities));
                }
            }
            if keep_it {
                let ghost before = out@;
                out.push(m);
                proof {
                    assert(views(out@) =~= views(before).push(m@));
                }
            }
            i = i + 1;
        }
        proof {
            assert(catalogue().take(catalogue().len() as int) =~= catalogue());
        }
        out
    }

    /// Check if this model supports text-to-image generation.
    pub fn supports_text_to_image(&self) -> (r: bool)
        ensures
            r == self.capabilities.text_to_image,
    {
        self.capabilities.text_to_image
    }

    /// Check if this model supports image-to-image.
    pub fn supports_image_to_image(&self) -> (r: bool)
        ensures
            r == self.capabilities.image_to_image,
    {
        self.capabilities.image_to_image
    }

    /// Check if this model supports upscaling.
    pub fn supports_upscaling(&self) -> (r: bool)
        ensures
            r == self.capabilities.upscaling,
    {
        self.capabilities.upscaling
    }

    /// Check if this model supports inpainting.
    pub fn supports_inpainting(&self) -> (r: bool)
        ensures
            r == self.capabilities.inpainting,
    {
        self.capabilities.inpainting
    }
}

/// Get fallback model IDs in order of preference.
pub fn fallback_model_ids() -> (r: Vec<&'static str>)
    ensures
        r@.len() == 3,
        r@[0]@ == "nano-banana-pro"@,
        r@[1]@ == "openai/dall-e-3"@,
        r@[2]@ == "stabilityai/stable-diffusion-xl"@,
{
    vec!["nano-banana-pro", "openai/dall-e-3", "stabilityai/stable-diffusion-xl"]
}

} // verus!
