use vstd::prelude::*;

verus! {

/// A JSON number held as the bit pattern of an IEEE-754 binary64 value.
///
/// The library only carries these numbers from the decoder to its callers; it
/// never computes with them, so the exact bits are what it keeps.
#[derive(Debug, Clone, Copy, PartialEq, Eq, Structural)]
pub struct JsonNumber {
    pub bits: u64,
}

/// The whole pricing document of one environment.
#[derive(Debug, Clone, PartialEq)]
pub struct AiPricingJson {
    pub metered_price_id: String,
    /// In the publisher's order; never re-sorted.
    pub providers: Vec<Provider>,
}

#[derive(Debug, Clone, PartialEq)]
pub struct Provider {
    pub description: String,
    pub key: String,
    pub label: String,
    pub markup: Markup,
    pub models: Vec<Model>,
    pub moderation_threshold: ModerationThreshold,
    pub provider_host: String,
    pub website: String,
}

/// Percentage multipliers applied on top of the raw model prices.
#[derive(Debug, Clone, Copy, PartialEq, Eq, Structural)]
pub struct Markup {
    pub image_percentage: JsonNumber,
    pub text_percentage: JsonNumber,
}

/// The policy that decides whether content is blocked before billing.
#[derive(Debug, Clone, Copy, PartialEq, Eq, Structural)]
pub struct ModerationThreshold {
    pub categories: Categories,
    pub category_score: CategoryScore,
    pub general: JsonNumber,
}

#[derive(Debug, Clone, Copy, PartialEq, Eq, Structural)]
pub struct Categories {
    pub hate: bool,
    pub hate_threatening: bool,
    pub self_harm: bool,
    pub self_harm_instructions: bool,
    pub self_harm_intent: bool,
    pub sexual_minors: bool,
}

#[derive(Debug, Clone, Copy, PartialEq, Eq, Structural)]
pub struct CategoryScore {
    pub harassment_threatening: JsonNumber,
    pub illicit: JsonNumber,
    pub illicit_violent: JsonNumber,
    pub violence_graphic: JsonNumber,
}

/// One billable model of a provider.
#[derive(Debug, Clone, PartialEq)]
pub struct Model {
    pub added: String,
    pub created: String,
    pub features: Vec<String>,
    pub key: String,
    pub model_id: Option<String>,
    pub inference_profile_arn: Option<String>,
    pub inference_profile_id: Option<String>,
    /// Text rates for a text model, a list of image sizes for an image model.
    pub pricing: Option<Pricing>,
    pub streaming: Option<bool>,
    pub system_disabled: Option<bool>,
    /// `"text"` or `"image"`.
    pub model_type: String,
    pub deprecated: Option<bool>,
    pub encoder: Option<String>,
    pub prod_price_ids: Option<ProdPriceIds>,
}

/// The two shapes of a model's prices: an object of rates, or a list of images.
#[derive(Debug, Clone, PartialEq)]
pub enum Pricing {
    TextPricing(TextPricing),
    ImagePricingVec(Vec<ImagePricing>),
}

/// Rates per thousand and per million units; the cached-input rates only where
/// the provider offers a discounted cache hit.
#[derive(Debug, Clone, Copy, PartialEq, Eq, Structural)]
pub struct TextPricing {
    pub cached_input_per1_k: Option<JsonNumber>,
    pub cached_input_per1_m: Option<JsonNumber>,
    pub input_per1_k: JsonNumber,
    pub input_per1_m: JsonNumber,
    pub output_per1_k: JsonNumber,
    pub output_per1_m: JsonNumber,
}

#[derive(Debug, Clone, PartialEq)]
pub struct ImagePricing {
    pub cost_per_image: JsonNumber,
    pub description: String,
    pub size: String,
}

/// Identifiers of the rates in an external billing system.
#[derive(Debug, Clone, PartialEq, Default)]
pub struct ProdPriceIds {
    pub cached_input: Option<String>,
    pub input: Option<String>,
    pub output: Option<String>,
}

/// Why a fetch of the pricing document failed.
#[derive(Debug, Clone, PartialEq)]
pub enum FetchError {
    /// The connection could not be made or timed out.
    Transport(String),
    /// The server answered with a status other than success.
    HttpStatus(u16),
    /// The body did not match the document's schema.
    Decode(String),
}

} // verus!
