//! Which provider serves a prompt tier: the order in which the local model,
//! the cloud models of each tier and the built-in fallback are tried, and
//! how a provider name selects a provider family.
use vstd::prelude::*;
use crate::classifier::{ModelTier, PromptTier};
use crate::text::str_eq;

verus! {

/// Provider families a cloud provider can be built for.
#[derive(Debug, Clone, Copy, PartialEq, Eq, Structural)]
pub enum ProviderFamily {
    OpenAi,
    Anthropic,
    Perplexity,
    Xai,
    Google,
}

/// One source of a provider, in resolution order.
#[derive(Debug, Clone, Copy, PartialEq, Eq, Structural)]
pub enum ResolutionStep {
    /// The local model, when one is configured.
    Local,
    /// The Ego provider's cloud model of this tier, when it can be built.
    Cloud(ModelTier),
    /// The built-in stub, always available.
    Fallback,
}

/// The family a provider name selects, with its aliases (`pplx`, `grok`,
/// `gemini`).
pub open spec fn family_of(name: Seq<char>) -> Option<ProviderFamily> {
    if name == "openai"@ {
        Some(ProviderFamily::OpenAi)
    } else if name == "anthropic"@ {
        Some(ProviderFamily::Anthropic)
    } else if name == "perplexity"@ || name == "pplx"@ {
        Some(ProviderFamily::Perplexity)
    } else if name == "xai"@ || name == "grok"@ {
        Some(ProviderFamily::Xai)
    } else if name == "google"@ || name == "gemini"@ {
        Some(ProviderFamily::Google)
    } else {
        None
    }
}

/// The provider family for a name; `None` for an unknown provider.
pub fn provider_family(name: &str) -> (r: Option<ProviderFamily>)
    ensures
        r == family_of(name@),
{
    proof {
        reveal_strlit("openai");
        reveal_strlit("anthropic");
        reveal_strlit("perplexity");
        reveal_strlit("pplx");
        reveal_strlit("xai");
        reveal_strlit("grok");
        reveal_strlit("google");
        reveal_strlit("gemini");
    }
    if str_eq(name, "openai") {
        Some(ProviderFamily::OpenAi)
    } else if str_eq(name, "anthropic") {
        Some(ProviderFamily::Anthropic)
    } else if str_eq(name, "perplexity") || str_eq(name, "pplx") {
        Some(ProviderFamily::Perplexity)
    } else if str_eq(name, "xai") || str_eq(name, "grok") {
        Some(ProviderFamily::Xai)
    } else if str_eq(name, "google") || str_eq(name, "gemini") {
        Some(ProviderFamily::Google)
    } else {
        None
    }
}

/// The order in which sources are tried for a tier: the fast tier prefers
/// the local model; the others try cloud models from their own tier down,
/// then the local model; the fallback comes last.
pub open spec fn order_of(tier: PromptTier) -> Seq<ResolutionStep> {
    match tier {
        PromptTier::T1Fast => seq![ResolutionStep::Local, ResolutionStep::Cloud(ModelTier::Fast), ResolutionStep::Fallback],
        PromptTier::T2Standard => seq![
            ResolutionStep::Cloud(ModelTier::Standard),
            ResolutionStep::Cloud(ModelTier::Fast),
            ResolutionStep::Local,
            ResolutionStep::Fallback,
        ],
        _ => seq![
            ResolutionStep::Cloud(ModelTier::Pro),
            ResolutionStep::Cloud(ModelTier::Standard),
            ResolutionStep::Cloud(ModelTier::Fast),
            ResolutionStep::Local,
            ResolutionStep::Fallback,
        ],
    }
}

/// The resolution order for a tier (see `order_of`).
pub fn resolution_order(tier: PromptTier) -> (r: Vec<ResolutionStep>)
    ensures
        r@ == order_of(tier),
{
    let mut r: Vec<ResolutionStep> = Vec::new();
    match tier {
        PromptTier::T1Fast => {
            r.push(ResolutionStep::Local);
            r.push(ResolutionStep::Cloud(ModelTier::Fast));
        },
        PromptTier::T2Standard => {
            r.push(ResolutionStep::Cloud(ModelTier::Standard));
            r.push(ResolutionStep::Cloud(ModelTier::Fast));
            r.push(ResolutionStep::Local);
        },
        _ => {
            r.push(ResolutionStep::Cloud(ModelTier::Pro));
            r.push(ResolutionStep::Cloud(ModelTier::Standard));
            r.push(ResolutionStep::Cloud(ModelTier::Fast));
            r.push(ResolutionStep::Local);
        },
    }
    r.push(ResolutionStep::Fallback);
    proof {
        assert(r@ =~= order_of(tier));
    }
    r
}

/// What can serve a request: whether a local model is configured, and
/// whether the cloud provider can be built for the fast, standard and pro
/// model tiers.
#[derive(Debug, Clone, Copy, PartialEq, Eq, Structural)]
pub struct Availability {
    pub local: bool,
    pub cloud_fast: bool,
    pub cloud_standard: bool,
    pub cloud_pro: bool,
}

/// Whether a source is available.
pub open spec fn available(a: Availability, s: ResolutionStep) -> bool {
    match s {
        ResolutionStep::Local => a.local,
        ResolutionStep::Cloud(ModelTier::Fast) => a.cloud_fast,
        ResolutionStep::Cloud(ModelTier::Standard) => a.cloud_standard,
        ResolutionStep::Cloud(ModelTier::Pro) => a.cloud_pro,
        ResolutionStep::Fallback => true,
    }
}

/// Index of the first available source.
pub open spec fn first_available(order: Seq<ResolutionStep>, a: Availability) -> int
    decreases order.len(),
{
    if order.len() == 0 {
        0
    } else if available(a, order[0]) {
        0
    } else {
        1 + first_available(order.drop_first(), a)
    }
}

/// The source that serves `tier`: the first available one in the tier's
/// order. The fallback always is, so there is always one.
pub fn resolve_step(tier: PromptTier, a: Availability) -> (s: ResolutionStep)
    ensures
        s == order_of(tier)[first_available(order_of(tier), a)],
        available(a, s),
        forall|k: int| 0 <= k < first_available(order_of(tier), a) ==> !available(a, #[trigger] order_of(tier)[k]),
{
    let order = resolution_order(tier);
    let ghost o = order@;
    let mut i: usize = 0;
    proof {
        assert(o.skip(0) =~= o);
        lemma_fallback_last(tier, a);
    }
    while i < order.len()
        invariant
            o == order@,
            o == order_of(tier),
            i < o.len(),
            first_available(o, a) == i + first_available(o.skip(i as int), a),
            forall|k: int| 0 <= k < i ==> !available(a, #[trigger] o[k]),
            available(a, o[o.len() - 1]),
        decreases o.len() - i,
    {
        assert(o.skip(i as int)[0] == o[i as int]);
        let step = order[i];
        let ok = match step {
            ResolutionStep::Local => a.local,
            ResolutionStep::Cloud(ModelTier::Fast) => a.cloud_fast,
            ResolutionStep::Cloud(ModelTier::Standard) => a.cloud_standard,
            ResolutionStep::Cloud(ModelTier::Pro) => a.cloud_pro,
            ResolutionStep::Fallback => true,
        };
        if ok {
            return step;
        }
        assert(o.skip(i as int).drop_first() =~= o.skip(i + 1));
        i += 1;
    }
    ResolutionStep::Fallback
}

proof fn lemma_fallback_last(tier: PromptTier, a: Availability)
    ensures
        order_of(tier).len() > 0,
        order_of(tier)[order_of(tier).len() - 1] == ResolutionStep::Fallback,
        available(a, order_of(tier)[order_of(tier).len() - 1]),
{
}

/// Cloud credentials are usable: a provider name is set and the API key is
/// present and not empty.
pub fn cloud_credentials_usable(provider_name: Option<&str>, api_key: Option<&str>) -> (r: bool)
    ensures
        r == (provider_name is Some && api_key is Some && api_key->0@.len() > 0),
{
    match (provider_name, api_key) {
        (Some(_), Some(k)) => crate::text::chars_of(k).len() > 0,
        _ => false,
    }
}

/// The fast tier uses a configured local model before any cloud model, and
/// every tier ends at the fallback, so a provider is always found.
pub proof fn lemma_resolution_shape(tier: PromptTier, a: Availability)
    ensures
        tier is T1Fast && a.local ==> order_of(tier)[first_available(order_of(tier), a)] == ResolutionStep::Local,
        !(tier is T1Fast) && a.cloud_pro && (tier is T3Pro || tier is T4Specialist)
            ==> order_of(tier)[first_available(order_of(tier), a)] == ResolutionStep::Cloud(ModelTier::Pro),
        0 <= first_available(order_of(tier), a) < order_of(tier).len(),
        order_of(PromptTier::T4Specialist) == order_of(PromptTier::T3Pro),
{
    lemma_first_available_bound(order_of(tier), a);
}

proof fn lemma_first_available_bound(order: Seq<ResolutionStep>, a: Availability)
    requires
        order.len() > 0,
        order[order.len() - 1] == ResolutionStep::Fallback,
    ensures
        0 <= first_available(order, a) < order.len(),
    decreases order.len(),
{
    if order.len() > 1 && !available(a, order[0]) {
        lemma_first_available_bound(order.drop_first(), a);
    }
}

/// Which source serves each tier, given what is available:
/// - the fast tier: the local model, else the fast cloud model, else the
///   fallback;
/// - the standard tier: the standard cloud model, else the fast one, else
///   the local model, else the fallback;
/// - the pro and specialist tiers: the pro cloud model, else standard, else
///   fast, else the local model, else the fallback.
pub proof fn lemma_source_served(tier: PromptTier, a: Availability)
    ensures
        ({
            let s = order_of(tier)[first_available(order_of(tier), a)];
            match tier {
                PromptTier::T1Fast => s == (if a.local {
                    ResolutionStep::Local
                } else if a.cloud_fast {
                    ResolutionStep::Cloud(ModelTier::Fast)
                } else {
                    ResolutionStep::Fallback
                }),
                PromptTier::T2Standard => s == (if a.cloud_standard {
                    ResolutionStep::Cloud(ModelTier::Standard)
                } else if a.cloud_fast {
                    ResolutionStep::Cloud(ModelTier::Fast)
                } else if a.local {
                    ResolutionStep::Local
                } else {
                    ResolutionStep::Fallback
                }),
                _ => s == (if a.cloud_pro {
                    ResolutionStep::Cloud(ModelTier::Pro)
                } else if a.cloud_standard {
                    ResolutionStep::Cloud(ModelTier::Standard)
                } else if a.cloud_fast {
                    ResolutionStep::Cloud(ModelTier::Fast)
                } else if a.local {
                    ResolutionStep::Local
                } else {
                    ResolutionStep::Fallback
                }),
            }
        }),
{
    let o = order_of(tier);
    reveal_with_fuel(first_available, 6);
    assert(o.drop_first()[0] == o[1]);
    if o.len() > 2 {
        assert(o.drop_first().drop_first()[0] == o[2]);
    }
    if o.len() > 3 {
        assert(o.drop_first().drop_first().drop_first()[0] == o[3]);
    }
    if o.len() > 4 {
        assert(o.drop_first().drop_first().drop_first().drop_first()[0] == o[4]);
    }
}

} // verus!
