//! Models as they are stored per provider configuration.
use vstd::prelude::*;
use crate::clock::Timestamp;

verus! {

/// A model offered through a provider configuration.
#[derive(Debug, Clone)]
pub struct Model {
    pub id: u128,
    pub provider_config_id: u128,
    pub model_id: String,
    pub display_name: Option<String>,
    /// `f64` bit pattern.
    pub input_cost_per_1k: Option<u64>,
    /// `f64` bit pattern.
    pub output_cost_per_1k: Option<u64>,
    pub max_context: Option<i32>,
    pub supports_tools: bool,
    pub supports_vision: bool,
    pub is_active: bool,
    pub created_at: Timestamp,
    pub updated_at: Timestamp,
}

/// The data needed to store a model.
#[derive(Debug, Clone)]
pub struct CreateModel {
    pub provider_config_id: u128,
    pub model_id: String,
    pub display_name: Option<String>,
    /// `f64` bit pattern.
    pub input_cost_per_1k: Option<u64>,
    /// `f64` bit pattern.
    pub output_cost_per_1k: Option<u64>,
    pub max_context: Option<i32>,
    pub supports_tools: bool,
    pub supports_vision: bool,
    pub is_active: bool,
}

/// A request to add a model to a provider configuration.
#[derive(Debug, Clone)]
pub struct CreateModelRequest {
    pub model_id: String,
    pub display_name: Option<String>,
    /// `f64` bit pattern.
    pub input_cost_per_1k: Option<u64>,
    /// `f64` bit pattern.
    pub output_cost_per_1k: Option<u64>,
    pub max_context: Option<i32>,
    pub supports_tools: Option<bool>,
    pub supports_vision: Option<bool>,
}

/// A request to change a model; absent fields stay.
#[derive(Debug, Clone)]
pub struct UpdateModelRequest {
    pub display_name: Option<String>,
    /// `f64` bit pattern.
    pub input_cost_per_1k: Option<u64>,
    /// `f64` bit pattern.
    pub output_cost_per_1k: Option<u64>,
    pub max_context: Option<i32>,
    pub supports_tools: Option<bool>,
    pub supports_vision: Option<bool>,
    pub is_active: Option<bool>,
}

/// What the API shows of a stored model.
#[derive(Debug, Clone)]
pub struct ModelInfo {
    pub id: u128,
    pub provider_config_id: u128,
    pub model_id: String,
    pub display_name: Option<String>,
    /// `f64` bit pattern.
    pub input_cost_per_1k: Option<u64>,
    /// `f64` bit pattern.
    pub output_cost_per_1k: Option<u64>,
    pub max_context: Option<i32>,
    pub supports_tools: bool,
    pub supports_vision: bool,
    pub is_active: bool,
    pub created_at: Timestamp,
    pub updated_at: Timestamp,
}

impl CreateModel {
    /// The model that `req` asks to add to configuration `provider_config_id`:
    /// active, and without tools or vision where the request does not say.
    pub fn from_request(provider_config_id: u128, req: CreateModelRequest) -> (r: CreateModel)
        ensures
            r.provider_config_id == provider_config_id,
            r.model_id@ == req.model_id@,
            r.display_name == req.display_name,
            r.input_cost_per_1k == req.input_cost_per_1k,
            r.output_cost_per_1k == req.output_cost_per_1k,
            r.max_context == req.max_context,
            r.supports_tools == (req.supports_tools == Some(true)),
            r.supports_vision == (req.supports_vision == Some(true)),
            r.is_active,
    {
        let supports_tools = match req.supports_tools {
            Some(b) => b,
            None => false,
        };
        let supports_vision = match req.supports_vision {
            Some(b) => b,
            None => false,
        };
        CreateModel {
            provider_config_id,
            model_id: req.model_id,
            display_name: req.display_name,
            input_cost_per_1k: req.input_cost_per_1k,
            output_cost_per_1k: req.output_cost_per_1k,
            max_context: req.max_context,
            supports_tools,
            supports_vision,
            is_active: true,
        }
    }
}

impl Model {
    /// Applies an update made at `now`: each given field replaces the stored
    /// one (a given `None` clears an optional field), the others stay, and
    /// the update time becomes `now`.
    pub fn apply_update(
        &mut self,
        display_name: Option<Option<String>>,
        input_cost_per_1k: Option<Option<u64>>,
        output_cost_per_1k: Option<Option<u64>>,
        max_context: Option<Option<i32>>,
        supports_tools: Option<bool>,
        supports_vision: Option<bool>,
        is_active: Option<bool>,
        now: Timestamp,
    )
        ensures
            final(self).id == old(self).id,
            final(self).provider_config_id == old(self).provider_config_id,
            final(self).model_id@ == old(self).model_id@,
            final(self).display_name == (match display_name { Some(d) => d, None => old(self).display_name }),
            final(self).input_cost_per_1k == (match input_cost_per_1k {
                Some(c) => c,
                None => old(self).input_cost_per_1k,
            }),
            final(self).output_cost_per_1k == (match output_cost_per_1k {
                Some(c) => c,
                None => old(self).output_cost_per_1k,
            }),
            final(self).max_context == (match max_context { Some(m) => m, None => old(self).max_context }),
            final(self).supports_tools == (match supports_tools { Some(t) => t, None => old(self).supports_tools }),
            final(self).supports_vision == (match supports_vision {
                Some(v) => v,
                None => old(self).supports_vision,
            }),
            final(self).is_active == (match is_active { Some(a) => a, None => old(self).is_active }),
            final(self).created_at == old(self).created_at,
            final(self).updated_at == now,
    {
        if let Some(d) = display_name {
            self.display_name = d;
        }
        if let Some(c) = input_cost_per_1k {
            self.input_cost_per_1k = c;
        }
        if let Some(c) = output_cost_per_1k {
            self.output_cost_per_1k = c;
        }
        if let Some(m) = max_context {
            self.max_context = m;
        }
        if let Some(t) = supports_tools {
            self.supports_tools = t;
        }
        if let Some(v) = supports_vision {
            self.supports_vision = v;
        }
        if let Some(a) = is_active {
            self.is_active = a;
        }
        self.updated_at = now;
    }
}

impl ModelInfo {
    /// Every field of the stored model.
    pub fn from_model(model: Model) -> (r: ModelInfo)
        ensures
            r.id == model.id,
            r.provider_config_id == model.provider_config_id,
            r.model_id@ == model.model_id@,
            r.display_name == model.display_name,
            r.input_cost_per_1k == model.input_cost_per_1k,
            r.output_cost_per_1k == model.output_cost_per_1k,
            r.max_context == model.max_context,
            r.supports_tools == model.supports_tools,
            r.supports_vision == model.supports_vision,
            r.is_active == model.is_active,
            r.created_at == model.created_at,
            r.updated_at == model.updated_at,
    {
        ModelInfo {
            id: model.id,
            provider_config_id: model.provider_config_id,
            model_id: model.model_id,
            display_name: model.display_name,
            input_cost_per_1k: model.input_cost_per_1k,
            output_cost_per_1k: model.output_cost_per_1k,
            max_context: model.max_context,
            supports_tools: model.supports_tools,
            supports_vision: model.supports_vision,
            is_active: model.is_active,
            created_at: model.created_at,
            updated_at: model.updated_at,
        }
    }
}

} // verus!
