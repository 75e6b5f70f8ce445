//! The model listing returned to OpenAI clients.
use vstd::prelude::*;

verus! {

/// A model entry of the listing.
#[derive(Debug, Clone)]
pub struct ModelInfo {
    pub id: String,
    pub object: String,
    pub owned_by: String,
    pub created: i64,
}

/// The listing of models.
#[derive(Debug, Clone)]
pub struct ModelListResponse {
    pub object: String,
    pub data: Vec<ModelInfo>,
}

/// The creation time reported for every listed model.
pub const LISTED_MODEL_CREATED: i64 = 1686935002;

impl ModelInfo {
    /// The entry for model `id` served by provider `owned_by`.
    pub fn listed(id: String, owned_by: String) -> (r: ModelInfo)
        ensures
            r.id@ == id@,
            r.object@ == "model"@,
            r.owned_by@ == owned_by@,
            r.created == LISTED_MODEL_CREATED,
    {
        ModelInfo { id, object: "model".to_string(), owned_by, created: LISTED_MODEL_CREATED }
    }
}

impl ModelListResponse {
    /// The listing of `models`.
    pub fn list(models: Vec<ModelInfo>) -> (r: ModelListResponse)
        ensures
            r.object@ == "list"@,
            r.data@ == models@,
    {
        ModelListResponse { object: "list".to_string(), data: models }
    }
}

} // verus!
