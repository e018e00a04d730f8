use vstd::prelude::*;

use crate::endpoint;

verus! {

/// The path of the model catalogue, below `BASE_URL`.
pub const API_URL: &'static str = "v1/models";

/// A model that the API offers.
#[derive(Debug, Clone)]
pub struct Model {
    pub id: String,
    pub object: String,
    pub owned_by: String,
    pub permission: Vec<String>,
}

/// The catalogue of models.
#[derive(Debug, Clone)]
pub struct ModelList {
    pub data: Vec<Model>,
    pub object: String,
}

impl From<Model> for String {
    /// A model stands for its identifier.
    fn from(value: Model) -> (r: String)
        ensures
            r == value.id,
    {
        value.id
    }
}

impl vstd::std_specs::convert::FromSpecImpl<Model> for String {
    open spec fn obeys_from_spec() -> bool {
        true
    }

    open spec fn from_spec(value: Model) -> String {
        value.id
    }
}

/// The URL of the model catalogue.
pub fn models_url() -> (r: String)
    ensures
        r@ == crate::BASE_URL@ + seq!['/'] + API_URL@,
{
    endpoint(API_URL)
}

/// The URL of the model with identifier `model_id`.
pub fn model_url(model_id: &str) -> (r: String)
    ensures
        r@ == crate::BASE_URL@ + seq!['/'] + API_URL@ + seq!['/'] + model_id@,
{
    let mut r = endpoint(API_URL);
    proof {
        reveal_strlit("/");
    }
    r.append("/");
    r.append(model_id);
    r
}

} // verus!
