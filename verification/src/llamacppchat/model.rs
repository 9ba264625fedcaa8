//! What a local model is and what every model can do.

use vstd::prelude::*;
use crate::messages::ChatRequestMessage;
use crate::text::{push_str, to_owned_string};
use crate::text::str_eq;
use super::mixtral::MixtralModel;
use super::orca::OrcaModel;

verus! {

/// Where a model comes from and how much context it takes.
#[derive(Debug)]
pub struct ModelInfo {
    pub model_type: String,
    pub model_file: String,
    pub url: String,
    pub max_context: usize,
}

impl ModelInfo {
    /// A copy with the same fields.
    pub fn duplicate(&self) -> (r: ModelInfo)
        ensures
            r.model_type@ == self.model_type@,
            r.model_file@ == self.model_file@,
            r.url@ == self.url@,
            r.max_context == self.max_context,
    {
        ModelInfo {
            model_type: self.model_type.clone(),
            model_file: self.model_file.clone(),
            url: self.url.clone(),
            max_context: self.max_context,
        }
    }
}

/// A local model family: how it is prompted and what it is.
pub trait Model {
    /// The instruction prompt for a conversation.
    fn to_instruct_string(&self, msgs: &Vec<ChatRequestMessage>) -> String;

    /// The model's description.
    fn model_info(&self) -> ModelInfo;
}

/// The local model used when none is named.
pub const AGENTHOST_DEFAULT_MODEL: &'static str = "orca";

/// The local models the host can run.
pub enum LocalModel {
    Orca(OrcaModel),
    Mixtral(MixtralModel),
}

/// Which model a name selects: `mixtral` selects Mixtral, any other name Orca.
pub open spec fn selects_mixtral(name: Seq<char>) -> bool {
    name == "mixtral"@
}

/// The model a configured name selects.
pub fn model_for_name(model_name: &str) -> (m: LocalModel)
    ensures
        selects_mixtral(model_name@) <==> m is Mixtral,
        m matches LocalModel::Orca(o) ==> o.info_view() == OrcaModel::spec_info(),
        m matches LocalModel::Mixtral(x) ==> x.info_view() == MixtralModel::spec_info(),
{
    if str_eq(model_name, "mixtral") {
        LocalModel::Mixtral(MixtralModel::new())
    } else {
        LocalModel::Orca(OrcaModel::new())
    }
}

/// The path a model file is kept at: `models/<file>`.
pub open spec fn model_path(model_file: Seq<char>) -> Seq<char> {
    "models/"@ + model_file
}

/// The path of a model's file.
pub fn model_file_path(info: &ModelInfo) -> (p: String)
    ensures
        p@ == model_path(info.model_file@),
{
    let mut p = to_owned_string("models/");
    push_str(&mut p, info.model_file.as_str());
    p
}

/// The fields of a model description as values.
pub open spec fn info_fields(i: &ModelInfo) -> (Seq<char>, Seq<char>, Seq<char>, nat) {
    (i.model_type@, i.model_file@, i.url@, i.max_context as nat)
}

} // verus!
