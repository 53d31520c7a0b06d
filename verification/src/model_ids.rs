use vstd::prelude::*;

verus! {

/// GTA's model-info table has this many slots.
pub const MODEL_ID_LIMIT: i32 = 20000;

/// A model ID that indexes GTA's model-info table.
pub open spec fn valid_model_id(model_id: int) -> bool {
    0 <= model_id < MODEL_ID_LIMIT
}

pub fn is_valid_model_id(model_id: i32) -> (valid: bool)
    ensures
        valid == valid_model_id(model_id as int),
{
    model_id >= 0 && model_id < MODEL_ID_LIMIT
}

/// GTA's model-info table has 20000 slots.
pub proof fn lemma_documented_constants()
    ensures
        MODEL_ID_LIMIT == 0x4E20,
{
}

} // verus!
