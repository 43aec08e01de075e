//! Synthetic request bodies.
use vstd::prelude::*;
use crate::randomizer::{generate_random_string, is_charset_text, random_u64};
use crate::text::{decimal_spec, decimal_text};

verus! {

/// Length of every generated text field.
pub const RANDOM_FIELD_LEN: usize = 10;

/// Number of entries in `target_ref`.
pub const TARGET_REF_COUNT: usize = 3;

/// The body of a create request.
#[derive(Debug)]
pub struct SagaRequest {
    pub target: String,
    pub target_id: String,
    pub target_ref: Vec<String>,
}

/// A generated text field: ten letters or digits.
pub open spec fn is_random_field(s: Seq<char>) -> bool {
    s.len() == RANDOM_FIELD_LEN && is_charset_text(s)
}

impl SagaRequest {
    /// The shape every generated body has: random text fields, a decimal
    /// 64-bit identifier and exactly three references.
    pub open spec fn is_generated(&self) -> bool {
        &&& is_random_field(self.target@)
        &&& exists|n: u64| self.target_id@ == #[trigger] decimal_spec(n as nat)
        &&& self.target_ref@.len() == TARGET_REF_COUNT
        &&& forall|i: int| 0 <= i < TARGET_REF_COUNT ==> is_random_field(#[trigger] self.target_ref@[i]@)
    }

    /// A fresh body with random content.
    pub fn random() -> (r: SagaRequest)
        ensures
            r.is_generated(),
    {
        let target = generate_random_string(RANDOM_FIELD_LEN);
        let n = random_u64();
        let target_id = decimal_text(n);
        let mut target_ref: Vec<String> = Vec::new();
        target_ref.push(generate_random_string(RANDOM_FIELD_LEN));
        target_ref.push(generate_random_string(RANDOM_FIELD_LEN));
        target_ref.push(generate_random_string(RANDOM_FIELD_LEN));
        let r = SagaRequest { target, target_id, target_ref };
        assert(r.target_id@ == decimal_spec(n as nat));
        r
    }
}

} // verus!
