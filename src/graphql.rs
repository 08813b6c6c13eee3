use vstd::prelude::*;

verus! {

/// The actions part of the GraphQL mutation root.
#[derive(Debug, Default)]
pub struct ActionMutation;

impl ActionMutation {
    /// Creates an action and names what was done.
    pub fn create_action(&self) -> (r: String)
        ensures
            r@ == "create"@,
    {
        "create".to_owned()
    }
}

/// The GraphQL mutation root.
#[derive(Debug, Default)]
pub struct Mutation(pub ActionMutation);

} // verus!
