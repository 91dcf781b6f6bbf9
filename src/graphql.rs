use vstd::prelude::*;

verus! {

/// Root of the read-only query schema served beside the bot.
pub struct Query;

impl Query {
    /// The version of the query interface.
    #[allow(non_snake_case)]
    pub fn apiVersion() -> (r: &'static str)
        ensures
            r@ == "1.0"@,
    {
        "1.0"
    }
}

} // verus!
