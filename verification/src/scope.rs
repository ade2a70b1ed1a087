//! Token scopes: the audiences for which a bearer token can be requested.

use vstd::prelude::*;

verus! {

/// The resource audience a token is requested for. Each variant stands for
/// exactly one scope string.
#[derive(Debug, Clone, Copy, PartialEq, Eq, Hash, Structural)]
pub enum TokenScope {
    Management,
}

impl TokenScope {
    /// The scope string of this audience, as a sequence of characters.
    pub open spec fn scope_spec(self) -> Seq<char> {
        match self {
            TokenScope::Management => "https://management.azure.com/.default"@,
        }
    }

    /// The number under which tokens of this scope are kept.
    pub open spec fn spec_code(self) -> u64 {
        match self {
            TokenScope::Management => 0,
        }
    }

    /// The number under which tokens of this scope are kept.
    pub fn code(self) -> (code: u64)
        ensures
            code == self.spec_code(),
    {
        match self {
            TokenScope::Management => 0,
        }
    }

    /// Two scopes with the same number are the same scope.
    pub proof fn lemma_code_injective()
        ensures
            forall|a: TokenScope, b: TokenScope|
                #[trigger] a.spec_code() == #[trigger] b.spec_code() ==> a == b,
    {
    }

    /// The fixed scope string that is sent to the token endpoint.
    pub fn scope(self) -> (s: &'static str)
        ensures
            s@ == self.scope_spec(),
    {
        match self {
            TokenScope::Management => "https://management.azure.com/.default",
        }
    }
}

} // verus!
