//! The two namespaces of identities.

use vstd::prelude::*;

verus! {

/// Which namespace an identity belongs to. The same id under the two
/// scopes names two unrelated records.
#[derive(Clone, Copy, Debug, PartialEq, Eq, Structural)]
pub enum Scope {
    User,
    Server,
}

impl Scope {
    /// The text that names this scope.
    pub open spec fn label(self) -> Seq<char> {
        match self {
            Scope::User => "user"@,
            Scope::Server => "server"@,
        }
    }

    /// The other scope.
    pub open spec fn other(self) -> Scope {
        match self {
            Scope::User => Scope::Server,
            Scope::Server => Scope::User,
        }
    }

    /// The text that names this scope.
    pub fn name(self) -> (text: &'static str)
        ensures
            text@ == self.label(),
    {
        match self {
            Scope::User => "user",
            Scope::Server => "server",
        }
    }
}

/// The scope that a memory type names, if it names one.
pub open spec fn scope_of(memory_type: Seq<char>) -> Option<Scope> {
    if memory_type == Scope::User.label() {
        Some(Scope::User)
    } else if memory_type == Scope::Server.label() {
        Some(Scope::Server)
    } else {
        None
    }
}

/// The two labels are different texts.
pub proof fn lemma_labels_differ()
    ensures
        Scope::User.label() != Scope::Server.label(),
{
    reveal_strlit("user");
    reveal_strlit("server");
    assert("user"@.len() == 4);
    assert("server"@.len() == 6);
}

/// Every scope is named by its own label, and by no other text.
pub proof fn lemma_scope_of_label(scope: Scope)
    ensures
        scope_of(scope.label()) == Some(scope),
{
    lemma_labels_differ();
}

/// Reads a memory type: `"user"` and `"server"` name a scope, nothing
/// else does.
pub fn parse_scope(memory_type: &str) -> (scope: Option<Scope>)
    ensures
        scope == scope_of(memory_type@),
{
    let given = memory_type.to_string();
    if given == "user".to_string() {
        Some(Scope::User)
    } else if given == "server".to_string() {
        Some(Scope::Server)
    } else {
        None
    }
}

} // verus!
