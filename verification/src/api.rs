//! Request and response payloads of the surrounding service, with the
//! checks the handlers apply to them.

use vstd::prelude::*;

verus! {

/// The body of a battle-creation request. Both creature identifiers are
/// optional at the wire level; a request missing either one is rejected as
/// a bad request before any validation runs.
#[derive(Clone, Debug, PartialEq)]
pub struct CreateBattleRequest {
    /// Identifier of the first creature, if the client sent one.
    pub monster_a: Option<String>,
    /// Identifier of the second creature, if the client sent one.
    pub monster_b: Option<String>,
}

impl CreateBattleRequest {
    /// The two identifiers, if both are present.
    pub fn ids(&self) -> (r: Option<(String, String)>)
        ensures
            r is Some <==> self.monster_a is Some && self.monster_b is Some,
            r is Some ==> r->Some_0.0@ == self.monster_a->Some_0@,
            r is Some ==> r->Some_0.1@ == self.monster_b->Some_0@,
    {
        match (&self.monster_a, &self.monster_b) {
            (Some(a), Some(b)) => Some((a.clone(), b.clone())),
            _ => None,
        }
    }
}

/// A plain message payload, used for health checks and error bodies.
#[derive(Clone, Debug, PartialEq)]
pub struct Response {
    /// The message carried to the client.
    pub message: String,
}

impl Response {
    /// Wrap a message.
    pub fn new(message: String) -> (r: Response)
        ensures
            r.message@ == message@,
    {
        Response { message }
    }
}

} // verus!
