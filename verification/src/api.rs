//! Bodies and routes of the calls made to the story server.

use vstd::prelude::*;

verus! {

/// Asks the server to forget a game.
pub struct ClearRequest {
    pub game_id: String,
}

/// One question put to a suspect, with the two d20 rolls of the polygraph.
pub struct InterrogateRequest {
    pub name: String,
    pub game_id: String,
    pub message: String,
    pub our_roll: u8,
    pub sus_roll: u8,
}

/// What the server answers to `interrogate` and to `clear`.
pub struct InterrogateResponse {
    pub response: String,
}

/// The three calls that the game makes to the story server.
#[derive(Clone, Copy, PartialEq, Eq, Structural, Debug)]
pub enum Endpoint {
    Interrogate,
    Clear,
    Start,
}

impl Endpoint {
    /// The path of the call, appended to the server's base address.
    pub open spec fn route_spec(self) -> Seq<char> {
        match self {
            Endpoint::Interrogate => "interrogate"@,
            Endpoint::Clear => "clear"@,
            Endpoint::Start => "start"@,
        }
    }

    /// Whether the call's reply is read as an `InterrogateResponse`.
    pub open spec fn has_reply_spec(self) -> bool {
        match self {
            Endpoint::Start => false,
            _ => true,
        }
    }

    /// Whether the call carries a JSON body.
    pub open spec fn has_body_spec(self) -> bool {
        match self {
            Endpoint::Start => false,
            _ => true,
        }
    }

    pub fn route(&self) -> (r: &'static str)
        ensures
            r@ == self.route_spec(),
            *self == Endpoint::Interrogate ==> r@ == "interrogate"@,
            *self == Endpoint::Clear ==> r@ == "clear"@,
            *self == Endpoint::Start ==> r@ == "start"@,
    {
        match self {
            Endpoint::Interrogate => "interrogate",
            Endpoint::Clear => "clear",
            Endpoint::Start => "start",
        }
    }

    pub fn has_reply(&self) -> (b: bool)
        ensures
            b == self.has_reply_spec(),
            b == (*self != Endpoint::Start),
    {
        match self {
            Endpoint::Start => false,
            _ => true,
        }
    }

    pub fn has_body(&self) -> (b: bool)
        ensures
            b == self.has_body_spec(),
            b == (*self != Endpoint::Start),
    {
        match self {
            Endpoint::Start => false,
            _ => true,
        }
    }

    /// The address posted to: the base address followed by the route.
    pub fn url(&self, base: &str) -> (u: String)
        ensures
            u@ == base@ + self.route_spec(),
    {
        let mut u = String::from_str(base);
        u.append(self.route());
        u
    }
}

impl InterrogateResponse {
    /// The text that `interrogate` and `clear` hand back to the game.
    pub fn into_reply(self) -> (r: String)
        ensures
            r == self.response,
    {
        self.response
    }
}

} // verus!
