use std::collections::HashMap;
use vstd::prelude::*;

use crate::client::ClientAction;

verus! {

/// A bus message as the client reads and writes it: the `url` header names
/// what to fetch; `send` puts the response body into `payload`, or the text of
/// its error into the `error` header.
pub struct Envelope {
    pub headers: HashMap<String, String>,
    pub payload: Vec<u8>,
}

/// Sets `key` to `value` in a header map with `HashMap::insert`.
///
/// The contract claims that afterwards the entry with the text `key` holds
/// `value` and every entry with another text is as it was.
#[verifier::external_body]
fn set_header(headers: &mut HashMap<String, String>, key: &str, value: String)
    ensures
        forall|t: Seq<char>|
            #[trigger] crate::config::setting(final(headers)@, t) == if t == key@ {
                Some(value@)
            } else {
                crate::config::setting(old(headers)@, t)
            },
{
    headers.insert(key.to_string(), value);
}

/// The action ends a `send`.
pub open spec fn ends_send(a: crate::client::ActionModel) -> bool {
    a is Delivered || a is Failed
}

impl Envelope {
    /// An envelope with no headers, carrying `payload`.
    pub fn new(payload: Vec<u8>) -> (e: Envelope)
        ensures
            e.headers@ == Map::<String, String>::empty(),
            e.payload@ == payload@,
    {
        Envelope { headers: HashMap::new(), payload }
    }

    /// The text of the `url` header, if any.
    pub fn url(&self) -> (u: Option<String>)
        ensures
            crate::client::text_of(u) == crate::config::setting(self.headers@, "url"@),
    {
        crate::config::config_value(&self.headers, "url")
    }

    /// Records the outcome that ended a `send`: a delivered body becomes the
    /// payload and leaves the headers alone, and the result is `true`; a
    /// failure sets the `error` header to its text, changes no other header
    /// and leaves the payload alone, and the result is `false`.
    pub fn record(&mut self, outcome: ClientAction) -> (ok: bool)
        requires
            ends_send(outcome@),
        ensures
            ok == outcome@ is Delivered,
            outcome@ matches crate::client::ActionModel::Delivered(body) ==> {
                &&& final(self).payload@ == body
                &&& final(self).headers == old(self).headers
            },
            outcome@ matches crate::client::ActionModel::Failed(text) ==> {
                &&& final(self).payload@ == old(self).payload@
                &&& forall|t: Seq<char>|
                    #[trigger] crate::config::setting(final(self).headers@, t) == if t
                        == "error"@ {
                        Some(text)
                    } else {
                        crate::config::setting(old(self).headers@, t)
                    }
            },
    {
        match outcome {
            ClientAction::Delivered(body) => {
                self.payload = body;
                true
            },
            ClientAction::Failed(text) => {
                set_header(&mut self.headers, "error", text);
                false
            },
            _ => vstd::pervasive::unreached(),
        }
    }
}

} // verus!
