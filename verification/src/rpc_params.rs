use vstd::prelude::*;

verus! {

/// The raw parameters of a forwarded JSON-RPC call: the exact JSON text the
/// client supplied, or nothing when the call had no parameters. Forwarding
/// serializes this back verbatim, so forwarded calls are byte-equivalent to
/// what the client sent, aside from transport framing.
#[derive(Clone, Debug, PartialEq, Eq)]
pub struct RawParams {
    pub json: Option<String>,
}

impl RawParams {
    /// Wraps the client's parameter text.
    pub fn new(json: Option<String>) -> (r: RawParams)
        ensures
            r.json == json,
    {
        RawParams { json }
    }

    /// The text sent upstream: exactly the text the client supplied.
    pub fn to_rpc_params(&self) -> (r: Option<String>)
        ensures
            match (r, &self.json) {
                (Some(a), Some(b)) => a@ == b@,
                (None, None) => true,
                _ => false,
            },
    {
        match &self.json {
            Some(s) => Some(s.clone()),
            None => None,
        }
    }
}

} // verus!
