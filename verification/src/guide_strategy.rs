use vstd::prelude::*;

verus! {

/// The per-message intent extracted from a pub/sub request, before it is
/// resolved against the ephemeral cluster. The boolean says whether the
/// message is a subscription.
#[derive(Clone, Debug, PartialEq, Eq)]
pub enum GuideStrategy {
    /// Forward to chain.
    Chain,
    /// Forward to ephemeral.
    Ephemeral,
    /// Forward to both chain and ephemeral.
    Both,
    /// Forward to ephemeral if that validator has the account at the given
    /// address, otherwise to chain.
    TryEphemeralForAccount(String, bool),
    /// Forward to ephemeral if that validator has the program at the given
    /// address, otherwise to chain.
    TryEphemeralForProgram(String, bool),
    /// Forward to ephemeral if that validator has the transaction
    /// signature, otherwise to chain.
    TryEphemeralForSignature(String, bool),
}

/// The mathematical content of a `GuideStrategy`.
pub enum GuideStrategyModel {
    Chain,
    Ephemeral,
    Both,
    TryEphemeralForAccount(Seq<char>, bool),
    TryEphemeralForProgram(Seq<char>, bool),
    TryEphemeralForSignature(Seq<char>, bool),
}

impl View for GuideStrategy {
    type V = GuideStrategyModel;

    open spec fn view(&self) -> GuideStrategyModel {
        match self {
            GuideStrategy::Chain => GuideStrategyModel::Chain,
            GuideStrategy::Ephemeral => GuideStrategyModel::Ephemeral,
            GuideStrategy::Both => GuideStrategyModel::Both,
            GuideStrategy::TryEphemeralForAccount(addr, is_sub) => GuideStrategyModel::TryEphemeralForAccount(
                addr@,
                *is_sub,
            ),
            GuideStrategy::TryEphemeralForProgram(addr, is_sub) => GuideStrategyModel::TryEphemeralForProgram(
                addr@,
                *is_sub,
            ),
            GuideStrategy::TryEphemeralForSignature(sig, is_sub) => GuideStrategyModel::TryEphemeralForSignature(
                sig@,
                *is_sub,
            ),
        }
    }
}

/// Where one pub/sub request is finally sent.
#[derive(Clone, Copy, Debug, PartialEq, Eq, Structural)]
pub enum RequestEndpoint {
    /// Forward to chain only.
    Chain,
    /// Forward to ephemeral only.
    Ephemeral,
    /// Forward to both chain and ephemeral.
    Both,
    /// The request cannot be routed; an error case.
    Unroutable,
}

/// The method name and first parameter that a pub/sub JSON payload carries:
/// `None` when the text is not a JSON object with a string `method`;
/// otherwise the method, and the first element of `params` when it is a
/// string. A function of the text alone.
pub uninterp spec fn request_parts_of(s: Seq<char>) -> Option<(Seq<char>, Option<Seq<char>>)>;

/// Relies on serde_json: parses the text as JSON and picks out the
/// `method` string and the first `params` element when it is a string.
#[verifier::external_body]
fn parse_pubsub_request(msg: &str) -> (r: Option<(String, Option<String>)>)
    ensures
        match r {
            Some(parts) => request_parts_of(msg@) matches Some(p) && p.0 == parts.0@ && (match (
                parts.1,
                p.1,
            ) {
                (Some(a), Some(b)) => a@ == b,
                (None, None) => true,
                _ => false,
            }),
            None => request_parts_of(msg@) is None,
        },
{
    let v: serde_json::Value = match serde_json::from_str(msg) {
        Ok(v) => v,
        Err(_) => return None,
    };
    let method = match v.get("method").and_then(|m| m.as_str()) {
        Some(m) => m.to_string(),
        None => return None,
    };
    let param = v.get("params").and_then(|p| p.get(0)).and_then(|p| p.as_str()).map(
        |s| s.to_string(),
    );
    Some((method, param))
}

/// Whether a string's text equals a literal's.
pub(crate) fn str_is(s: &String, lit: &str) -> (r: bool)
    ensures
        r == (s@ == lit@),
{
    *s == lit.to_owned()
}

/// The strategy a pub/sub payload maps to, given its method and first
/// parameter: the three subscribe forms that carry an address or signature
/// try the ephemeral validator; slot, root and block subscriptions and all
/// unsubscribe forms go to both clusters; everything else — unknown
/// methods, payloads that did not parse, and subscribe forms missing their
/// parameter — goes to chain.
pub open spec fn strategy_model_of(parts: Option<(Seq<char>, Option<Seq<char>>)>) -> GuideStrategyModel {
    match parts {
        None => GuideStrategyModel::Chain,
        Some((method, param)) => if method == "accountSubscribe"@ {
            match param {
                Some(p) => GuideStrategyModel::TryEphemeralForAccount(p, true),
                None => GuideStrategyModel::Chain,
            }
        } else if method == "programSubscribe"@ {
            match param {
                Some(p) => GuideStrategyModel::TryEphemeralForProgram(p, true),
                None => GuideStrategyModel::Chain,
            }
        } else if method == "signatureSubscribe"@ {
            match param {
                Some(p) => GuideStrategyModel::TryEphemeralForSignature(p, true),
                None => GuideStrategyModel::Chain,
            }
        } else if method == "slotSubscribe"@ || method == "rootSubscribe"@ || method
            == "blockSubscribe"@ || method == "accountUnsubscribe"@ || method
            == "programUnsubscribe"@ || method == "signatureUnsubscribe"@ || method
            == "slotUnsubscribe"@ || method == "rootUnsubscribe"@ || method
            == "blockUnsubscribe"@ {
            GuideStrategyModel::Both
        } else {
            GuideStrategyModel::Chain
        },
    }
}

/// Maps one pub/sub text payload to its guide strategy, per
/// `strategy_model_of` over the payload's method and first parameter.
pub fn guide_strategy_from_pubsub_msg(msg: &str) -> (r: GuideStrategy)
    ensures
        r@ == strategy_model_of(request_parts_of(msg@)),
{
    let parts = match parse_pubsub_request(msg) {
        Some(parts) => parts,
        None => {
            return GuideStrategy::Chain;
        },
    };
    let (method, param) = parts;
    if str_is(&method, "accountSubscribe") {
        match param {
            Some(p) => GuideStrategy::TryEphemeralForAccount(p, true),
            None => GuideStrategy::Chain,
        }
    } else if str_is(&method, "programSubscribe") {
        match param {
            Some(p) => GuideStrategy::TryEphemeralForProgram(p, true),
            None => GuideStrategy::Chain,
        }
    } else if str_is(&method, "signatureSubscribe") {
        match param {
            Some(p) => GuideStrategy::TryEphemeralForSignature(p, true),
            None => GuideStrategy::Chain,
        }
    } else if str_is(&method, "slotSubscribe") || str_is(&method, "rootSubscribe") || str_is(
        &method,
        "blockSubscribe",
    ) || str_is(&method, "accountUnsubscribe") || str_is(&method, "programUnsubscribe") || str_is(
        &method,
        "signatureUnsubscribe",
    ) || str_is(&method, "slotUnsubscribe") || str_is(&method, "rootUnsubscribe") || str_is(
        &method,
        "blockUnsubscribe",
    ) {
        GuideStrategy::Both
    } else {
        GuideStrategy::Chain
    }
}

} // verus!
