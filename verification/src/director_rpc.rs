use vstd::prelude::*;

use vstd::string::StrSliceExecFns;

use base64::Engine;
use bincode::Options;

use crate::account_chain_snapshot::{
    resolvable, resolved_model, AccountChainSnapshotProvider,
};
use crate::delegation_record_parser::DelegationRecordParser;
use crate::endpoint::{endpoint_of, Endpoint};
use crate::errors::TranswiseResult;
use crate::provider::AccountProvider;
use crate::pubkey::Pubkey;
use crate::transaction_accounts_holder::TransactionAccountsHolder;
use crate::transaction_accounts_snapshot::{
    pubkey_views, TransactionAccountsSnapshot, TransactionAccountsSnapshotModel,
};
use crate::transaction_status::{
    binary_encoding_of, MessageHeader, TransactionBinaryEncoding, UiTransactionEncoding,
};

verus! {

/// The JSON-RPC error code for invalid parameters.
pub const INVALID_PARAMS_CODE: i64 = -32602;

/// The server error codes the router returns, beyond invalid parameters.
#[derive(Clone, Copy, Debug, PartialEq, Eq, Structural)]
pub enum ServerErrorCode {
    /// Forwarding to an upstream RPC failed.
    RpcClientError,
    /// The information needed to pick an endpoint could not be fetched.
    FailedToFetchEndpointInformation,
    /// The transaction is unroutable.
    TransactionUnroutable,
}

impl ServerErrorCode {
    /// The numeric JSON-RPC code of this error.
    pub fn code(&self) -> (r: i64)
        ensures
            self is RpcClientError ==> r == -32000,
            self is FailedToFetchEndpointInformation ==> r == -32001,
            self is TransactionUnroutable ==> r == -32002,
    {
        match self {
            ServerErrorCode::RpcClientError => -32000,
            ServerErrorCode::FailedToFetchEndpointInformation => -32001,
            ServerErrorCode::TransactionUnroutable => -32002,
        }
    }
}

/// Why the router rejected a `sendTransaction` call.
#[derive(Clone, Debug, PartialEq, Eq)]
pub enum RpcRouteError {
    /// The encoding name is unsupported, or the transaction data is
    /// oversized or does not decode; JSON-RPC code -32602.
    InvalidParams { message: String },
    /// The chain state needed to pick an endpoint could not be fetched;
    /// code -32001.
    FailedToFetchEndpointInformation { message: String },
    /// The classifier found the transaction unroutable; carries the full
    /// verdict as structured diagnostic data; code -32002.
    TransactionUnroutable { endpoint: Endpoint },
}

impl RpcRouteError {
    /// The numeric JSON-RPC code of this error.
    pub fn code(&self) -> (r: i64)
        ensures
            self is InvalidParams ==> r == -32602,
            self is FailedToFetchEndpointInformation ==> r == -32001,
            self is TransactionUnroutable ==> r == -32002,
    {
        match self {
            RpcRouteError::InvalidParams { .. } => INVALID_PARAMS_CODE,
            RpcRouteError::FailedToFetchEndpointInformation { .. } => -32001,
            RpcRouteError::TransactionUnroutable { .. } => -32002,
        }
    }
}

/// What a base58 text decodes to, a function of the text alone; `None`
/// when the text is not valid base58.
pub uninterp spec fn base58_decode_of(s: Seq<char>) -> Option<Seq<u8>>;

/// What a standard base64 text decodes to, a function of the text alone;
/// `None` when the text is not valid base64.
pub uninterp spec fn base64_decode_of(s: Seq<char>) -> Option<Seq<u8>>;

/// Relies on bs58: decodes base58 text into bytes.
#[verifier::external_body]
fn bs58_decode(s: &str) -> (r: Option<Vec<u8>>)
    ensures
        match r {
            Some(v) => base58_decode_of(s@) == Some(v@),
            None => base58_decode_of(s@) is None,
        },
{
    bs58::decode(s).into_vec().ok()
}

/// Relies on base64's standard engine: decodes base64 text into bytes.
#[verifier::external_body]
fn b64_decode(s: &str) -> (r: Option<Vec<u8>>)
    ensures
        match r {
            Some(v) => base64_decode_of(s@) == Some(v@),
            None => base64_decode_of(s@) is None,
        },
{
    base64::engine::general_purpose::STANDARD.decode(s).ok()
}

/// The static account keys and message header that a wire transaction
/// deserializes to, a function of the bytes alone; `None` when the bytes
/// are not a well-formed transaction.
pub uninterp spec fn versioned_transaction_parts_of(bytes: Seq<u8>) -> Option<
    (Seq<Seq<u8>>, (u8, u8, u8)),
>;

/// The pieces of a deserialized transaction that routing needs: the static
/// account keys of its message, and the message header.
#[derive(Clone, Debug, PartialEq, Eq)]
pub struct TransactionParts {
    pub account_keys: Vec<Pubkey>,
    pub header: MessageHeader,
}

/// Relies on bincode and solana_sdk: deserializes a versioned transaction
/// (fixed-integer encoding, limited to the wire packet size, trailing
/// bytes allowed) and picks out its static account keys and header.
#[verifier::external_body]
fn deserialize_versioned_transaction(bytes: &[u8]) -> (r: Option<TransactionParts>)
    ensures
        match r {
            Some(parts) => versioned_transaction_parts_of(bytes@) == Some(
                (
                    pubkey_views(parts.account_keys@),
                    (
                        parts.header.num_required_signatures,
                        parts.header.num_readonly_signed_accounts,
                        parts.header.num_readonly_unsigned_accounts,
                    ),
                ),
            ),
            None => versioned_transaction_parts_of(bytes@) is None,
        },
{
    let tx: solana_sdk::transaction::VersionedTransaction = bincode::options().with_limit(
        1232,
    ).with_fixint_encoding().allow_trailing_bytes().deserialize(bytes).ok()?;
    let h = tx.message.header();
    let header = MessageHeader {
        num_required_signatures: h.num_required_signatures,
        num_readonly_signed_accounts: h.num_readonly_signed_accounts,
        num_readonly_unsigned_accounts: h.num_readonly_unsigned_accounts,
    };
    let account_keys = tx.message.static_account_keys().iter().map(
        |k| Pubkey { bytes: k.to_bytes() },
    ).collect();
    Some(TransactionParts { account_keys, header })
}

/// The most characters of base58 a transaction may arrive as.
pub const MAX_BASE58_SIZE: usize = 1683;

/// The most characters of base64 a transaction may arrive as.
pub const MAX_BASE64_SIZE: usize = 1644;

/// The most bytes a decoded wire transaction may occupy.
pub const MAX_WIRE_SIZE: usize = 1232;

/// The wire bytes that transaction text decodes to under a binary
/// encoding: `None` when the text is over the encoding's size limit, does
/// not decode, or decodes to more than a packet's worth of bytes.
pub open spec fn decoded_wire_of(be: TransactionBinaryEncoding, s: Seq<char>) -> Option<Seq<u8>> {
    let decoded = match be {
        TransactionBinaryEncoding::Base58 => if s.len() > MAX_BASE58_SIZE {
            None
        } else {
            base58_decode_of(s)
        },
        TransactionBinaryEncoding::Base64 => if s.len() > MAX_BASE64_SIZE {
            None
        } else {
            base64_decode_of(s)
        },
    };
    match decoded {
        Some(b) => if b.len() > MAX_WIRE_SIZE {
            None
        } else {
            Some(b)
        },
        None => None,
    }
}

/// Decodes transaction text under a binary encoding, enforcing the size
/// limits.
fn decode_transaction_data(data: &str, binary_encoding: TransactionBinaryEncoding) -> (r: Option<
    Vec<u8>,
>)
    ensures
        match r {
            Some(v) => decoded_wire_of(binary_encoding, data@) == Some(v@),
            None => decoded_wire_of(binary_encoding, data@) is None,
        },
{
    let decoded = match binary_encoding {
        TransactionBinaryEncoding::Base58 => {
            if data.unicode_len() > MAX_BASE58_SIZE {
                return None;
            }
            bs58_decode(data)
        },
        TransactionBinaryEncoding::Base64 => {
            if data.unicode_len() > MAX_BASE64_SIZE {
                return None;
            }
            b64_decode(data)
        },
    };
    match decoded {
        Some(v) => if v.len() > MAX_WIRE_SIZE {
            None
        } else {
            Some(v)
        },
        None => None,
    }
}

/// Whether the account at an index of a message is writable, per the
/// message header: among the signers, all but the trailing read-only
/// signed keys; among the rest, all but the trailing read-only unsigned
/// keys.
pub open spec fn is_writable_index(i: int, n_keys: int, h: (u8, u8, u8)) -> bool {
    if i < h.0 as int {
        i < h.0 - h.1
    } else {
        i < n_keys - h.2
    }
}

/// The writable keys among the first `i` keys, in order.
pub open spec fn writable_keys_prefix(keys: Seq<Seq<u8>>, h: (u8, u8, u8), i: int) -> Seq<Seq<u8>>
    decreases i,
{
    if i <= 0 {
        Seq::empty()
    } else {
        let rest = writable_keys_prefix(keys, h, i - 1);
        if is_writable_index(i - 1, keys.len() as int, h) {
            rest.push(keys[i - 1])
        } else {
            rest
        }
    }
}

/// The readonly keys among the first `i` keys, in order.
pub open spec fn readonly_keys_prefix(keys: Seq<Seq<u8>>, h: (u8, u8, u8), i: int) -> Seq<Seq<u8>>
    decreases i,
{
    if i <= 0 {
        Seq::empty()
    } else {
        let rest = readonly_keys_prefix(keys, h, i - 1);
        if !is_writable_index(i - 1, keys.len() as int, h) {
            rest.push(keys[i - 1])
        } else {
            rest
        }
    }
}

/// The writable keys of a message, in order.
pub open spec fn writable_keys_of(keys: Seq<Seq<u8>>, h: (u8, u8, u8)) -> Seq<Seq<u8>> {
    writable_keys_prefix(keys, h, keys.len() as int)
}

/// The readonly keys of a message, in order.
pub open spec fn readonly_keys_of(keys: Seq<Seq<u8>>, h: (u8, u8, u8)) -> Seq<Seq<u8>> {
    readonly_keys_prefix(keys, h, keys.len() as int)
}

/// Every writable key of a prefix is one of the message's keys.
proof fn lemma_writable_keys_are_keys(keys: Seq<Seq<u8>>, h: (u8, u8, u8), i: int, k: int)
    requires
        0 <= i <= keys.len(),
        0 <= k < writable_keys_prefix(keys, h, i).len(),
    ensures
        exists|j: int| 0 <= j < keys.len() && keys[j] == writable_keys_prefix(keys, h, i)[k],
    decreases i,
{
    let l = writable_keys_prefix(keys, h, i);
    let rest = writable_keys_prefix(keys, h, i - 1);
    if i > 0 {
        if k < rest.len() {
            lemma_writable_keys_are_keys(keys, h, i - 1, k);
        } else {
            assert(l[k] == keys[i - 1]);
        }
    }
}

/// Every readonly key of a prefix is one of the message's keys.
proof fn lemma_readonly_keys_are_keys(keys: Seq<Seq<u8>>, h: (u8, u8, u8), i: int, k: int)
    requires
        0 <= i <= keys.len(),
        0 <= k < readonly_keys_prefix(keys, h, i).len(),
    ensures
        exists|j: int| 0 <= j < keys.len() && keys[j] == readonly_keys_prefix(keys, h, i)[k],
    decreases i,
{
    let l = readonly_keys_prefix(keys, h, i);
    let rest = readonly_keys_prefix(keys, h, i - 1);
    if i > 0 {
        if k < rest.len() {
            lemma_readonly_keys_are_keys(keys, h, i - 1, k);
        } else {
            assert(l[k] == keys[i - 1]);
        }
    }
}

/// The header triple of message parts.
pub open spec fn header_triple(parts: TransactionParts) -> (u8, u8, u8) {
    (
        parts.header.num_required_signatures,
        parts.header.num_readonly_signed_accounts,
        parts.header.num_readonly_unsigned_accounts,
    )
}

/// Splits a message's static keys into the transaction-accounts holder:
/// writable and readonly lists per the header, and the first key as the
/// payer. A message with no keys has no payer and is rejected.
pub fn transaction_accounts_holder_from_parts(parts: &TransactionParts) -> (r: TranswiseResult<
    TransactionAccountsHolder,
>)
    ensures
        r matches Ok(holder) ==> {
            &&& parts.account_keys@.len() > 0
            &&& pubkey_views(holder.writable@) == writable_keys_of(
                pubkey_views(parts.account_keys@),
                header_triple(*parts),
            )
            &&& pubkey_views(holder.readonly@) == readonly_keys_of(
                pubkey_views(parts.account_keys@),
                header_triple(*parts),
            )
            &&& holder.payer@ == pubkey_views(parts.account_keys@)[0]
        },
        r is Err <==> parts.account_keys@.len() == 0,
        r matches Err(e) ==> e is TransactionIsMissingPayerAccount,
{
    let n = parts.account_keys.len();
    if n == 0 {
        return Err(crate::errors::TranswiseError::TransactionIsMissingPayerAccount);
    }
    let payer = parts.account_keys[0];
    let ghost keys = pubkey_views(parts.account_keys@);
    let ghost h = header_triple(*parts);
    let nrs = parts.header.num_required_signatures as usize;
    let nros = parts.header.num_readonly_signed_accounts as usize;
    let nrou = parts.header.num_readonly_unsigned_accounts as usize;
    let mut writable: Vec<Pubkey> = Vec::new();
    let mut readonly: Vec<Pubkey> = Vec::new();
    let mut i: usize = 0;
    while i < n
        invariant
            0 <= i <= n,
            n == parts.account_keys@.len(),
            keys == pubkey_views(parts.account_keys@),
            h == header_triple(*parts),
            nrs == h.0 as int,
            nros == h.1 as int,
            nrou == h.2 as int,
            pubkey_views(writable@) == writable_keys_prefix(keys, h, i as int),
            pubkey_views(readonly@) == readonly_keys_prefix(keys, h, i as int),
        decreases n - i,
    {
        let is_writable: bool = if i < nrs {
            nrs - i > nros
        } else {
            n - i > nrou
        };
        proof {
            assert(is_writable == is_writable_index(i as int, keys.len() as int, h));
        }
        let ghost prev_writable = writable@;
        let ghost prev_readonly = readonly@;
        if is_writable {
            writable.push(parts.account_keys[i]);
            proof {
                assert(pubkey_views(writable@) =~= pubkey_views(prev_writable).push(
                    keys[i as int],
                ));
            }
        } else {
            readonly.push(parts.account_keys[i]);
            proof {
                assert(pubkey_views(readonly@) =~= pubkey_views(prev_readonly).push(
                    keys[i as int],
                ));
            }
        }
        i += 1;
    }
    Ok(TransactionAccountsHolder { readonly, writable, payer })
}

/// The snapshot model that routing a message with the given key lists
/// builds: each key resolved to its model, the payer copied.
pub open spec fn routed_snapshot_model<T: AccountProvider, U: DelegationRecordParser>(
    provider: T,
    parser: U,
    readonly: Seq<Seq<u8>>,
    writable: Seq<Seq<u8>>,
    payer: Seq<u8>,
) -> TransactionAccountsSnapshotModel {
    TransactionAccountsSnapshotModel {
        readonly: Seq::new(readonly.len(), |i: int| resolved_model(provider, parser, readonly[i])),
        writable: Seq::new(writable.len(), |i: int| resolved_model(provider, parser, writable[i])),
        payer,
    }
}

/// What the router promises once the transaction text decoded to message
/// parts: a message without keys is rejected for want of a payer; and when
/// the provider cannot fail and every key is resolvable, the result is
/// exactly the classifier's verdict over the resolved snapshot —
/// unroutable verdicts as the unroutable error with the verdict attached,
/// the others as success.
pub open spec fn route_after_decode_ok<T: AccountProvider, U: DelegationRecordParser>(
    provider: T,
    parser: U,
    keys: Seq<Seq<u8>>,
    h: (u8, u8, u8),
    r: Result<Endpoint, RpcRouteError>,
) -> bool {
    if keys.len() == 0 {
        r matches Err(e) && e is FailedToFetchEndpointInformation
    } else {
        let smodel = routed_snapshot_model(
            provider,
            parser,
            readonly_keys_of(keys, h),
            writable_keys_of(keys, h),
            keys[0],
        );
        &&& (r matches Err(e) ==> (e is FailedToFetchEndpointInformation
            || e is TransactionUnroutable))
        &&& (!provider.may_fail() && (forall|j: int|
            0 <= j < keys.len() ==> resolvable(#[trigger] keys[j]))) ==> if endpoint_of(smodel)
            is Unroutable {
            r matches Err(e) && e matches RpcRouteError::TransactionUnroutable { endpoint }
                && endpoint@ == endpoint_of(smodel)
        } else {
            r matches Ok(ep) && ep@ == endpoint_of(smodel)
        }
    }
}

/// The encoding used when the client names none: base58.
pub open spec fn effective_encoding(e: Option<UiTransactionEncoding>) -> UiTransactionEncoding {
    match e {
        Some(x) => x,
        None => UiTransactionEncoding::Base58,
    }
}

/// Decodes a `sendTransaction` call's wire text into its message parts:
/// picks the binary encoding (base58 unless named; names other than base58
/// and base64 are invalid parameters), decodes under the size limits, and
/// deserializes the transaction. The process edge also uses this to learn
/// which accounts a transaction touches before fetching them.
pub fn decode_transaction(data: &String, encoding: Option<UiTransactionEncoding>) -> (r: Result<
    TransactionParts,
    RpcRouteError,
>)
    ensures
        r matches Err(e) ==> e is InvalidParams,
        binary_encoding_of(effective_encoding(encoding)) is None ==> r is Err,
        binary_encoding_of(effective_encoding(encoding)) matches Some(be) ==> match decoded_wire_of(
            be,
            data@,
        ) {
            None => r is Err,
            Some(wire) => match versioned_transaction_parts_of(wire) {
                None => r is Err,
                Some(parts) => r matches Ok(p) && pubkey_views(p.account_keys@) == parts.0
                    && header_triple(p) == parts.1,
            },
        },
{
    let tx_encoding = match encoding {
        Some(e) => e,
        None => UiTransactionEncoding::Base58,
    };
    let binary_encoding = match tx_encoding.into_binary_encoding() {
        Some(be) => be,
        None => {
            return Err(
                RpcRouteError::InvalidParams {
                    message: "unsupported encoding; supported encodings: base58, base64".to_owned(),
                },
            );
        },
    };
    let wire = match decode_transaction_data(data.as_str(), binary_encoding) {
        Some(w) => w,
        None => {
            return Err(
                RpcRouteError::InvalidParams {
                    message: "failed to decode transaction data".to_owned(),
                },
            );
        },
    };
    match deserialize_versioned_transaction(wire.as_slice()) {
        Some(p) => Ok(p),
        None => Err(
            RpcRouteError::InvalidParams {
                message: "failed to deserialize transaction".to_owned(),
            },
        ),
    }
}

/// The RPC router's core: resolves and classifies `sendTransaction` calls.
/// The server edge parses the JSON-RPC request, hands the wire text and
/// the named encoding here, and forwards the original text to whichever
/// upstream the verdict names.
pub struct DirectorRpcImpl<T: AccountProvider, U: DelegationRecordParser> {
    pub account_chain_snapshot_provider: AccountChainSnapshotProvider<T, U>,
}

impl<T: AccountProvider, U: DelegationRecordParser> DirectorRpcImpl<T, U> {
    /// Builds the router core over a chain-snapshot resolver.
    pub fn new(account_chain_snapshot_provider: AccountChainSnapshotProvider<T, U>) -> (r: Self)
        ensures
            r.account_chain_snapshot_provider == account_chain_snapshot_provider,
    {
        DirectorRpcImpl { account_chain_snapshot_provider }
    }

    /// Routes one `sendTransaction` call: picks the binary encoding
    /// (base58 unless the client names one; names other than base58 and
    /// base64 are invalid parameters), decodes and deserializes the
    /// transaction, splits out its account lists, resolves them to a
    /// snapshot and classifies it. Success is the verdict to forward on;
    /// an unroutable verdict is returned as an error carrying the verdict.
    pub fn route_send_transaction(&self, data: &String, encoding: Option<UiTransactionEncoding>)
        -> (r: Result<Endpoint, RpcRouteError>)
        ensures
            binary_encoding_of(effective_encoding(encoding)) is None ==> (r matches Err(e) && e
                is InvalidParams),
            binary_encoding_of(effective_encoding(encoding)) matches Some(be) ==> match decoded_wire_of(
                be,
                data@,
            ) {
                None => r matches Err(e) && e is InvalidParams,
                Some(wire) => match versioned_transaction_parts_of(wire) {
                    None => r matches Err(e) && e is InvalidParams,
                    Some(parts) => route_after_decode_ok(
                        self.account_chain_snapshot_provider.account_provider,
                        self.account_chain_snapshot_provider.delegation_record_parser,
                        parts.0,
                        parts.1,
                        r,
                    ),
                },
            },
    {
        let parts = match decode_transaction(data, encoding) {
            Ok(p) => p,
            Err(e) => {
                return Err(e);
            },
        };
        let ghost keys = pubkey_views(parts.account_keys@);
        let ghost h = header_triple(parts);
        let holder = match transaction_accounts_holder_from_parts(&parts) {
            Ok(holder) => holder,
            Err(_) => {
                return Err(
                    RpcRouteError::FailedToFetchEndpointInformation {
                        message: "transaction is missing payer account".to_owned(),
                    },
                );
            },
        };
        proof {
            assert forall|i: int| 0 <= i < holder.writable@.len() implies exists|j: int|
                0 <= j < keys.len() && keys[j] == #[trigger] holder.writable@[i]@ by {
                assert(holder.writable@[i]@ == pubkey_views(holder.writable@)[i]);
                lemma_writable_keys_are_keys(keys, h, keys.len() as int, i);
            }
            assert forall|i: int| 0 <= i < holder.readonly@.len() implies exists|j: int|
                0 <= j < keys.len() && keys[j] == #[trigger] holder.readonly@[i]@ by {
                assert(holder.readonly@[i]@ == pubkey_views(holder.readonly@)[i]);
                lemma_readonly_keys_are_keys(keys, h, keys.len() as int, i);
            }
        }
        let snapshot = match TransactionAccountsSnapshot::from_accounts_holder(
            &holder,
            &self.account_chain_snapshot_provider,
        ) {
            Ok(s) => s,
            Err(_) => {
                return Err(
                    RpcRouteError::FailedToFetchEndpointInformation {
                        message: "failed to fetch endpoint information".to_owned(),
                    },
                );
            },
        };
        proof {
            let provider = self.account_chain_snapshot_provider.account_provider;
            let parser = self.account_chain_snapshot_provider.delegation_record_parser;
            if !provider.may_fail() && (forall|j: int|
                0 <= j < keys.len() ==> resolvable(#[trigger] keys[j])) {
                let smodel = routed_snapshot_model(
                    provider,
                    parser,
                    readonly_keys_of(keys, h),
                    writable_keys_of(keys, h),
                    keys[0],
                );
                assert forall|i: int| 0 <= i < snapshot.writable@.len() implies snapshot@.writable[i]
                    == smodel.writable[i] by {
                    crate::account_chain_snapshot::lemma_resolved_model(
                        provider,
                        parser,
                        holder.writable@[i]@,
                        snapshot.writable@[i]@,
                    );
                }
                assert forall|i: int| 0 <= i < snapshot.readonly@.len() implies snapshot@.readonly[i]
                    == smodel.readonly[i] by {
                    crate::account_chain_snapshot::lemma_resolved_model(
                        provider,
                        parser,
                        holder.readonly@[i]@,
                        snapshot.readonly@[i]@,
                    );
                }
                assert(snapshot@.writable =~= smodel.writable);
                assert(snapshot@.readonly =~= smodel.readonly);
                assert(snapshot@ =~= smodel);
            }
        }
        let endpoint = Endpoint::from_snapshot(snapshot);
        if endpoint.is_unroutable() {
            return Err(RpcRouteError::TransactionUnroutable { endpoint });
        }
        Ok(endpoint)
    }
}

} // verus!
