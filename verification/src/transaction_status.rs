use vstd::prelude::*;

verus! {

/// A binary wire encoding that `sendTransaction` accepts.
#[derive(Clone, Copy, Debug, Eq, Hash, PartialEq, Structural)]
pub enum TransactionBinaryEncoding {
    Base58,
    Base64,
}

/// The encodings a client can name for a transaction.
#[derive(Clone, Copy, Debug, Eq, Hash, PartialEq, Structural)]
pub enum UiTransactionEncoding {
    /// Legacy name for base58, kept for RPC backwards compatibility.
    Binary,
    Base64,
    Base58,
    Json,
    JsonParsed,
}

/// The binary encoding an encoding name denotes: `Binary` and `Base58` are
/// base58, `Base64` is base64, and the JSON forms denote none.
pub open spec fn binary_encoding_of(e: UiTransactionEncoding) -> Option<TransactionBinaryEncoding> {
    match e {
        UiTransactionEncoding::Binary => Some(TransactionBinaryEncoding::Base58),
        UiTransactionEncoding::Base58 => Some(TransactionBinaryEncoding::Base58),
        UiTransactionEncoding::Base64 => Some(TransactionBinaryEncoding::Base64),
        UiTransactionEncoding::Json => None,
        UiTransactionEncoding::JsonParsed => None,
    }
}

impl UiTransactionEncoding {
    /// The binary encoding this name denotes, or `None` for the JSON
    /// forms, which `sendTransaction` rejects.
    pub fn into_binary_encoding(&self) -> (r: Option<TransactionBinaryEncoding>)
        ensures
            r == binary_encoding_of(*self),
    {
        match self {
            UiTransactionEncoding::Binary | UiTransactionEncoding::Base58 => Some(
                TransactionBinaryEncoding::Base58,
            ),
            UiTransactionEncoding::Base64 => Some(TransactionBinaryEncoding::Base64),
            _ => None,
        }
    }

    /// The encoding a wire name denotes, or `None` for any other name:
    /// such a request is rejected as invalid parameters.
    pub fn parse_name(name: &String) -> (r: Option<UiTransactionEncoding>)
        ensures
            name@ == "binary"@ ==> r == Some(UiTransactionEncoding::Binary),
            name@ == "base64"@ ==> r == Some(UiTransactionEncoding::Base64),
            name@ == "base58"@ ==> r == Some(UiTransactionEncoding::Base58),
            name@ == "json"@ ==> r == Some(UiTransactionEncoding::Json),
            name@ == "jsonParsed"@ ==> r == Some(UiTransactionEncoding::JsonParsed),
            r is None <==> (name@ != "binary"@ && name@ != "base64"@ && name@ != "base58"@
                && name@ != "json"@ && name@ != "jsonParsed"@),
    {
        proof {
            reveal_strlit("binary");
            reveal_strlit("base64");
            reveal_strlit("base58");
            reveal_strlit("json");
            reveal_strlit("jsonParsed");
            assert("binary"@[1] != "base64"@[1]);
            assert("binary"@[1] != "base58"@[1]);
            assert("base64"@[4] != "base58"@[4]);
            assert("json"@.len() != "jsonParsed"@.len());
        }
        if crate::guide_strategy::str_is(name, "binary") {
            Some(UiTransactionEncoding::Binary)
        } else if crate::guide_strategy::str_is(name, "base64") {
            Some(UiTransactionEncoding::Base64)
        } else if crate::guide_strategy::str_is(name, "base58") {
            Some(UiTransactionEncoding::Base58)
        } else if crate::guide_strategy::str_is(name, "json") {
            Some(UiTransactionEncoding::Json)
        } else if crate::guide_strategy::str_is(name, "jsonParsed") {
            Some(UiTransactionEncoding::JsonParsed)
        } else {
            None
        }
    }

    /// The wire name of this encoding, as it appears in a request's
    /// `encoding` field.
    pub fn name(&self) -> (r: &'static str)
        ensures
            self is Binary ==> r@ == "binary"@,
            self is Base64 ==> r@ == "base64"@,
            self is Base58 ==> r@ == "base58"@,
            self is Json ==> r@ == "json"@,
            self is JsonParsed ==> r@ == "jsonParsed"@,
    {
        match self {
            UiTransactionEncoding::Binary => "binary",
            UiTransactionEncoding::Base64 => "base64",
            UiTransactionEncoding::Base58 => "base58",
            UiTransactionEncoding::Json => "json",
            UiTransactionEncoding::JsonParsed => "jsonParsed",
        }
    }
}

/// How far a transaction's confirmation has progressed.
#[derive(Clone, Copy, Debug, PartialEq, Eq, Structural)]
pub enum TransactionConfirmationStatus {
    Processed,
    Confirmed,
    Finalized,
}

/// The error a failed transaction reports. Only the outside library can
/// build or read one; the router carries it through.
#[verifier::external_type_specification]
#[verifier::external_body]
pub struct ExTransactionError(solana_sdk::transaction::TransactionError);

/// The status of one transaction signature, as `getSignatureStatuses`
/// reports it.
#[derive(Clone, Debug, PartialEq, Eq)]
pub struct TransactionStatus {
    pub slot: u64,
    /// `None` means the transaction is rooted.
    pub confirmations: Option<usize>,
    pub err: Option<solana_sdk::transaction::TransactionError>,
    pub confirmation_status: Option<TransactionConfirmationStatus>,
}

/// A parsed JSON value carried through from the outside library.
#[verifier::external_type_specification]
#[verifier::external_body]
pub struct ExJsonValue(serde_json::Value);

/// Relies on serde_json's derived `Clone` for `Value`; nothing is assumed
/// of the copy.
pub assume_specification[ <serde_json::Value as Clone>::clone ](v: &serde_json::Value) -> serde_json::Value;

/// Relies on solana_sdk's derived `Clone` for `TransactionError`; nothing
/// is assumed of the copy.
pub assume_specification[ <solana_sdk::transaction::TransactionError as Clone>::clone ](
    e: &solana_sdk::transaction::TransactionError,
) -> solana_sdk::transaction::TransactionError;

/// The header of a transaction message: how many account keys are signers,
/// and how many keys at the end of each group are read-only.
#[derive(Clone, Copy, Debug, PartialEq, Eq, Structural)]
pub struct MessageHeader {
    pub num_required_signatures: u8,
    pub num_readonly_signed_accounts: u8,
    pub num_readonly_unsigned_accounts: u8,
}

/// An account of a parsed message.
#[derive(Clone, Debug, PartialEq, Eq)]
pub struct ParsedAccount {
    pub pubkey: String,
    pub writable: bool,
    pub signer: bool,
    pub source: Option<ParsedAccountSource>,
}

/// Where a parsed account entered the message.
#[derive(Clone, Copy, Debug, PartialEq, Eq, Structural)]
pub enum ParsedAccountSource {
    Transaction,
    LookupTable,
}

/// A compiled instruction, with account indexes into the message's keys.
#[derive(Clone, Debug, PartialEq, Eq)]
pub struct UiCompiledInstruction {
    pub program_id_index: u8,
    pub accounts: Vec<u8>,
    pub data: String,
    pub stack_height: Option<u32>,
}

/// An instruction that a parser recognized.
#[derive(Clone, Debug, PartialEq, Eq)]
pub struct ParsedInstruction {
    pub program: String,
    pub program_id: String,
    pub parsed: serde_json::Value,
    pub stack_height: Option<u32>,
}

/// An instruction of a known program whose content was not fully parsed.
#[derive(Clone, Debug, PartialEq, Eq)]
pub struct UiPartiallyDecodedInstruction {
    pub program_id: String,
    pub accounts: Vec<String>,
    pub data: String,
    pub stack_height: Option<u32>,
}

/// A parsed instruction, fully or partially decoded.
#[derive(Clone, Debug, PartialEq, Eq)]
pub enum UiParsedInstruction {
    Parsed(ParsedInstruction),
    PartiallyDecoded(UiPartiallyDecodedInstruction),
}

/// An instruction of a message, compiled or parsed.
#[derive(Clone, Debug, PartialEq, Eq)]
pub enum UiInstruction {
    Compiled(UiCompiledInstruction),
    Parsed(UiParsedInstruction),
}

/// An address-table lookup of a versioned message.
#[derive(Clone, Debug, PartialEq, Eq)]
pub struct UiAddressTableLookup {
    pub account_key: String,
    pub writable_indexes: Vec<u8>,
    pub readonly_indexes: Vec<u8>,
}

/// A message whose accounts and instructions were parsed.
#[derive(Clone, Debug, PartialEq, Eq)]
pub struct UiParsedMessage {
    pub account_keys: Vec<ParsedAccount>,
    pub recent_blockhash: String,
    pub instructions: Vec<UiInstruction>,
    pub address_table_lookups: Option<Vec<UiAddressTableLookup>>,
}

/// A message shown raw: keys and instructions by index.
#[derive(Clone, Debug, PartialEq, Eq)]
pub struct UiRawMessage {
    pub header: MessageHeader,
    pub account_keys: Vec<String>,
    pub recent_blockhash: String,
    pub instructions: Vec<UiCompiledInstruction>,
    pub address_table_lookups: Option<Vec<UiAddressTableLookup>>,
}

/// A transaction message, parsed or raw.
#[derive(Clone, Debug, PartialEq, Eq)]
pub enum UiMessage {
    Parsed(UiParsedMessage),
    Raw(UiRawMessage),
}

/// A transaction as the RPC surface shows it.
#[derive(Clone, Debug, PartialEq, Eq)]
pub struct UiTransaction {
    pub signatures: Vec<String>,
    pub message: UiMessage,
}

} // verus!
