//! Error taxonomy of the simulated modules: decode, validation,
//! authorization, not-found, insufficient-funds and unsupported-operation
//! failures, each with its human-readable message.
use vstd::prelude::*;

use crate::text::{bytes_debug, bytes_debug_str, concat2, concat3, dec_str, u128_to_dec};

verus! {

/// Why a module call failed. Every failure aborts the requested operation;
/// no state change is visible afterwards.
#[derive(Debug)]
pub enum ModuleError {
    /// A binary payload did not decode as the named message type.
    DecodeFail { msg_kind: String, detail: String },
    SubdenomTooLong { max: usize },
    CreatorTooLong { max: usize },
    CreatorContainsSlash,
    CreatorNotSender,
    BadSubunitFormat,
    BadSymbolFormat,
    SubdenomExists,
    InvalidSdkString,
    BadAmountString { amount: String },
    BadInitialAmount { amount: String },
    InvalidDenom,
    UnauthorizedMintIssuer,
    UnauthorizedBurnIssuer,
    UnauthorizedMintCreator,
    UnauthorizedBurnCreator,
    SenderMismatch,
    UnknownFtDenomMint { denom: String },
    UnknownFtDenomBurn { denom: String },
    ZeroAmount,
    MissingCoinMint,
    MissingCoinBurn,
    MissingAmount,
    InvalidIssuer,
    ClassExists { class_id: String },
    InvalidNftSender,
    UnknownNftClass { class_id: String },
    UnauthorizedNftMint { class_id: String },
    NftExists { class_id: String, id: String },
    ClassNotFound { class_id: String },
    NftNotFound { class_id: String, id: String },
    UnauthorizedNftBurn { class_id: String, id: String },
    UnauthorizedNftSend { class_id: String, id: String },
    EmptyReceiver,
    UnknownMessageType { type_url: String },
    UnexpectedQuery { path: String, data: Vec<u8> },
    UnsupportedStargateQuery,
    NoStargateExecHandler { type_url: String },
    ExecuteNotImplemented,
    NftQueryNotImplemented { detail: String },
    AssetNftQueryNotImplemented { detail: String },
    AssetFtQueryNotImplemented { detail: String },
    QueryNotImplemented { detail: String },
    FtNotFoundQuery { denom: String },
    NftNotFoundQuery { class_id: String, id: String },
    ClassNotFoundQuery { class_id: String },
    HostError { message: String },
    InsufficientFunds { balance: u128, needed: u128 },
    SupplyOverflow { denom: String },
}

/// The text that `ModuleError::message` renders for each failure.
pub open spec fn message_of(e: ModuleError) -> Seq<char> {
    match e {
        ModuleError::DecodeFail { msg_kind, detail } => "failed to decode "@ + msg_kind@ + ": "@
            + detail@,
        ModuleError::SubdenomTooLong { max } => "Subdenom length is too long, max length is "@
            + dec_str(max as nat),
        ModuleError::CreatorTooLong { max } => "Creator length is too long, max length is "@
            + dec_str(max as nat),
        ModuleError::CreatorContainsSlash =>
            "Invalid creator address, creator address cannot contains '/'"@,
        ModuleError::CreatorNotSender =>
            "Invalid creator address, creator address must be the same as the sender"@,
        ModuleError::BadSubunitFormat =>
            "subunit must match regex format '^[a-zA-Z][a-zA-Z0-9/:._-]{2,127}$': invalid input"@,
        ModuleError::BadSymbolFormat =>
            "symbol must match regex format '^[a-zA-Z][a-zA-Z0-9/:._-]{2,127}$': invalid input"@,
        ModuleError::SubdenomExists => "Subdenom already exists"@,
        ModuleError::InvalidSdkString => "Invalid sdk string"@,
        ModuleError::BadAmountString { amount } => "invalid coin amount `"@ + amount@ + "`"@,
        ModuleError::BadInitialAmount { amount } => "invalid initial_amount `"@ + amount@ + "`"@,
        ModuleError::InvalidDenom => "Invalid denom"@,
        ModuleError::UnauthorizedMintIssuer => "Unauthorized mint. Not the issuer of the denom."@,
        ModuleError::UnauthorizedBurnIssuer => "Unauthorized burn. Not the issuer of the denom."@,
        ModuleError::UnauthorizedMintCreator =>
            "Unauthorized mint. Not the creator of the denom."@,
        ModuleError::UnauthorizedBurnCreator =>
            "Unauthorized burn. Not the creator of the denom."@,
        ModuleError::SenderMismatch =>
            "Invalid sender. Sender in msg must be same as sender of transaction."@,
        ModuleError::UnknownFtDenomMint { denom } => "MsgMint for unknown Coreum FT denom `"@
            + denom@ + "`"@,
        ModuleError::UnknownFtDenomBurn { denom } => "MsgBurn for unknown Coreum FT denom `"@
            + denom@ + "`"@,
        ModuleError::ZeroAmount => "Invalid zero amount"@,
        ModuleError::MissingCoinMint => "MsgMint.coin is None"@,
        ModuleError::MissingCoinBurn => "MsgBurn.coin is None"@,
        ModuleError::MissingAmount => "missing amount"@,
        ModuleError::InvalidIssuer => "Invalid issuer. issuer in msg must match sender."@,
        ModuleError::ClassExists { class_id } => "NFT class already exists: "@ + class_id@,
        ModuleError::InvalidNftSender => "Invalid sender. sender in msg must match tx sender."@,
        ModuleError::UnknownNftClass { class_id } => "MsgMint for unknown Coreum NFT class `"@
            + class_id@ + "`"@,
        ModuleError::UnauthorizedNftMint { class_id } => "Unauthorized mint. Not the issuer of class `"@
            + class_id@ + "`"@,
        ModuleError::NftExists { class_id, id } => "NFT already minted: "@ + class_id@ + "/"@
            + id@,
        ModuleError::ClassNotFound { class_id } => "Class id not found: "@ + class_id@,
        ModuleError::NftNotFound { class_id, id } => "NFT not found: "@ + class_id@ + "/"@ + id@,
        ModuleError::UnauthorizedNftBurn { class_id, id } => "Unauthorized burn. Only owner or issuer can burn "@
            + class_id@ + "/"@ + id@,
        ModuleError::UnauthorizedNftSend { class_id, id } => "Unauthorized send. Only owner can send "@
            + class_id@ + "/"@ + id@,
        ModuleError::EmptyReceiver => "MsgSend.receiver is empty"@,
        ModuleError::UnknownMessageType { type_url } => "Unknown message type "@ + type_url@,
        ModuleError::UnexpectedQuery { path, data } => "Unexpected stargate query: path="@ + path@
            + ", data="@ + bytes_debug_str(data@),
        ModuleError::UnsupportedStargateQuery =>
            "Unsupported query type: Stargate queries are disabled"@,
        ModuleError::NoStargateExecHandler { type_url } => "No stargate exec handler for "@
            + type_url@,
        ModuleError::ExecuteNotImplemented => "CoreumQueryModule execute is not implemented"@,
        ModuleError::NftQueryNotImplemented { detail } => "Coreum NFT query not implemented: "@
            + detail@,
        ModuleError::AssetNftQueryNotImplemented { detail } =>
            "Coreum AssetNFT query not implemented: "@ + detail@,
        ModuleError::AssetFtQueryNotImplemented { detail } =>
            "Coreum AssetFT query not implemented: "@ + detail@,
        ModuleError::QueryNotImplemented { detail } => "Coreum query not implemented: "@ + detail@,
        ModuleError::FtNotFoundQuery { denom } => "FT not found for denom `"@ + denom@ + "`"@,
        ModuleError::NftNotFoundQuery { class_id, id } => "NFT not found for "@ + class_id@ + "/"@
            + id@,
        ModuleError::ClassNotFoundQuery { class_id } => "NFT class not found for id `"@ + class_id@
            + "`"@,
        ModuleError::HostError { message } => message@,
        ModuleError::InsufficientFunds { balance, needed } => "Cannot Sub with "@ + dec_str(
            balance as nat,
        ) + " and "@ + dec_str(needed as nat),
        ModuleError::SupplyOverflow { denom } => "Cannot Add: supply overflow for denom `"@
            + denom@ + "`"@,
    }
}

impl ModuleError {
    /// Renders the failure as the human-readable text tests assert on.
    pub fn message(&self) -> (r: String)
        ensures
            r@ == message_of(*self),
    {
        match self {
            ModuleError::DecodeFail { msg_kind, detail } => {
                let head = concat3("failed to decode ", msg_kind.as_str(), ": ");
                concat2(head.as_str(), detail.as_str())
            },
            ModuleError::SubdenomTooLong { max } => {
                let m = u128_to_dec(*max as u128);
                concat2("Subdenom length is too long, max length is ", m.as_str())
            },
            ModuleError::CreatorTooLong { max } => {
                let m = u128_to_dec(*max as u128);
                concat2("Creator length is too long, max length is ", m.as_str())
            },
            ModuleError::CreatorContainsSlash => String::from_str(
                "Invalid creator address, creator address cannot contains '/'",
            ),
            ModuleError::CreatorNotSender => String::from_str(
                "Invalid creator address, creator address must be the same as the sender",
            ),
            ModuleError::BadSubunitFormat => String::from_str(
                "subunit must match regex format '^[a-zA-Z][a-zA-Z0-9/:._-]{2,127}$': invalid input",
            ),
            ModuleError::BadSymbolFormat => String::from_str(
                "symbol must match regex format '^[a-zA-Z][a-zA-Z0-9/:._-]{2,127}$': invalid input",
            ),
            ModuleError::SubdenomExists => String::from_str("Subdenom already exists"),
            ModuleError::InvalidSdkString => String::from_str("Invalid sdk string"),
            ModuleError::BadAmountString { amount } => concat3(
                "invalid coin amount `",
                amount.as_str(),
                "`",
            ),
            ModuleError::BadInitialAmount { amount } => concat3(
                "invalid initial_amount `",
                amount.as_str(),
                "`",
            ),
            ModuleError::InvalidDenom => String::from_str("Invalid denom"),
            ModuleError::UnauthorizedMintIssuer => String::from_str(
                "Unauthorized mint. Not the issuer of the denom.",
            ),
            ModuleError::UnauthorizedBurnIssuer => String::from_str(
                "Unauthorized burn. Not the issuer of the denom.",
            ),
            ModuleError::UnauthorizedMintCreator => String::from_str(
                "Unauthorized mint. Not the creator of the denom.",
            ),
            ModuleError::UnauthorizedBurnCreator => String::from_str(
                "Unauthorized burn. Not the creator of the denom.",
            ),
            ModuleError::SenderMismatch => String::from_str(
                "Invalid sender. Sender in msg must be same as sender of transaction.",
            ),
            ModuleError::UnknownFtDenomMint { denom } => concat3(
                "MsgMint for unknown Coreum FT denom `",
                denom.as_str(),
                "`",
            ),
            ModuleError::UnknownFtDenomBurn { denom } => concat3(
                "MsgBurn for unknown Coreum FT denom `",
                denom.as_str(),
                "`",
            ),
            ModuleError::ZeroAmount => String::from_str("Invalid zero amount"),
            ModuleError::MissingCoinMint => String::from_str("MsgMint.coin is None"),
            ModuleError::MissingCoinBurn => String::from_str("MsgBurn.coin is None"),
            ModuleError::MissingAmount => String::from_str("missing amount"),
            ModuleError::InvalidIssuer => String::from_str(
                "Invalid issuer. issuer in msg must match sender.",
            ),
            ModuleError::ClassExists { class_id } => concat2(
                "NFT class already exists: ",
                class_id.as_str(),
            ),
            ModuleError::InvalidNftSender => String::from_str(
                "Invalid sender. sender in msg must match tx sender.",
            ),
            ModuleError::UnknownNftClass { class_id } => concat3(
                "MsgMint for unknown Coreum NFT class `",
                class_id.as_str(),
                "`",
            ),
            ModuleError::UnauthorizedNftMint { class_id } => concat3(
                "Unauthorized mint. Not the issuer of class `",
                class_id.as_str(),
                "`",
            ),
            ModuleError::NftExists { class_id, id } => {
                let head = concat3("NFT already minted: ", class_id.as_str(), "/");
                concat2(head.as_str(), id.as_str())
            },
            ModuleError::ClassNotFound { class_id } => concat2(
                "Class id not found: ",
                class_id.as_str(),
            ),
            ModuleError::NftNotFound { class_id, id } => {
                let head = concat3("NFT not found: ", class_id.as_str(), "/");
                concat2(head.as_str(), id.as_str())
            },
            ModuleError::UnauthorizedNftBurn { class_id, id } => {
                let head = concat3(
                    "Unauthorized burn. Only owner or issuer can burn ",
                    class_id.as_str(),
                    "/",
                );
                concat2(head.as_str(), id.as_str())
            },
            ModuleError::UnauthorizedNftSend { class_id, id } => {
                let head = concat3(
                    "Unauthorized send. Only owner can send ",
                    class_id.as_str(),
                    "/",
                );
                concat2(head.as_str(), id.as_str())
            },
            ModuleError::EmptyReceiver => String::from_str("MsgSend.receiver is empty"),
            ModuleError::UnknownMessageType { type_url } => concat2(
                "Unknown message type ",
                type_url.as_str(),
            ),
            ModuleError::UnexpectedQuery { path, data } => {
                let rendered = bytes_debug(data.as_slice());
                let head = concat3("Unexpected stargate query: path=", path.as_str(), ", data=");
                concat2(head.as_str(), rendered.as_str())
            },
            ModuleError::UnsupportedStargateQuery => String::from_str(
                "Unsupported query type: Stargate queries are disabled",
            ),
            ModuleError::NoStargateExecHandler { type_url } => concat2(
                "No stargate exec handler for ",
                type_url.as_str(),
            ),
            ModuleError::ExecuteNotImplemented => String::from_str(
                "CoreumQueryModule execute is not implemented",
            ),
            ModuleError::NftQueryNotImplemented { detail } => concat2(
                "Coreum NFT query not implemented: ",
                detail.as_str(),
            ),
            ModuleError::AssetNftQueryNotImplemented { detail } => concat2(
                "Coreum AssetNFT query not implemented: ",
                detail.as_str(),
            ),
            ModuleError::AssetFtQueryNotImplemented { detail } => concat2(
                "Coreum AssetFT query not implemented: ",
                detail.as_str(),
            ),
            ModuleError::QueryNotImplemented { detail } => concat2(
                "Coreum query not implemented: ",
                detail.as_str(),
            ),
            ModuleError::FtNotFoundQuery { denom } => concat3(
                "FT not found for denom `",
                denom.as_str(),
                "`",
            ),
            ModuleError::NftNotFoundQuery { class_id, id } => {
                let head = concat3("NFT not found for ", class_id.as_str(), "/");
                concat2(head.as_str(), id.as_str())
            },
            ModuleError::ClassNotFoundQuery { class_id } => concat3(
                "NFT class not found for id `",
                class_id.as_str(),
                "`",
            ),
            ModuleError::HostError { message } => message.clone(),
            ModuleError::InsufficientFunds { balance, needed } => {
                let b = u128_to_dec(*balance);
                let n = u128_to_dec(*needed);
                let head = concat3("Cannot Sub with ", b.as_str(), " and ");
                concat2(head.as_str(), n.as_str())
            },
            ModuleError::SupplyOverflow { denom } => concat3(
                "Cannot Add: supply overflow for denom `",
                denom.as_str(),
                "`",
            ),
        }
    }
}

} // verus!
