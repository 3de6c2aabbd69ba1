//! The instruction set of version 3 of the message format.

use vstd::prelude::*;
use crate::instruction::{outlines, stringize, trace, Instruction, Kind};

verus! {

/// The instructions of version 3 that hold no nested program, in the order
/// of their discriminants.
#[derive(Clone, Copy, Debug, PartialEq, Eq, Structural)]
pub enum Plain {
    WithdrawAsset,
    ReserveAssetDeposited,
    ReceiveTeleportedAsset,
    QueryResponse,
    TransferAsset,
    TransferReserveAsset,
    Transact,
    HrmpNewChannelOpenRequest,
    HrmpChannelAccepted,
    HrmpChannelClosing,
    ClearOrigin,
    DescendOrigin,
    ReportError,
    DepositAsset,
    DepositReserveAsset,
    ExchangeAsset,
    InitiateReserveWithdraw,
    InitiateTeleport,
    ReportHolding,
    BuyExecution,
    RefundSurplus,
    ClearError,
    ClaimAsset,
    Trap,
    SubscribeVersion,
    UnsubscribeVersion,
    BurnAsset,
    ExpectAsset,
    ExpectOrigin,
    ExpectError,
    ExpectTransactStatus,
    QueryPallet,
    ExpectPallet,
    ReportTransactStatus,
    ClearTransactStatus,
    UniversalOrigin,
    ExportMessage,
    LockAsset,
    UnlockAsset,
    NoteUnlockable,
    RequestUnlock,
    SetFeesMode,
    SetTopic,
    ClearTopic,
    AliasOrigin,
    UnpaidExecution,
}

impl Kind for Plain {
    open spec fn tag(self) -> Seq<char> {
        match self {
            Plain::WithdrawAsset => "WithdrawAsset"@,
            Plain::ReserveAssetDeposited => "ReserveAssetDeposited"@,
            Plain::ReceiveTeleportedAsset => "ReceiveTeleportedAsset"@,
            Plain::QueryResponse => "QueryResponse"@,
            Plain::TransferAsset => "TransferAsset"@,
            Plain::TransferReserveAsset => "TransferReserveAsset"@,
            Plain::Transact => "Transact"@,
            Plain::HrmpNewChannelOpenRequest => "HrmpNewChannelOpenRequest"@,
            Plain::HrmpChannelAccepted => "HrmpChannelAccepted"@,
            Plain::HrmpChannelClosing => "HrmpChannelClosing"@,
            Plain::ClearOrigin => "ClearOrigin"@,
            Plain::DescendOrigin => "DescendOrigin"@,
            Plain::ReportError => "ReportError"@,
            Plain::DepositAsset => "DepositAsset"@,
            Plain::DepositReserveAsset => "DepositReserveAsset"@,
            Plain::ExchangeAsset => "ExchangeAsset"@,
            Plain::InitiateReserveWithdraw => "InitiateReserveWithdraw"@,
            Plain::InitiateTeleport => "InitiateTeleport"@,
            Plain::ReportHolding => "ReportHolding"@,
            Plain::BuyExecution => "BuyExecution"@,
            Plain::RefundSurplus => "RefundSurplus"@,
            Plain::ClearError => "ClearError"@,
            Plain::ClaimAsset => "ClaimAsset"@,
            Plain::Trap => "Trap"@,
            Plain::SubscribeVersion => "SubscribeVersion"@,
            Plain::UnsubscribeVersion => "UnsubscribeVersion"@,
            Plain::BurnAsset => "BurnAsset"@,
            Plain::ExpectAsset => "ExpectAsset"@,
            Plain::ExpectOrigin => "ExpectOrigin"@,
            Plain::ExpectError => "ExpectError"@,
            Plain::ExpectTransactStatus => "ExpectTransactStatus"@,
            Plain::QueryPallet => "QueryPallet"@,
            Plain::ExpectPallet => "ExpectPallet"@,
            Plain::ReportTransactStatus => "ReportTransactStatus"@,
            Plain::ClearTransactStatus => "ClearTransactStatus"@,
            Plain::UniversalOrigin => "UniversalOrigin"@,
            Plain::ExportMessage => "ExportMessage"@,
            Plain::LockAsset => "LockAsset"@,
            Plain::UnlockAsset => "UnlockAsset"@,
            Plain::NoteUnlockable => "NoteUnlockable"@,
            Plain::RequestUnlock => "RequestUnlock"@,
            Plain::SetFeesMode => "SetFeesMode"@,
            Plain::SetTopic => "SetTopic"@,
            Plain::ClearTopic => "ClearTopic"@,
            Plain::AliasOrigin => "AliasOrigin"@,
            Plain::UnpaidExecution => "UnpaidExecution"@,
        }
    }

    open spec fn discriminant(self) -> u8 {
        match self {
            Plain::WithdrawAsset => 0,
            Plain::ReserveAssetDeposited => 1,
            Plain::ReceiveTeleportedAsset => 2,
            Plain::QueryResponse => 3,
            Plain::TransferAsset => 4,
            Plain::TransferReserveAsset => 5,
            Plain::Transact => 6,
            Plain::HrmpNewChannelOpenRequest => 7,
            Plain::HrmpChannelAccepted => 8,
            Plain::HrmpChannelClosing => 9,
            Plain::ClearOrigin => 10,
            Plain::DescendOrigin => 11,
            Plain::ReportError => 12,
            Plain::DepositAsset => 13,
            Plain::DepositReserveAsset => 14,
            Plain::ExchangeAsset => 15,
            Plain::InitiateReserveWithdraw => 16,
            Plain::InitiateTeleport => 17,
            Plain::ReportHolding => 18,
            Plain::BuyExecution => 19,
            Plain::RefundSurplus => 20,
            Plain::ClearError => 23,
            Plain::ClaimAsset => 24,
            Plain::Trap => 25,
            Plain::SubscribeVersion => 26,
            Plain::UnsubscribeVersion => 27,
            Plain::BurnAsset => 28,
            Plain::ExpectAsset => 29,
            Plain::ExpectOrigin => 30,
            Plain::ExpectError => 31,
            Plain::ExpectTransactStatus => 32,
            Plain::QueryPallet => 33,
            Plain::ExpectPallet => 34,
            Plain::ReportTransactStatus => 35,
            Plain::ClearTransactStatus => 36,
            Plain::UniversalOrigin => 37,
            Plain::ExportMessage => 38,
            Plain::LockAsset => 39,
            Plain::UnlockAsset => 40,
            Plain::NoteUnlockable => 41,
            Plain::RequestUnlock => 42,
            Plain::SetFeesMode => 43,
            Plain::SetTopic => 44,
            Plain::ClearTopic => 45,
            Plain::AliasOrigin => 46,
            Plain::UnpaidExecution => 47,
        }
    }

    fn name(self) -> (text: &'static str) {
        match self {
            Plain::WithdrawAsset => "WithdrawAsset",
            Plain::ReserveAssetDeposited => "ReserveAssetDeposited",
            Plain::ReceiveTeleportedAsset => "ReceiveTeleportedAsset",
            Plain::QueryResponse => "QueryResponse",
            Plain::TransferAsset => "TransferAsset",
            Plain::TransferReserveAsset => "TransferReserveAsset",
            Plain::Transact => "Transact",
            Plain::HrmpNewChannelOpenRequest => "HrmpNewChannelOpenRequest",
            Plain::HrmpChannelAccepted => "HrmpChannelAccepted",
            Plain::HrmpChannelClosing => "HrmpChannelClosing",
            Plain::ClearOrigin => "ClearOrigin",
            Plain::DescendOrigin => "DescendOrigin",
            Plain::ReportError => "ReportError",
            Plain::DepositAsset => "DepositAsset",
            Plain::DepositReserveAsset => "DepositReserveAsset",
            Plain::ExchangeAsset => "ExchangeAsset",
            Plain::InitiateReserveWithdraw => "InitiateReserveWithdraw",
            Plain::InitiateTeleport => "InitiateTeleport",
            Plain::ReportHolding => "ReportHolding",
            Plain::BuyExecution => "BuyExecution",
            Plain::RefundSurplus => "RefundSurplus",
            Plain::ClearError => "ClearError",
            Plain::ClaimAsset => "ClaimAsset",
            Plain::Trap => "Trap",
            Plain::SubscribeVersion => "SubscribeVersion",
            Plain::UnsubscribeVersion => "UnsubscribeVersion",
            Plain::BurnAsset => "BurnAsset",
            Plain::ExpectAsset => "ExpectAsset",
            Plain::ExpectOrigin => "ExpectOrigin",
            Plain::ExpectError => "ExpectError",
            Plain::ExpectTransactStatus => "ExpectTransactStatus",
            Plain::QueryPallet => "QueryPallet",
            Plain::ExpectPallet => "ExpectPallet",
            Plain::ReportTransactStatus => "ReportTransactStatus",
            Plain::ClearTransactStatus => "ClearTransactStatus",
            Plain::UniversalOrigin => "UniversalOrigin",
            Plain::ExportMessage => "ExportMessage",
            Plain::LockAsset => "LockAsset",
            Plain::UnlockAsset => "UnlockAsset",
            Plain::NoteUnlockable => "NoteUnlockable",
            Plain::RequestUnlock => "RequestUnlock",
            Plain::SetFeesMode => "SetFeesMode",
            Plain::SetTopic => "SetTopic",
            Plain::ClearTopic => "ClearTopic",
            Plain::AliasOrigin => "AliasOrigin",
            Plain::UnpaidExecution => "UnpaidExecution",
        }
    }

    fn from_discriminant(discriminant: u8) -> (kind: Option<Plain>) {
        match discriminant {
            0 => Some(Plain::WithdrawAsset),
            1 => Some(Plain::ReserveAssetDeposited),
            2 => Some(Plain::ReceiveTeleportedAsset),
            3 => Some(Plain::QueryResponse),
            4 => Some(Plain::TransferAsset),
            5 => Some(Plain::TransferReserveAsset),
            6 => Some(Plain::Transact),
            7 => Some(Plain::HrmpNewChannelOpenRequest),
            8 => Some(Plain::HrmpChannelAccepted),
            9 => Some(Plain::HrmpChannelClosing),
            10 => Some(Plain::ClearOrigin),
            11 => Some(Plain::DescendOrigin),
            12 => Some(Plain::ReportError),
            13 => Some(Plain::DepositAsset),
            14 => Some(Plain::DepositReserveAsset),
            15 => Some(Plain::ExchangeAsset),
            16 => Some(Plain::InitiateReserveWithdraw),
            17 => Some(Plain::InitiateTeleport),
            18 => Some(Plain::ReportHolding),
            19 => Some(Plain::BuyExecution),
            20 => Some(Plain::RefundSurplus),
            23 => Some(Plain::ClearError),
            24 => Some(Plain::ClaimAsset),
            25 => Some(Plain::Trap),
            26 => Some(Plain::SubscribeVersion),
            27 => Some(Plain::UnsubscribeVersion),
            28 => Some(Plain::BurnAsset),
            29 => Some(Plain::ExpectAsset),
            30 => Some(Plain::ExpectOrigin),
            31 => Some(Plain::ExpectError),
            32 => Some(Plain::ExpectTransactStatus),
            33 => Some(Plain::QueryPallet),
            34 => Some(Plain::ExpectPallet),
            35 => Some(Plain::ReportTransactStatus),
            36 => Some(Plain::ClearTransactStatus),
            37 => Some(Plain::UniversalOrigin),
            38 => Some(Plain::ExportMessage),
            39 => Some(Plain::LockAsset),
            40 => Some(Plain::UnlockAsset),
            41 => Some(Plain::NoteUnlockable),
            42 => Some(Plain::RequestUnlock),
            43 => Some(Plain::SetFeesMode),
            44 => Some(Plain::SetTopic),
            45 => Some(Plain::ClearTopic),
            46 => Some(Plain::AliasOrigin),
            47 => Some(Plain::UnpaidExecution),
            _ => None,
        }
    }

    proof fn lemma_tag_is_word(self) {
        match self {
            Plain::WithdrawAsset => reveal_strlit("WithdrawAsset"),
            Plain::ReserveAssetDeposited => reveal_strlit("ReserveAssetDeposited"),
            Plain::ReceiveTeleportedAsset => reveal_strlit("ReceiveTeleportedAsset"),
            Plain::QueryResponse => reveal_strlit("QueryResponse"),
            Plain::TransferAsset => reveal_strlit("TransferAsset"),
            Plain::TransferReserveAsset => reveal_strlit("TransferReserveAsset"),
            Plain::Transact => reveal_strlit("Transact"),
            Plain::HrmpNewChannelOpenRequest => reveal_strlit("HrmpNewChannelOpenRequest"),
            Plain::HrmpChannelAccepted => reveal_strlit("HrmpChannelAccepted"),
            Plain::HrmpChannelClosing => reveal_strlit("HrmpChannelClosing"),
            Plain::ClearOrigin => reveal_strlit("ClearOrigin"),
            Plain::DescendOrigin => reveal_strlit("DescendOrigin"),
            Plain::ReportError => reveal_strlit("ReportError"),
            Plain::DepositAsset => reveal_strlit("DepositAsset"),
            Plain::DepositReserveAsset => reveal_strlit("DepositReserveAsset"),
            Plain::ExchangeAsset => reveal_strlit("ExchangeAsset"),
            Plain::InitiateReserveWithdraw => reveal_strlit("InitiateReserveWithdraw"),
            Plain::InitiateTeleport => reveal_strlit("InitiateTeleport"),
            Plain::ReportHolding => reveal_strlit("ReportHolding"),
            Plain::BuyExecution => reveal_strlit("BuyExecution"),
            Plain::RefundSurplus => reveal_strlit("RefundSurplus"),
            Plain::ClearError => reveal_strlit("ClearError"),
            Plain::ClaimAsset => reveal_strlit("ClaimAsset"),
            Plain::Trap => reveal_strlit("Trap"),
            Plain::SubscribeVersion => reveal_strlit("SubscribeVersion"),
            Plain::UnsubscribeVersion => reveal_strlit("UnsubscribeVersion"),
            Plain::BurnAsset => reveal_strlit("BurnAsset"),
            Plain::ExpectAsset => reveal_strlit("ExpectAsset"),
            Plain::ExpectOrigin => reveal_strlit("ExpectOrigin"),
            Plain::ExpectError => reveal_strlit("ExpectError"),
            Plain::ExpectTransactStatus => reveal_strlit("ExpectTransactStatus"),
            Plain::QueryPallet => reveal_strlit("QueryPallet"),
            Plain::ExpectPallet => reveal_strlit("ExpectPallet"),
            Plain::ReportTransactStatus => reveal_strlit("ReportTransactStatus"),
            Plain::ClearTransactStatus => reveal_strlit("ClearTransactStatus"),
            Plain::UniversalOrigin => reveal_strlit("UniversalOrigin"),
            Plain::ExportMessage => reveal_strlit("ExportMessage"),
            Plain::LockAsset => reveal_strlit("LockAsset"),
            Plain::UnlockAsset => reveal_strlit("UnlockAsset"),
            Plain::NoteUnlockable => reveal_strlit("NoteUnlockable"),
            Plain::RequestUnlock => reveal_strlit("RequestUnlock"),
            Plain::SetFeesMode => reveal_strlit("SetFeesMode"),
            Plain::SetTopic => reveal_strlit("SetTopic"),
            Plain::ClearTopic => reveal_strlit("ClearTopic"),
            Plain::AliasOrigin => reveal_strlit("AliasOrigin"),
            Plain::UnpaidExecution => reveal_strlit("UnpaidExecution"),
        }
    }

    proof fn lemma_discriminants(self, other: Plain) {
    }
}

/// A program of version 3: its instructions in order.
pub type Program = Vec<Instruction<Plain>>;

/// Renders the trace of a version 3 program: the tags of its instructions in
/// order, separated by single commas, each nested program in parentheses
/// directly after the tag of the instruction that holds it. No version prefix
/// is written, and the empty program gives the empty string.
pub fn stringize_v3_xcm(xcm: &Program) -> (out: String)
    ensures
        out@ == trace(outlines(xcm@)),
{
    stringize(xcm)
}

} // verus!
