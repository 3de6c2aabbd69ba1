//! The instruction set of version 2 of the message format.

use vstd::prelude::*;
use crate::instruction::{outlines, stringize, trace, Instruction, Kind};

verus! {

/// The instructions of version 2 that hold no nested program, in the order
/// of their discriminants.
#[derive(Clone, Copy, Debug, PartialEq, Eq, Structural)]
pub enum Plain {
    WithdrawAsset,
    ReserveAssetDeposited,
    ReceiveTeleportedAsset,
    QueryResponse,
    TransferAsset,
    TransferReserveAsset,
    Transact,
    HrmpNewChannelOpenRequest,
    HrmpChannelAccepted,
    HrmpChannelClosing,
    ClearOrigin,
    DescendOrigin,
    ReportError,
    DepositAsset,
    DepositReserveAsset,
    ExchangeAsset,
    InitiateReserveWithdraw,
    InitiateTeleport,
    QueryHolding,
    BuyExecution,
    RefundSurplus,
    ClearError,
    ClaimAsset,
    Trap,
    SubscribeVersion,
    UnsubscribeVersion,
}

impl Kind for Plain {
    open spec fn tag(self) -> Seq<char> {
        match self {
            Plain::WithdrawAsset => "WithdrawAsset"@,
            Plain::ReserveAssetDeposited => "ReserveAssetDeposited"@,
            Plain::ReceiveTeleportedAsset => "ReceiveTeleportedAsset"@,
            Plain::QueryResponse => "QueryResponse"@,
            Plain::TransferAsset => "TransferAsset"@,
            Plain::TransferReserveAsset => "TransferReserveAsset"@,
            Plain::Transact => "Transact"@,
            Plain::HrmpNewChannelOpenRequest => "HrmpNewChannelOpenRequest"@,
            Plain::HrmpChannelAccepted => "HrmpChannelAccepted"@,
            Plain::HrmpChannelClosing => "HrmpChannelClosing"@,
            Plain::ClearOrigin => "ClearOrigin"@,
            Plain::DescendOrigin => "DescendOrigin"@,
            Plain::ReportError => "ReportError"@,
            Plain::DepositAsset => "DepositAsset"@,
            Plain::DepositReserveAsset => "DepositReserveAsset"@,
            Plain::ExchangeAsset => "ExchangeAsset"@,
            Plain::InitiateReserveWithdraw => "InitiateReserveWithdraw"@,
            Plain::InitiateTeleport => "InitiateTeleport"@,
            Plain::QueryHolding => "QueryHolding"@,
            Plain::BuyExecution => "BuyExecution"@,
            Plain::RefundSurplus => "RefundSurplus"@,
            Plain::ClearError => "ClearError"@,
            Plain::ClaimAsset => "ClaimAsset"@,
            Plain::Trap => "Trap"@,
            Plain::SubscribeVersion => "SubscribeVersion"@,
            Plain::UnsubscribeVersion => "UnsubscribeVersion"@,
        }
    }

    open spec fn discriminant(self) -> u8 {
        match self {
            Plain::WithdrawAsset => 0,
            Plain::ReserveAssetDeposited => 1,
            Plain::ReceiveTeleportedAsset => 2,
            Plain::QueryResponse => 3,
            Plain::TransferAsset => 4,
            Plain::TransferReserveAsset => 5,
            Plain::Transact => 6,
            Plain::HrmpNewChannelOpenRequest => 7,
            Plain::HrmpChannelAccepted => 8,
            Plain::HrmpChannelClosing => 9,
            Plain::ClearOrigin => 10,
            Plain::DescendOrigin => 11,
            Plain::ReportError => 12,
            Plain::DepositAsset => 13,
            Plain::DepositReserveAsset => 14,
            Plain::ExchangeAsset => 15,
            Plain::InitiateReserveWithdraw => 16,
            Plain::InitiateTeleport => 17,
            Plain::QueryHolding => 18,
            Plain::BuyExecution => 19,
            Plain::RefundSurplus => 20,
            Plain::ClearError => 23,
            Plain::ClaimAsset => 24,
            Plain::Trap => 25,
            Plain::SubscribeVersion => 26,
            Plain::UnsubscribeVersion => 27,
        }
    }

    fn name(self) -> (text: &'static str) {
        match self {
            Plain::WithdrawAsset => "WithdrawAsset",
            Plain::ReserveAssetDeposited => "ReserveAssetDeposited",
            Plain::ReceiveTeleportedAsset => "ReceiveTeleportedAsset",
            Plain::QueryResponse => "QueryResponse",
            Plain::TransferAsset => "TransferAsset",
            Plain::TransferReserveAsset => "TransferReserveAsset",
            Plain::Transact => "Transact",
            Plain::HrmpNewChannelOpenRequest => "HrmpNewChannelOpenRequest",
            Plain::HrmpChannelAccepted => "HrmpChannelAccepted",
            Plain::HrmpChannelClosing => "HrmpChannelClosing",
            Plain::ClearOrigin => "ClearOrigin",
            Plain::DescendOrigin => "DescendOrigin",
            Plain::ReportError => "ReportError",
            Plain::DepositAsset => "DepositAsset",
            Plain::DepositReserveAsset => "DepositReserveAsset",
            Plain::ExchangeAsset => "ExchangeAsset",
            Plain::InitiateReserveWithdraw => "InitiateReserveWithdraw",
            Plain::InitiateTeleport => "InitiateTeleport",
            Plain::QueryHolding => "QueryHolding",
            Plain::BuyExecution => "BuyExecution",
            Plain::RefundSurplus => "RefundSurplus",
            Plain::ClearError => "ClearError",
            Plain::ClaimAsset => "ClaimAsset",
            Plain::Trap => "Trap",
            Plain::SubscribeVersion => "SubscribeVersion",
            Plain::UnsubscribeVersion => "UnsubscribeVersion",
        }
    }

    fn from_discriminant(discriminant: u8) -> (kind: Option<Plain>) {
        match discriminant {
            0 => Some(Plain::WithdrawAsset),
            1 => Some(Plain::ReserveAssetDeposited),
            2 => Some(Plain::ReceiveTeleportedAsset),
            3 => Some(Plain::QueryResponse),
            4 => Some(Plain::TransferAsset),
            5 => Some(Plain::TransferReserveAsset),
            6 => Some(Plain::Transact),
            7 => Some(Plain::HrmpNewChannelOpenRequest),
            8 => Some(Plain::HrmpChannelAccepted),
            9 => Some(Plain::HrmpChannelClosing),
            10 => Some(Plain::ClearOrigin),
            11 => Some(Plain::DescendOrigin),
            12 => Some(Plain::ReportError),
            13 => Some(Plain::DepositAsset),
            14 => Some(Plain::DepositReserveAsset),
            15 => Some(Plain::ExchangeAsset),
            16 => Some(Plain::InitiateReserveWithdraw),
            17 => Some(Plain::InitiateTeleport),
            18 => Some(Plain::QueryHolding),
            19 => Some(Plain::BuyExecution),
            20 => Some(Plain::RefundSurplus),
            23 => Some(Plain::ClearError),
            24 => Some(Plain::ClaimAsset),
            25 => Some(Plain::Trap),
            26 => Some(Plain::SubscribeVersion),
            27 => Some(Plain::UnsubscribeVersion),
            _ => None,
        }
    }

    proof fn lemma_tag_is_word(self) {
        match self {
            Plain::WithdrawAsset => reveal_strlit("WithdrawAsset"),
            Plain::ReserveAssetDeposited => reveal_strlit("ReserveAssetDeposited"),
            Plain::ReceiveTeleportedAsset => reveal_strlit("ReceiveTeleportedAsset"),
            Plain::QueryResponse => reveal_strlit("QueryResponse"),
            Plain::TransferAsset => reveal_strlit("TransferAsset"),
            Plain::TransferReserveAsset => reveal_strlit("TransferReserveAsset"),
            Plain::Transact => reveal_strlit("Transact"),
            Plain::HrmpNewChannelOpenRequest => reveal_strlit("HrmpNewChannelOpenRequest"),
            Plain::HrmpChannelAccepted => reveal_strlit("HrmpChannelAccepted"),
            Plain::HrmpChannelClosing => reveal_strlit("HrmpChannelClosing"),
            Plain::ClearOrigin => reveal_strlit("ClearOrigin"),
            Plain::DescendOrigin => reveal_strlit("DescendOrigin"),
            Plain::ReportError => reveal_strlit("ReportError"),
            Plain::DepositAsset => reveal_strlit("DepositAsset"),
            Plain::DepositReserveAsset => reveal_strlit("DepositReserveAsset"),
            Plain::ExchangeAsset => reveal_strlit("ExchangeAsset"),
            Plain::InitiateReserveWithdraw => reveal_strlit("InitiateReserveWithdraw"),
            Plain::InitiateTeleport => reveal_strlit("InitiateTeleport"),
            Plain::QueryHolding => reveal_strlit("QueryHolding"),
            Plain::BuyExecution => reveal_strlit("BuyExecution"),
            Plain::RefundSurplus => reveal_strlit("RefundSurplus"),
            Plain::ClearError => reveal_strlit("ClearError"),
            Plain::ClaimAsset => reveal_strlit("ClaimAsset"),
            Plain::Trap => reveal_strlit("Trap"),
            Plain::SubscribeVersion => reveal_strlit("SubscribeVersion"),
            Plain::UnsubscribeVersion => reveal_strlit("UnsubscribeVersion"),
        }
    }

    proof fn lemma_discriminants(self, other: Plain) {
    }
}

/// A program of version 2: its instructions in order.
pub type Program = Vec<Instruction<Plain>>;

/// Renders the trace of a version 2 program: the tags of its instructions in
/// order, separated by single commas, each nested program in parentheses
/// directly after the tag of the instruction that holds it. No version prefix
/// is written, and the empty program gives the empty string.
pub fn stringize_v2_xcm(xcm: &Program) -> (out: String)
    ensures
        out@ == trace(outlines(xcm@)),
{
    stringize(xcm)
}

} // verus!
