//! Every instruction that the `xcm` crate defines, encoded by that crate and
//! traced by the library.

use parity_scale_codec::Encode;
use staging_xcm::{v2, v3, VersionedXcm};
use xcm_trace::decoder::{decode_message, read_message, Decoded};
use xcm_trace::instruction::{Instruction, Kind};
use xcm_trace::message::VersionedMessage;
use xcm_trace::pipeline::{trace_bytes, trace_hex};
use xcm_trace::{xcm_v2, xcm_v3};

type I2 = v2::Instruction<()>;
type I3 = v3::Instruction<()>;

fn v2_instructions() -> Vec<(v2::Instruction<()>, &'static str)> {
    let here = v2::MultiLocation::here;
    let assets = v2::MultiAssets::new;
    let all = || v2::MultiAssetFilter::Wild(v2::WildMultiAsset::All);
    let asset = || v2::MultiAsset {
        id: v2::AssetId::Concrete(v2::MultiLocation::here()),
        fun: v2::Fungibility::Fungible(7),
    };
    let inner = || v2::Xcm::<()>(vec![I2::ClearOrigin, I2::ClearError]);
    vec![
        (I2::WithdrawAsset(assets()), "WithdrawAsset"),
        (I2::ReserveAssetDeposited(assets()), "ReserveAssetDeposited"),
        (I2::ReceiveTeleportedAsset(assets()), "ReceiveTeleportedAsset"),
        (
            I2::QueryResponse { query_id: 1, response: v2::Response::Null, max_weight: 2 },
            "QueryResponse",
        ),
        (I2::TransferAsset { assets: assets(), beneficiary: here() }, "TransferAsset"),
        (
            I2::TransferReserveAsset { assets: assets(), dest: here(), xcm: inner() },
            "TransferReserveAsset",
        ),
        (
            I2::Transact {
                origin_type: v2::OriginKind::Native,
                require_weight_at_most: 3,
                call: vec![1u8, 2, 3].into(),
            },
            "Transact",
        ),
        (
            I2::HrmpNewChannelOpenRequest { sender: 1, max_message_size: 2, max_capacity: 3 },
            "HrmpNewChannelOpenRequest",
        ),
        (I2::HrmpChannelAccepted { recipient: 1 }, "HrmpChannelAccepted"),
        (I2::HrmpChannelClosing { initiator: 1, sender: 2, recipient: 3 }, "HrmpChannelClosing"),
        (I2::ClearOrigin, "ClearOrigin"),
        (I2::DescendOrigin(v2::Junctions::Here), "DescendOrigin"),
        (I2::ReportError { query_id: 1, dest: here(), max_response_weight: 2 }, "ReportError"),
        (I2::DepositAsset { assets: all(), max_assets: 1, beneficiary: here() }, "DepositAsset"),
        (
            I2::DepositReserveAsset { assets: all(), max_assets: 1, dest: here(), xcm: inner() },
            "DepositReserveAsset",
        ),
        (I2::ExchangeAsset { give: all(), receive: assets() }, "ExchangeAsset"),
        (
            I2::InitiateReserveWithdraw { assets: all(), reserve: here(), xcm: inner() },
            "InitiateReserveWithdraw",
        ),
        (I2::InitiateTeleport { assets: all(), dest: here(), xcm: inner() }, "InitiateTeleport"),
        (
            I2::QueryHolding { query_id: 1, dest: here(), assets: all(), max_response_weight: 2 },
            "QueryHolding",
        ),
        (
            I2::BuyExecution { fees: asset(), weight_limit: v2::WeightLimit::Unlimited },
            "BuyExecution",
        ),
        (I2::RefundSurplus, "RefundSurplus"),
        (I2::SetErrorHandler(inner()), "SetErrorHandler(ClearOrigin,ClearError)"),
        (I2::SetAppendix(inner()), "SetAppendix(ClearOrigin,ClearError)"),
        (I2::ClearError, "ClearError"),
        (I2::ClaimAsset { assets: assets(), ticket: here() }, "ClaimAsset"),
        (I2::Trap(9), "Trap"),
        (I2::SubscribeVersion { query_id: 1, max_response_weight: 2 }, "SubscribeVersion"),
        (I2::UnsubscribeVersion, "UnsubscribeVersion"),
    ]
}

fn v3_instructions() -> Vec<(v3::Instruction<()>, &'static str)> {
    let here = v3::MultiLocation::here;
    let assets = v3::MultiAssets::new;
    let all = || v3::MultiAssetFilter::Wild(v3::WildMultiAsset::All);
    let asset = || v3::MultiAsset {
        id: v3::AssetId::Concrete(v3::MultiLocation::here()),
        fun: v3::Fungibility::Fungible(7),
    };
    let weight = || v3::Weight::from_parts(5, 6);
    let info = || v3::QueryResponseInfo { destination: here(), query_id: 1, max_weight: weight() };
    let inner = || v3::Xcm::<()>(vec![I3::ClearOrigin, I3::ClearTopic]);
    vec![
        (I3::WithdrawAsset(assets()), "WithdrawAsset"),
        (I3::ReserveAssetDeposited(assets()), "ReserveAssetDeposited"),
        (I3::ReceiveTeleportedAsset(assets()), "ReceiveTeleportedAsset"),
        (
            I3::QueryResponse {
                query_id: 1,
                response: v3::Response::Null,
                max_weight: weight(),
                querier: Some(here()),
            },
            "QueryResponse",
        ),
        (I3::TransferAsset { assets: assets(), beneficiary: here() }, "TransferAsset"),
        (
            I3::TransferReserveAsset { assets: assets(), dest: here(), xcm: inner() },
            "TransferReserveAsset",
        ),
        (
            I3::Transact {
                origin_kind: v3::OriginKind::Native,
                require_weight_at_most: weight(),
                call: vec![1u8, 2, 3].into(),
            },
            "Transact",
        ),
        (
            I3::HrmpNewChannelOpenRequest { sender: 1, max_message_size: 2, max_capacity: 3 },
            "HrmpNewChannelOpenRequest",
        ),
        (I3::HrmpChannelAccepted { recipient: 1 }, "HrmpChannelAccepted"),
        (I3::HrmpChannelClosing { initiator: 1, sender: 2, recipient: 3 }, "HrmpChannelClosing"),
        (I3::ClearOrigin, "ClearOrigin"),
        (I3::DescendOrigin(v3::Junctions::Here), "DescendOrigin"),
        (I3::ReportError(info()), "ReportError"),
        (I3::DepositAsset { assets: all(), beneficiary: here() }, "DepositAsset"),
        (I3::DepositReserveAsset { assets: all(), dest: here(), xcm: inner() }, "DepositReserveAsset"),
        (I3::ExchangeAsset { give: all(), want: assets(), maximal: true }, "ExchangeAsset"),
        (
            I3::InitiateReserveWithdraw { assets: all(), reserve: here(), xcm: inner() },
            "InitiateReserveWithdraw",
        ),
        (I3::InitiateTeleport { assets: all(), dest: here(), xcm: inner() }, "InitiateTeleport"),
        (I3::ReportHolding { response_info: info(), assets: all() }, "ReportHolding"),
        (
            I3::BuyExecution { fees: asset(), weight_limit: v3::WeightLimit::Unlimited },
            "BuyExecution",
        ),
        (I3::RefundSurplus, "RefundSurplus"),
        (I3::SetErrorHandler(inner()), "SetErrorHandler(ClearOrigin,ClearTopic)"),
        (I3::SetAppendix(inner()), "SetAppendix(ClearOrigin,ClearTopic)"),
        (I3::ClearError, "ClearError"),
        (I3::ClaimAsset { assets: assets(), ticket: here() }, "ClaimAsset"),
        (I3::Trap(9), "Trap"),
        (I3::SubscribeVersion { query_id: 1, max_response_weight: weight() }, "SubscribeVersion"),
        (I3::UnsubscribeVersion, "UnsubscribeVersion"),
        (I3::BurnAsset(assets()), "BurnAsset"),
        (I3::ExpectAsset(assets()), "ExpectAsset"),
        (I3::ExpectOrigin(None), "ExpectOrigin"),
        (I3::ExpectError(Some((1, v3::Error::Overflow))), "ExpectError"),
        (I3::ExpectTransactStatus(v3::MaybeErrorCode::Success), "ExpectTransactStatus"),
        (I3::QueryPallet { module_name: vec![1u8, 2], response_info: info() }, "QueryPallet"),
        (
            I3::ExpectPallet {
                index: 1,
                name: vec![2u8],
                module_name: vec![3u8],
                crate_major: 4,
                min_crate_minor: 5,
            },
            "ExpectPallet",
        ),
        (I3::ReportTransactStatus(info()), "ReportTransactStatus"),
        (I3::ClearTransactStatus, "ClearTransactStatus"),
        (I3::UniversalOrigin(v3::Junction::Parachain(1)), "UniversalOrigin"),
        (
            I3::ExportMessage {
                network: v3::NetworkId::Polkadot,
                destination: v3::Junctions::Here,
                xcm: inner(),
            },
            "ExportMessage",
        ),
        (I3::LockAsset { asset: asset(), unlocker: here() }, "LockAsset"),
        (I3::UnlockAsset { asset: asset(), target: here() }, "UnlockAsset"),
        (I3::NoteUnlockable { asset: asset(), owner: here() }, "NoteUnlockable"),
        (I3::RequestUnlock { asset: asset(), locker: here() }, "RequestUnlock"),
        (I3::SetFeesMode { jit_withdraw: true }, "SetFeesMode"),
        (I3::SetTopic([7u8; 32]), "SetTopic"),
        (I3::ClearTopic, "ClearTopic"),
        (I3::AliasOrigin(here()), "AliasOrigin"),
        (
            I3::UnpaidExecution { weight_limit: v3::WeightLimit::Unlimited, check_origin: None },
            "UnpaidExecution",
        ),
    ]
}

#[test]
fn every_v2_instruction_alone() {
    let all = v2_instructions();
    assert_eq!(all.len(), 28);
    for (instruction, segment) in all {
        let bytes = VersionedXcm::<()>::V2(v2::Xcm(vec![instruction])).encode();
        assert_eq!(trace_bytes(&bytes), Ok(format!("v2,{segment}")));
        assert_eq!(trace_hex(&hex::encode(&bytes)), Ok(format!("v2,{segment}")));
    }
}

#[test]
fn every_v3_instruction_alone() {
    let all = v3_instructions();
    assert_eq!(all.len(), 48);
    for (instruction, segment) in all {
        let bytes = VersionedXcm::<()>::V3(v3::Xcm(vec![instruction])).encode();
        assert_eq!(trace_bytes(&bytes), Ok(format!("v3,{segment}")));
        assert_eq!(trace_hex(&hex::encode_upper(&bytes)), Ok(format!("v3,{segment}")));
    }
}

#[test]
fn every_v2_instruction_in_one_message() {
    let (instructions, segments): (Vec<_>, Vec<_>) = v2_instructions().into_iter().unzip();
    let bytes = VersionedXcm::<()>::V2(v2::Xcm(instructions)).encode();
    assert_eq!(trace_bytes(&bytes), Ok(format!("v2,{}", segments.join(","))));
}

#[test]
fn every_v3_instruction_in_one_message() {
    let (instructions, segments): (Vec<_>, Vec<_>) = v3_instructions().into_iter().unzip();
    let bytes = VersionedXcm::<()>::V3(v3::Xcm(instructions)).encode();
    assert_eq!(trace_bytes(&bytes), Ok(format!("v3,{}", segments.join(","))));
}

#[test]
fn every_v2_instruction_nested() {
    let (instructions, segments): (Vec<_>, Vec<_>) = v2_instructions().into_iter().unzip();
    let handler = I2::SetErrorHandler(v2::Xcm(instructions));
    let program = v2::Xcm(vec![I2::ClearOrigin, I2::SetAppendix(v2::Xcm(vec![handler]))]);
    let bytes = VersionedXcm::<()>::V2(program).encode();
    assert_eq!(
        trace_bytes(&bytes),
        Ok(format!("v2,ClearOrigin,SetAppendix(SetErrorHandler({}))", segments.join(",")))
    );
}

#[test]
fn discriminants_are_the_first_bytes_of_the_encodings() {
    for (instruction, segment) in v2_instructions() {
        let discriminant = instruction.encode()[0];
        match xcm_v2::Plain::from_discriminant(discriminant) {
            Some(kind) => assert_eq!(kind.name(), segment),
            None => assert!(discriminant == 21 || discriminant == 22, "{segment}"),
        }
    }
    for (instruction, segment) in v3_instructions() {
        let discriminant = instruction.encode()[0];
        match xcm_v3::Plain::from_discriminant(discriminant) {
            Some(kind) => assert_eq!(kind.name(), segment),
            None => assert!(discriminant == 21 || discriminant == 22, "{segment}"),
        }
    }
}

#[test]
fn reading_what_the_crate_decoded() {
    let program = v3::Xcm::<()>(vec![
        I3::ClearOrigin,
        I3::SetErrorHandler(v3::Xcm(vec![I3::Trap(1), I3::SetAppendix(v3::Xcm(vec![]))])),
        I3::SetTopic([0u8; 32]),
    ]);
    let expected = || {
        VersionedMessage::V3(vec![
            Instruction::Plain(xcm_v3::Plain::ClearOrigin),
            Instruction::SetErrorHandler(vec![
                Instruction::Plain(xcm_v3::Plain::Trap),
                Instruction::SetAppendix(vec![]),
            ]),
            Instruction::Plain(xcm_v3::Plain::SetTopic),
        ])
    };
    let bytes = VersionedXcm::<()>::V3(program.clone()).encode();
    assert_eq!(read_message(&Decoded::V3(program)), Some(expected()));
    assert_eq!(decode_message(&bytes), Ok(expected()));
}

#[test]
fn same_program_in_both_versions() {
    let two = v2::Xcm::<()>(vec![I2::QueryHolding {
        query_id: 1,
        dest: v2::MultiLocation::here(),
        assets: v2::MultiAssetFilter::Wild(v2::WildMultiAsset::All),
        max_response_weight: 2,
    }]);
    assert_eq!(
        read_message(&Decoded::V2(two)),
        Some(VersionedMessage::V2(vec![Instruction::Plain(xcm_v2::Plain::QueryHolding)]))
    );
    // the discriminant of QueryHolding is that of ReportHolding in version 3
    assert_eq!(xcm_v3::Plain::from_discriminant(18), Some(xcm_v3::Plain::ReportHolding));
    assert_eq!(xcm_v2::Plain::from_discriminant(18), Some(xcm_v2::Plain::QueryHolding));
}
