//! End-to-end tests of ballot box validation, the wrapper's accessors,
//! and candidate building, with the real address and hex crates linked.

use ballot_box::{
    make_local_ballot_box_candidate, BallotBox, BallotBoxBuildError, BallotBoxError,
    BallotBoxWarning, BallotBoxWrapper, BallotBoxWrapperInputs, BallotBoxWrapperParameters,
    BallotContract, BallotContractError, BallotContractInputs, BallotContractParameters,
    CastBallotBoxVoteParameters, Digest32, ErgoBox, ErgoBoxCandidate, ErgoTree, GroupElement,
    NonMandatoryRegisterId, NonMandatoryRegisters, ProveDlog, RegisterValue, Token, TokenId,
};
use ergo_lib::ergotree_ir::chain::address::{Address, AddressEncoder, NetworkPrefix};
use ergo_lib::ergotree_ir::sigma_protocol::sigma_boolean::ProveDlog as ErgoProveDlog;

fn tid(b: u8) -> TokenId {
    TokenId { bytes: vec![b; 32] }
}

fn digest(b: u8) -> Digest32 {
    Digest32 { bytes: vec![b; 32] }
}

/// A real pay-to-public-key address string and the serialized group
/// element it implies, derived with the same library the validator
/// delegates address parsing to.
fn owner() -> (String, Vec<u8>) {
    let point = ergo_lib::ergo_chain_types::ec_point::generator();
    let address = Address::P2Pk(ErgoProveDlog::from(point));
    let encoded = AddressEncoder::new(NetworkPrefix::Mainnet).address_to_str(&address);
    let content = address.content_bytes();
    (encoded, content)
}

fn tree() -> ErgoTree {
    ErgoTree {
        template: vec![1, 2, 3, 4],
        min_storage_rent: Some(10_000_000),
        update_nft_token_id: Some(tid(0xAA)),
    }
}

fn parameters(owner_address: String) -> BallotBoxWrapperParameters {
    BallotBoxWrapperParameters {
        ballot_token_owner_address: owner_address,
        vote_parameters: Some(CastBallotBoxVoteParameters {
            reward_token_id: tid(0xBB),
            reward_token_quantity: 5000,
            pool_box_address_hash: base16::encode_lower(&[0x11u8; 32]),
        }),
        contract_parameters: BallotContractParameters { ergo_tree_template: vec![1, 2, 3, 4] },
    }
}

fn valid_box(owner_bytes: Vec<u8>) -> ErgoBox {
    ErgoBox {
        value: 10_000_000,
        ergo_tree: tree(),
        tokens: vec![Token { token_id: tid(0xCC), amount: 1 }],
        additional_registers: NonMandatoryRegisters {
            r4: Some(RegisterValue::Group(GroupElement { bytes: owner_bytes })),
            r5: Some(RegisterValue::Int(100)),
            r6: Some(RegisterValue::Digest(digest(0x11))),
            r7: Some(RegisterValue::TokenId(tid(0xBB))),
            r8: Some(RegisterValue::Int(5000)),
        },
        creation_height: 0,
    }
}

fn validate(
    b: ErgoBox,
    params: &BallotBoxWrapperParameters,
) -> Result<(BallotBoxWrapper, Vec<BallotBoxWarning>), BallotBoxError> {
    let ballot_token_id = tid(0xCC);
    let update_nft_token_id = tid(0xAA);
    let inputs = BallotBoxWrapperInputs {
        parameters: params,
        ballot_token_id: &ballot_token_id,
        update_nft_token_id: &update_nft_token_id,
    };
    BallotBoxWrapper::new(b, &inputs)
}

#[test]
fn valid_ballot_box_is_accepted_without_warnings() {
    let (addr, owner_bytes) = owner();
    let params = parameters(addr);
    let (wrapper, warnings) = validate(valid_box(owner_bytes.clone()), &params).unwrap();
    assert!(warnings.is_empty());
    let token = wrapper.ballot_token();
    assert_eq!(token.token_id, tid(0xCC));
    assert_eq!(token.amount, 1);
    assert_eq!(wrapper.min_storage_rent(), 10_000_000);
    assert_eq!(wrapper.ballot_token_owner().h.bytes, owner_bytes);
    assert_eq!(wrapper.get_box().value, 10_000_000);
    assert_eq!(wrapper.contract().min_storage_rent(), 10_000_000);
    assert_eq!(wrapper.contract().ergo_tree(), &tree());
}

#[test]
fn reward_quantity_mismatch_is_a_single_warning() {
    let (addr, owner_bytes) = owner();
    let params = parameters(addr);
    let mut b = valid_box(owner_bytes);
    b.additional_registers.r8 = Some(RegisterValue::Int(4999));
    let (_, warnings) = validate(b, &params).unwrap();
    assert_eq!(warnings, vec![BallotBoxWarning::RewardTokenQuantityDiffers]);
}

#[test]
fn pool_box_hash_mismatch_is_a_single_warning() {
    let (addr, owner_bytes) = owner();
    let params = parameters(addr);
    let mut b = valid_box(owner_bytes);
    b.additional_registers.r6 = Some(RegisterValue::Digest(digest(0x22)));
    let (_, warnings) = validate(b, &params).unwrap();
    assert_eq!(warnings, vec![BallotBoxWarning::PoolBoxAddressHashDiffers]);
}

#[test]
fn reward_token_id_mismatch_is_a_single_warning() {
    let (addr, owner_bytes) = owner();
    let params = parameters(addr);
    let mut b = valid_box(owner_bytes);
    b.additional_registers.r7 = Some(RegisterValue::TokenId(tid(0xBD)));
    let (_, warnings) = validate(b, &params).unwrap();
    assert_eq!(warnings, vec![BallotBoxWarning::RewardTokenIdDiffers]);
}

#[test]
fn every_soft_mismatch_warns_in_register_order() {
    let (addr, owner_bytes) = owner();
    let params = parameters(addr);
    let mut b = valid_box(owner_bytes);
    b.additional_registers.r6 = Some(RegisterValue::Digest(digest(0x22)));
    b.additional_registers.r7 = Some(RegisterValue::TokenId(tid(0xBD)));
    b.additional_registers.r8 = Some(RegisterValue::Int(4999));
    let (_, warnings) = validate(b, &params).unwrap();
    assert_eq!(
        warnings,
        vec![
            BallotBoxWarning::PoolBoxAddressHashDiffers,
            BallotBoxWarning::RewardTokenIdDiffers,
            BallotBoxWarning::RewardTokenQuantityDiffers,
        ]
    );
}

#[test]
fn empty_token_list_is_no_ballot_token() {
    let (addr, owner_bytes) = owner();
    let params = parameters(addr);
    let mut b = valid_box(owner_bytes);
    b.tokens = vec![];
    assert_eq!(validate(b, &params).unwrap_err(), BallotBoxError::NoBallotToken);
}

#[test]
fn foreign_token_at_index_zero_is_unknown_ballot_token_id() {
    let (addr, owner_bytes) = owner();
    let params = parameters(addr);
    let mut b = valid_box(owner_bytes);
    b.tokens = vec![Token { token_id: tid(0xDD), amount: 1 }];
    assert_eq!(validate(b, &params).unwrap_err(), BallotBoxError::UnknownBallotTokenId);
}

#[test]
fn missing_vote_parameters_fail_before_any_register_is_read() {
    let (addr, owner_bytes) = owner();
    let mut params = parameters(addr);
    params.vote_parameters = None;
    // Even a box that is broken in every other way reports the
    // precondition failure first.
    let mut b = valid_box(owner_bytes);
    b.tokens = vec![];
    b.additional_registers.r4 = None;
    assert_eq!(validate(b, &params).unwrap_err(), BallotBoxError::ExpectedVoteCast);
}

#[test]
fn foreign_group_element_in_r4_is_rejected() {
    let (addr, _) = owner();
    let params = parameters(addr);
    let b = valid_box(vec![0x07; 33]);
    assert_eq!(validate(b, &params).unwrap_err(), BallotBoxError::UnexpectedGroupElementInR4);
}

#[test]
fn malformed_owner_address_is_an_encoder_error() {
    let (_, owner_bytes) = owner();
    let params = parameters("not a base58 address!".to_string());
    let b = valid_box(owner_bytes);
    assert_eq!(validate(b, &params).unwrap_err(), BallotBoxError::AddressEncoder);
}

#[test]
fn missing_r4_is_no_group_element() {
    let (addr, owner_bytes) = owner();
    let params = parameters(addr);
    let mut b = valid_box(owner_bytes);
    b.additional_registers.r4 = None;
    assert_eq!(validate(b, &params).unwrap_err(), BallotBoxError::NoGroupElementInR4);
}

#[test]
fn mistyped_r4_is_an_extraction_error() {
    let (addr, owner_bytes) = owner();
    let params = parameters(addr);
    let mut b = valid_box(owner_bytes);
    b.additional_registers.r4 = Some(RegisterValue::Int(5));
    assert_eq!(validate(b, &params).unwrap_err(), BallotBoxError::TryExtractFrom);
}

#[test]
fn missing_or_mistyped_r5_names_r5() {
    let (addr, owner_bytes) = owner();
    let params = parameters(addr);
    let mut b = valid_box(owner_bytes.clone());
    b.additional_registers.r5 = None;
    assert_eq!(
        validate(b, &params).unwrap_err(),
        BallotBoxError::NoUpdateBoxCreationHeightInR5
    );
    let mut b = valid_box(owner_bytes);
    b.additional_registers.r5 = Some(RegisterValue::Other);
    assert_eq!(
        validate(b, &params).unwrap_err(),
        BallotBoxError::NoUpdateBoxCreationHeightInR5
    );
}

#[test]
fn missing_or_mistyped_r6_names_r6() {
    let (addr, owner_bytes) = owner();
    let params = parameters(addr);
    let mut b = valid_box(owner_bytes.clone());
    b.additional_registers.r6 = None;
    assert_eq!(validate(b, &params).unwrap_err(), BallotBoxError::NoPoolBoxAddressInR6);
    let mut b = valid_box(owner_bytes);
    b.additional_registers.r6 = Some(RegisterValue::Int(9));
    assert_eq!(validate(b, &params).unwrap_err(), BallotBoxError::NoPoolBoxAddressInR6);
}

#[test]
fn missing_or_mistyped_r7_names_r7() {
    let (addr, owner_bytes) = owner();
    let params = parameters(addr);
    let mut b = valid_box(owner_bytes.clone());
    b.additional_registers.r7 = None;
    assert_eq!(validate(b, &params).unwrap_err(), BallotBoxError::NoRewardTokenIdInR7);
    let mut b = valid_box(owner_bytes);
    b.additional_registers.r7 = Some(RegisterValue::Other);
    assert_eq!(validate(b, &params).unwrap_err(), BallotBoxError::NoRewardTokenIdInR7);
}

#[test]
fn missing_or_mistyped_r8_names_r8() {
    let (addr, owner_bytes) = owner();
    let params = parameters(addr);
    let mut b = valid_box(owner_bytes.clone());
    b.additional_registers.r8 = None;
    assert_eq!(validate(b, &params).unwrap_err(), BallotBoxError::NoRewardTokenQuantityInR8);
    let mut b = valid_box(owner_bytes);
    b.additional_registers.r8 = Some(RegisterValue::Digest(digest(0x33)));
    assert_eq!(validate(b, &params).unwrap_err(), BallotBoxError::NoRewardTokenQuantityInR8);
}

#[test]
fn negative_r8_reads_back_as_wrapped_unsigned_quantity() {
    let (addr, owner_bytes) = owner();
    let mut params = parameters(addr);
    if let Some(vp) = params.vote_parameters.as_mut() {
        vp.reward_token_quantity = u32::MAX;
    }
    let mut b = valid_box(owner_bytes);
    b.additional_registers.r8 = Some(RegisterValue::Int(-1));
    let (_, warnings) = validate(b, &params).unwrap();
    assert!(warnings.is_empty());
}

#[test]
fn upper_case_configured_hash_decodes_like_lower_case() {
    let (addr, owner_bytes) = owner();
    let mut params = parameters(addr);
    if let Some(vp) = params.vote_parameters.as_mut() {
        vp.pool_box_address_hash = base16::encode_upper(&[0x1au8; 32]);
    }
    let mut b = valid_box(owner_bytes);
    b.additional_registers.r6 = Some(RegisterValue::Digest(digest(0x1a)));
    let (_, warnings) = validate(b, &params).unwrap();
    assert!(warnings.is_empty());
}

#[test]
fn foreign_script_template_is_a_contract_error() {
    let (addr, owner_bytes) = owner();
    let params = parameters(addr);
    let mut b = valid_box(owner_bytes);
    b.ergo_tree.template = vec![9, 9, 9];
    assert_eq!(
        validate(b, &params).unwrap_err(),
        BallotBoxError::BallotContract(BallotContractError::UnexpectedErgoTree)
    );
}

#[test]
fn tree_without_min_storage_rent_is_a_contract_error() {
    let (addr, owner_bytes) = owner();
    let params = parameters(addr);
    let mut b = valid_box(owner_bytes);
    b.ergo_tree.min_storage_rent = None;
    assert_eq!(
        validate(b, &params).unwrap_err(),
        BallotBoxError::BallotContract(BallotContractError::NoMinStorageRent)
    );
}

#[test]
fn tree_without_update_nft_is_a_contract_error() {
    let (addr, owner_bytes) = owner();
    let params = parameters(addr);
    let mut b = valid_box(owner_bytes);
    b.ergo_tree.update_nft_token_id = None;
    assert_eq!(
        validate(b, &params).unwrap_err(),
        BallotBoxError::BallotContract(BallotContractError::NoUpdateNftId)
    );
}

#[test]
fn tree_with_foreign_update_nft_is_a_contract_error() {
    let (addr, owner_bytes) = owner();
    let params = parameters(addr);
    let mut b = valid_box(owner_bytes);
    b.ergo_tree.update_nft_token_id = Some(tid(0xAB));
    assert_eq!(
        validate(b, &params).unwrap_err(),
        BallotBoxError::BallotContract(BallotContractError::UnknownUpdateNftId)
    );
}

#[test]
fn validating_twice_gives_equal_results() {
    let (addr, owner_bytes) = owner();
    let params = parameters(addr);
    let mut b1 = valid_box(owner_bytes.clone());
    b1.additional_registers.r8 = Some(RegisterValue::Int(4999));
    let mut b2 = valid_box(owner_bytes.clone());
    b2.additional_registers.r8 = Some(RegisterValue::Int(4999));
    let (w1, warnings1) = validate(b1, &params).unwrap();
    let (w2, warnings2) = validate(b2, &params).unwrap();
    assert_eq!(warnings1, warnings2);
    assert_eq!(w1.get_box(), w2.get_box());
    assert_eq!(w1.ballot_token(), w2.ballot_token());
    assert_eq!(w1.min_storage_rent(), w2.min_storage_rent());
    assert_eq!(w1.ballot_token_owner().h.bytes, w2.ballot_token_owner().h.bytes);

    let mut b3 = valid_box(owner_bytes.clone());
    b3.tokens = vec![];
    let mut b4 = valid_box(owner_bytes);
    b4.tokens = vec![];
    assert_eq!(validate(b3, &params).unwrap_err(), validate(b4, &params).unwrap_err());
}

fn bind_contract() -> BallotContract {
    let contract_parameters = BallotContractParameters { ergo_tree_template: vec![1, 2, 3, 4] };
    let update_nft_token_id = tid(0xAA);
    let inputs = BallotContractInputs {
        contract_parameters: &contract_parameters,
        update_nft_token_id: &update_nft_token_id,
    };
    BallotContract::from_ergo_tree(tree(), &inputs).unwrap()
}

#[test]
fn candidate_lays_out_every_register() {
    let contract = bind_contract();
    let candidate = make_local_ballot_box_candidate(
        &contract,
        ProveDlog { h: GroupElement { bytes: vec![0x02; 33] } },
        100,
        Token { token_id: tid(0xCC), amount: 1 },
        digest(0x11),
        Token { token_id: tid(0xBB), amount: 5000 },
        10_000_000,
        720,
    )
    .unwrap();
    assert_eq!(candidate.value, 10_000_000);
    assert_eq!(candidate.creation_height, 720);
    assert_eq!(candidate.ergo_tree, tree());
    assert_eq!(candidate.tokens, vec![Token { token_id: tid(0xCC), amount: 1 }]);
    let regs = &candidate.additional_registers;
    assert_eq!(
        regs.r4,
        Some(RegisterValue::Group(GroupElement { bytes: vec![0x02; 33] }))
    );
    assert_eq!(regs.r5, Some(RegisterValue::Int(100)));
    assert_eq!(regs.r6, Some(RegisterValue::Digest(digest(0x11))));
    assert_eq!(regs.r7, Some(RegisterValue::TokenId(tid(0xBB))));
    assert_eq!(regs.r8, Some(RegisterValue::Int(5000)));
}

#[test]
fn candidate_height_above_i32_max_wraps_into_r5() {
    let contract = bind_contract();
    let candidate = make_local_ballot_box_candidate(
        &contract,
        ProveDlog { h: GroupElement { bytes: vec![0x02; 33] } },
        0x8000_0000,
        Token { token_id: tid(0xCC), amount: 1 },
        digest(0x11),
        Token { token_id: tid(0xBB), amount: 5000 },
        10_000_000,
        720,
    )
    .unwrap();
    assert_eq!(candidate.additional_registers.r5, Some(RegisterValue::Int(i32::MIN)));
}

#[test]
fn reward_amount_above_i32_max_fails_the_build() {
    let contract = bind_contract();
    let result = make_local_ballot_box_candidate(
        &contract,
        ProveDlog { h: GroupElement { bytes: vec![0x02; 33] } },
        100,
        Token { token_id: tid(0xCC), amount: 1 },
        digest(0x11),
        Token { token_id: tid(0xBB), amount: 0x8000_0000 },
        10_000_000,
        720,
    );
    assert_eq!(result.unwrap_err(), BallotBoxBuildError::RewardTokenQuantityOutOfRange);
}

#[test]
fn built_candidate_round_trips_through_validation() {
    let (addr, owner_bytes) = owner();
    let params = parameters(addr);
    let contract = bind_contract();
    let candidate: ErgoBoxCandidate = make_local_ballot_box_candidate(
        &contract,
        ProveDlog { h: GroupElement { bytes: owner_bytes } },
        100,
        Token { token_id: tid(0xCC), amount: 1 },
        digest(0x11),
        Token { token_id: tid(0xBB), amount: 5000 },
        10_000_000,
        720,
    )
    .unwrap();
    // The ledger assigns a candidate its identity; a box with the very
    // same fields is what validation would then observe.
    let observed = ErgoBox {
        value: candidate.value,
        ergo_tree: candidate.ergo_tree,
        tokens: candidate.tokens,
        additional_registers: candidate.additional_registers,
        creation_height: candidate.creation_height,
    };
    let (wrapper, warnings) = validate(observed, &params).unwrap();
    assert!(warnings.is_empty());
    let token = wrapper.ballot_token();
    assert_eq!(token.token_id, tid(0xCC));
    assert_eq!(token.amount, 1);
    assert_eq!(wrapper.min_storage_rent(), 10_000_000);
    assert_eq!(wrapper.get_box().value, 10_000_000);
    assert_eq!(wrapper.get_box().creation_height, 720);
}

#[test]
fn get_register_reads_each_slot() {
    let (_, owner_bytes) = owner();
    let b = valid_box(owner_bytes.clone());
    assert_eq!(
        b.get_register(NonMandatoryRegisterId::R4),
        &Some(RegisterValue::Group(GroupElement { bytes: owner_bytes }))
    );
    assert_eq!(b.get_register(NonMandatoryRegisterId::R5), &Some(RegisterValue::Int(100)));
    assert_eq!(
        b.get_register(NonMandatoryRegisterId::R6),
        &Some(RegisterValue::Digest(digest(0x11)))
    );
    assert_eq!(
        b.get_register(NonMandatoryRegisterId::R7),
        &Some(RegisterValue::TokenId(tid(0xBB)))
    );
    assert_eq!(b.get_register(NonMandatoryRegisterId::R8), &Some(RegisterValue::Int(5000)));
    let mut b = b;
    b.additional_registers.r6 = None;
    assert_eq!(b.get_register(NonMandatoryRegisterId::R6), &None);
}
