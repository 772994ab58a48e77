//! The laws relating validation and construction: the round trip from
//! builder to validator, the gates of the hard checks, the hard-versus-
//! soft distinction on the vote registers, and determinism of validation.

use vstd::prelude::*;

use crate::ballot_box::{
    spec_local_ballot_box_candidate, spec_validate_err, spec_warnings, u32_bits_of_i32,
    BallotBoxError, BallotBoxWarning, ParametersV,
};
use crate::contract::contract_wf;
use crate::contract::BallotContractV;
use crate::data::{ErgoBoxV, NonMandatoryRegisterId, RegisterValueV, RegistersV, TokenV};
use crate::hex::spec_hex_decode;

verus! {

/// The box with value `b`, with the one register slot `id` replaced by
/// `v` and everything else unchanged.
pub open spec fn with_register(
    b: ErgoBoxV,
    id: NonMandatoryRegisterId,
    v: Option<RegisterValueV>,
) -> ErgoBoxV {
    ErgoBoxV {
        value: b.value,
        ergo_tree: b.ergo_tree,
        tokens: b.tokens,
        registers: RegistersV {
            r4: if id == NonMandatoryRegisterId::R4 {
                v
            } else {
                b.registers.r4
            },
            r5: if id == NonMandatoryRegisterId::R5 {
                v
            } else {
                b.registers.r5
            },
            r6: if id == NonMandatoryRegisterId::R6 {
                v
            } else {
                b.registers.r6
            },
            r7: if id == NonMandatoryRegisterId::R7 {
                v
            } else {
                b.registers.r7
            },
            r8: if id == NonMandatoryRegisterId::R8 {
                v
            } else {
                b.registers.r8
            },
        },
        creation_height: b.creation_height,
    }
}

/// Round trip: a candidate laid out by the builder from a bound contract,
/// an owner key, a height, the configured ballot token, pool hash and
/// reward token validates against the same configuration with no hard
/// failure and no warnings.
pub proof fn lemma_build_validate_round_trip(
    contract: BallotContractV,
    ballot_token_owner: Seq<u8>,
    update_box_creation_height: u32,
    ballot_token: TokenV,
    pool_box_address_hash: Seq<u8>,
    reward_tokens: TokenV,
    value: u64,
    creation_height: u32,
    owner_parse: Option<Option<Seq<u8>>>,
    params: ParametersV,
    ballot_token_id: Seq<u8>,
    update_nft_token_id: Seq<u8>,
)
    requires
        contract_wf(contract),
        contract.ergo_tree.template == params.contract_parameters,
        contract.update_nft_token_id == update_nft_token_id,
        owner_parse == Some(Some(ballot_token_owner)),
        ballot_token.token_id == ballot_token_id,
        reward_tokens.amount <= 0x7fff_ffff,
        params.vote_parameters matches Some(vp) ==> {
            &&& vp.reward_token_id == reward_tokens.token_id
            &&& vp.reward_token_quantity == reward_tokens.amount as u32
            &&& spec_hex_decode(vp.pool_box_address_hash) == Some(pool_box_address_hash)
        },
        params.vote_parameters is Some,
    ensures
        ({
            let c = spec_local_ballot_box_candidate(
                contract.ergo_tree,
                ballot_token_owner,
                update_box_creation_height,
                ballot_token,
                pool_box_address_hash,
                reward_tokens,
                value,
                creation_height,
            );
            &&& spec_validate_err(c, owner_parse, params, ballot_token_id, update_nft_token_id)
                is None
            &&& params.vote_parameters matches Some(vp) ==> spec_warnings(
                c,
                vp.reward_token_id,
                vp.reward_token_quantity,
                pool_box_address_hash,
            ) == Seq::<BallotBoxWarning>::empty()
        }),
{
    let c = spec_local_ballot_box_candidate(
        contract.ergo_tree,
        ballot_token_owner,
        update_box_creation_height,
        ballot_token,
        pool_box_address_hash,
        reward_tokens,
        value,
        creation_height,
    );
    assert(c.tokens[0] == ballot_token);
    assert(u32_bits_of_i32(reward_tokens.amount as i32) == reward_tokens.amount as u32);
    if let Some(vp) = params.vote_parameters {
        assert(spec_warnings(
            c,
            vp.reward_token_id,
            vp.reward_token_quantity,
            pool_box_address_hash,
        ) =~= Seq::<BallotBoxWarning>::empty());
    }
}

/// Token gate: a box with an empty token list fails with the
/// no-ballot-token error, and a box whose index-0 token differs from the
/// configured ballot token fails with the unknown-token-id error,
/// whatever its registers hold.
pub proof fn lemma_token_gate(
    b: ErgoBoxV,
    owner_parse: Option<Option<Seq<u8>>>,
    params: ParametersV,
    ballot_token_id: Seq<u8>,
    update_nft_token_id: Seq<u8>,
)
    requires
        params.vote_parameters is Some,
    ensures
        b.tokens.len() == 0 ==> spec_validate_err(
            b,
            owner_parse,
            params,
            ballot_token_id,
            update_nft_token_id,
        ) == Some(BallotBoxError::NoBallotToken),
        b.tokens.len() > 0 && b.tokens[0].token_id != ballot_token_id ==> spec_validate_err(
            b,
            owner_parse,
            params,
            ballot_token_id,
            update_nft_token_id,
        ) == Some(BallotBoxError::UnknownBallotTokenId),
{
}

/// Owner gate: when the configured owner address implies one group
/// element and R4 holds a different one, validation fails with the
/// unexpected-group-element error, however well the rest of the box
/// matches.
pub proof fn lemma_owner_gate(
    b: ErgoBoxV,
    owner_parse: Option<Option<Seq<u8>>>,
    params: ParametersV,
    ballot_token_id: Seq<u8>,
    update_nft_token_id: Seq<u8>,
    g: Seq<u8>,
)
    requires
        params.vote_parameters is Some,
        b.tokens.len() > 0,
        b.tokens[0].token_id == ballot_token_id,
        b.registers.r4 == Some(RegisterValueV::Group(g)),
        owner_parse matches Some(Some(pb)) && pb != g,
    ensures
        spec_validate_err(b, owner_parse, params, ballot_token_id, update_nft_token_id) == Some(
            BallotBoxError::UnexpectedGroupElementInR4,
        ),
{
}

/// Precondition gate: with no vote parameters configured, validation
/// fails with the expected-vote-cast error before any token or register
/// of the box is read.
pub proof fn lemma_precondition_gate(
    b: ErgoBoxV,
    owner_parse: Option<Option<Seq<u8>>>,
    params: ParametersV,
    ballot_token_id: Seq<u8>,
    update_nft_token_id: Seq<u8>,
)
    requires
        params.vote_parameters is None,
    ensures
        spec_validate_err(b, owner_parse, params, ballot_token_id, update_nft_token_id) == Some(
            BallotBoxError::ExpectedVoteCast,
        ),
{
}

/// Hard versus soft on R6: on a valid, warning-free ballot box, writing a
/// different well-typed digest into R6 keeps validation successful with
/// exactly the pool-box warning, while removing R6 or writing a value of
/// another type is the hard failure naming R6.
pub proof fn lemma_hard_vs_soft_r6(
    b: ErgoBoxV,
    owner_parse: Option<Option<Seq<u8>>>,
    params: ParametersV,
    ballot_token_id: Seq<u8>,
    update_nft_token_id: Seq<u8>,
    reward_token_id: Seq<u8>,
    reward_token_quantity: u32,
    pool_box_hash: Seq<u8>,
    d: Seq<u8>,
    wrong: Option<RegisterValueV>,
)
    requires
        spec_validate_err(b, owner_parse, params, ballot_token_id, update_nft_token_id) is None,
        spec_warnings(b, reward_token_id, reward_token_quantity, pool_box_hash) == Seq::<
            BallotBoxWarning,
        >::empty(),
        d != pool_box_hash,
        !(wrong matches Some(RegisterValueV::Digest(_))),
    ensures
        spec_validate_err(
            with_register(b, NonMandatoryRegisterId::R6, Some(RegisterValueV::Digest(d))),
            owner_parse,
            params,
            ballot_token_id,
            update_nft_token_id,
        ) is None,
        spec_warnings(
            with_register(b, NonMandatoryRegisterId::R6, Some(RegisterValueV::Digest(d))),
            reward_token_id,
            reward_token_quantity,
            pool_box_hash,
        ) == seq![BallotBoxWarning::PoolBoxAddressHashDiffers],
        spec_validate_err(
            with_register(b, NonMandatoryRegisterId::R6, wrong),
            owner_parse,
            params,
            ballot_token_id,
            update_nft_token_id,
        ) == Some(BallotBoxError::NoPoolBoxAddressInR6),
{
    lemma_warning_free_registers(b, reward_token_id, reward_token_quantity, pool_box_hash);
    assert(spec_warnings(
        with_register(b, NonMandatoryRegisterId::R6, Some(RegisterValueV::Digest(d))),
        reward_token_id,
        reward_token_quantity,
        pool_box_hash,
    ) =~= seq![BallotBoxWarning::PoolBoxAddressHashDiffers]);
}

/// Hard versus soft on R7: on a valid, warning-free ballot box, writing a
/// different well-typed token identifier into R7 keeps validation
/// successful with exactly the reward-token-id warning, while removing R7
/// or writing a value of another type is the hard failure naming R7.
pub proof fn lemma_hard_vs_soft_r7(
    b: ErgoBoxV,
    owner_parse: Option<Option<Seq<u8>>>,
    params: ParametersV,
    ballot_token_id: Seq<u8>,
    update_nft_token_id: Seq<u8>,
    reward_token_id: Seq<u8>,
    reward_token_quantity: u32,
    pool_box_hash: Seq<u8>,
    t: Seq<u8>,
    wrong: Option<RegisterValueV>,
)
    requires
        spec_validate_err(b, owner_parse, params, ballot_token_id, update_nft_token_id) is None,
        spec_warnings(b, reward_token_id, reward_token_quantity, pool_box_hash) == Seq::<
            BallotBoxWarning,
        >::empty(),
        t != reward_token_id,
        !(wrong matches Some(RegisterValueV::TokenId(_))),
    ensures
        spec_validate_err(
            with_register(b, NonMandatoryRegisterId::R7, Some(RegisterValueV::TokenId(t))),
            owner_parse,
            params,
            ballot_token_id,
            update_nft_token_id,
        ) is None,
        spec_warnings(
            with_register(b, NonMandatoryRegisterId::R7, Some(RegisterValueV::TokenId(t))),
            reward_token_id,
            reward_token_quantity,
            pool_box_hash,
        ) == seq![BallotBoxWarning::RewardTokenIdDiffers],
        spec_validate_err(
            with_register(b, NonMandatoryRegisterId::R7, wrong),
            owner_parse,
            params,
            ballot_token_id,
            update_nft_token_id,
        ) == Some(BallotBoxError::NoRewardTokenIdInR7),
{
    lemma_warning_free_registers(b, reward_token_id, reward_token_quantity, pool_box_hash);
    assert(spec_warnings(
        with_register(b, NonMandatoryRegisterId::R7, Some(RegisterValueV::TokenId(t))),
        reward_token_id,
        reward_token_quantity,
        pool_box_hash,
    ) =~= seq![BallotBoxWarning::RewardTokenIdDiffers]);
}

/// Hard versus soft on R8: on a valid, warning-free ballot box, writing a
/// well-typed integer that reads back as a different quantity into R8
/// keeps validation successful with exactly the reward-quantity warning,
/// while removing R8 or writing a value of another type is the hard
/// failure naming R8.
pub proof fn lemma_hard_vs_soft_r8(
    b: ErgoBoxV,
    owner_parse: Option<Option<Seq<u8>>>,
    params: ParametersV,
    ballot_token_id: Seq<u8>,
    update_nft_token_id: Seq<u8>,
    reward_token_id: Seq<u8>,
    reward_token_quantity: u32,
    pool_box_hash: Seq<u8>,
    q: i32,
    wrong: Option<RegisterValueV>,
)
    requires
        spec_validate_err(b, owner_parse, params, ballot_token_id, update_nft_token_id) is None,
        spec_warnings(b, reward_token_id, reward_token_quantity, pool_box_hash) == Seq::<
            BallotBoxWarning,
        >::empty(),
        u32_bits_of_i32(q) != reward_token_quantity,
        !(wrong matches Some(RegisterValueV::Int(_))),
    ensures
        spec_validate_err(
            with_register(b, NonMandatoryRegisterId::R8, Some(RegisterValueV::Int(q))),
            owner_parse,
            params,
            ballot_token_id,
            update_nft_token_id,
        ) is None,
        spec_warnings(
            with_register(b, NonMandatoryRegisterId::R8, Some(RegisterValueV::Int(q))),
            reward_token_id,
            reward_token_quantity,
            pool_box_hash,
        ) == seq![BallotBoxWarning::RewardTokenQuantityDiffers],
        spec_validate_err(
            with_register(b, NonMandatoryRegisterId::R8, wrong),
            owner_parse,
            params,
            ballot_token_id,
            update_nft_token_id,
        ) == Some(BallotBoxError::NoRewardTokenQuantityInR8),
{
    lemma_warning_free_registers(b, reward_token_id, reward_token_quantity, pool_box_hash);
    assert(spec_warnings(
        with_register(b, NonMandatoryRegisterId::R8, Some(RegisterValueV::Int(q))),
        reward_token_id,
        reward_token_quantity,
        pool_box_hash,
    ) =~= seq![BallotBoxWarning::RewardTokenQuantityDiffers]);
}

/// A warning-free box agrees with the configuration on each well-typed
/// vote register.
proof fn lemma_warning_free_registers(
    b: ErgoBoxV,
    reward_token_id: Seq<u8>,
    reward_token_quantity: u32,
    pool_box_hash: Seq<u8>,
)
    requires
        spec_warnings(b, reward_token_id, reward_token_quantity, pool_box_hash) == Seq::<
            BallotBoxWarning,
        >::empty(),
    ensures
        b.registers.r6 matches Some(RegisterValueV::Digest(d)) ==> d == pool_box_hash,
        b.registers.r7 matches Some(RegisterValueV::TokenId(t)) ==> t == reward_token_id,
        b.registers.r8 matches Some(RegisterValueV::Int(q)) ==> u32_bits_of_i32(q)
            == reward_token_quantity,
{
    assert(spec_warnings(b, reward_token_id, reward_token_quantity, pool_box_hash).len() == 0);
}

/// Idempotence: validation is a pure function of the box and the
/// configuration, so validating the same box against the same
/// configuration twice gives the same hard outcome and the same warnings.
pub proof fn lemma_validate_deterministic(
    b1: ErgoBoxV,
    b2: ErgoBoxV,
    owner_parse1: Option<Option<Seq<u8>>>,
    owner_parse2: Option<Option<Seq<u8>>>,
    params1: ParametersV,
    params2: ParametersV,
    ballot_token_id: Seq<u8>,
    update_nft_token_id: Seq<u8>,
    reward_token_id: Seq<u8>,
    reward_token_quantity: u32,
    pool_box_hash: Seq<u8>,
)
    requires
        b1 == b2,
        owner_parse1 == owner_parse2,
        params1 == params2,
    ensures
        spec_validate_err(b1, owner_parse1, params1, ballot_token_id, update_nft_token_id)
            == spec_validate_err(b2, owner_parse2, params2, ballot_token_id, update_nft_token_id),
        spec_warnings(b1, reward_token_id, reward_token_quantity, pool_box_hash) == spec_warnings(
            b2,
            reward_token_id,
            reward_token_quantity,
            pool_box_hash,
        ),
{
}

} // verus!
