//! Recognition of ballot boxes observed on the ledger, and construction
//! of new ballot box candidates.
//!
//! Validation takes an arbitrary box together with the externally
//! supplied configuration and either produces a wrapper that owns the box
//! and its bound contract, paired with the soft-mismatch warnings found on
//! the way, or reports the first hard failure.  Building is the exact
//! structural inverse: it lays the vote out over registers R4 through R8
//! and attaches the ballot token at index 0.

use vstd::prelude::*;

use crate::address::{parse_owner_address, spec_address_p2pk_bytes};
use crate::contract::{
    contract_wf, spec_bind_contract_err, BallotContract, BallotContractError,
    BallotContractInputs, BallotContractParameters,
};
use crate::data::{
    bytes_eq, Digest32, ErgoBox, ErgoBoxCandidate, ErgoBoxV, ErgoTreeV, GroupElement,
    NonMandatoryRegisterId, NonMandatoryRegisters, ProveDlog, RegisterValue, RegisterValueV,
    RegistersV, Token, TokenV,
};
use crate::hex::{decode_hex, spec_hex_decode};

verus! {

/// Why a box was rejected as a ballot box.
#[derive(Debug, Clone, Copy, PartialEq, Eq, Structural)]
pub enum BallotBoxError {
    /// The box carries no token at index 0.
    NoBallotToken,
    /// The token at index 0 is not the configured ballot token.
    UnknownBallotTokenId,
    /// R7 is unpopulated or holds no token identifier.
    NoRewardTokenIdInR7,
    /// R8 is unpopulated or holds no 32-bit integer.
    NoRewardTokenQuantityInR8,
    /// R4 is unpopulated.
    NoGroupElementInR4,
    /// R4 holds a group element, but not the one implied by the
    /// configured owner address.
    UnexpectedGroupElementInR4,
    /// R5 is unpopulated or holds no 32-bit integer.
    NoUpdateBoxCreationHeightInR5,
    /// R6 is unpopulated or holds no 32-byte digest.
    NoPoolBoxAddressInR6,
    /// The box's script tree failed to bind as a ballot contract.
    BallotContract(BallotContractError),
    /// The configured owner address string is malformed.
    AddressEncoder,
    /// R4 is populated, but with a value of the wrong type.
    TryExtractFrom,
    /// Validation was attempted while no vote parameters are configured.
    ExpectedVoteCast,
}

/// A soft mismatch: a register whose well-typed value differs from the
/// configured one.  Such drift is expected while votes are recast, so it
/// never invalidates recognition of the box.
#[derive(Debug, Clone, Copy, PartialEq, Eq, Structural)]
pub enum BallotBoxWarning {
    /// R6 differs from the configured pool-box address hash.
    PoolBoxAddressHashDiffers,
    /// R7 differs from the configured reward token identifier.
    RewardTokenIdDiffers,
    /// R8 differs from the configured reward token quantity.
    RewardTokenQuantityDiffers,
}

/// The mathematical value of the configured vote parameters.
#[verifier::ext_equal]
pub struct VoteParametersV {
    pub reward_token_id: Seq<u8>,
    pub reward_token_quantity: u32,
    pub pool_box_address_hash: Seq<char>,
}

/// The vote a committee member is expected to have cast: the reward token
/// and quantity being voted for, and the pool-box address hash, as a
/// hexadecimal string.
#[derive(Debug, PartialEq, Eq)]
pub struct CastBallotBoxVoteParameters {
    pub reward_token_id: crate::data::TokenId,
    pub reward_token_quantity: u32,
    pub pool_box_address_hash: String,
}

impl View for CastBallotBoxVoteParameters {
    type V = VoteParametersV;

    open spec fn view(&self) -> VoteParametersV {
        VoteParametersV {
            reward_token_id: self.reward_token_id@,
            reward_token_quantity: self.reward_token_quantity,
            pool_box_address_hash: self.pool_box_address_hash@,
        }
    }
}

/// The mathematical value of the wrapper configuration.
#[verifier::ext_equal]
pub struct ParametersV {
    pub ballot_token_owner_address: Seq<char>,
    pub vote_parameters: Option<VoteParametersV>,
    pub contract_parameters: Seq<u8>,
}

/// The externally supplied, read-only configuration of ballot box
/// validation: the owner address string, the expected contract, and the
/// vote parameters when the pool is actively voting.
#[derive(Debug, PartialEq, Eq)]
pub struct BallotBoxWrapperParameters {
    pub ballot_token_owner_address: String,
    pub vote_parameters: Option<CastBallotBoxVoteParameters>,
    pub contract_parameters: BallotContractParameters,
}

impl View for BallotBoxWrapperParameters {
    type V = ParametersV;

    open spec fn view(&self) -> ParametersV {
        ParametersV {
            ballot_token_owner_address: self.ballot_token_owner_address@,
            vote_parameters: match &self.vote_parameters {
                Some(vp) => Some(vp@),
                None => None,
            },
            contract_parameters: self.contract_parameters@,
        }
    }
}

/// Everything validation consumes besides the box itself.
#[derive(Clone, Copy, Debug)]
pub struct BallotBoxWrapperInputs<'a> {
    pub parameters: &'a BallotBoxWrapperParameters,
    /// The ballot token is expected to reside in `tokens(0)` of the
    /// ballot box.
    pub ballot_token_id: &'a crate::data::TokenId,
    /// This token id appears as a constant in the ballot contract.
    pub update_nft_token_id: &'a crate::data::TokenId,
}

/// The unsigned 32-bit value that a signed 32-bit register value is read
/// back as.
pub open spec fn u32_bits_of_i32(x: i32) -> u32 {
    if x >= 0 {
        x as u32
    } else {
        (x as int + 0x1_0000_0000) as u32
    }
}

/// The signed 32-bit register value that an unsigned 32-bit height is
/// written as.
pub open spec fn i32_bits_of_u32(x: u32) -> i32 {
    if x <= 0x7fff_ffff {
        x as i32
    } else {
        (x as int - 0x1_0000_0000) as i32
    }
}

/// The first hard failure validation reports on a box with value `b`, or
/// `None` when the box is a valid ballot box.  `owner_parse` is what the
/// configured owner address string parses to; the checks run in this
/// order, and the order is part of the observable contract.
pub open spec fn spec_validate_err(
    b: ErgoBoxV,
    owner_parse: Option<Option<Seq<u8>>>,
    params: ParametersV,
    ballot_token_id: Seq<u8>,
    update_nft_token_id: Seq<u8>,
) -> Option<BallotBoxError> {
    if params.vote_parameters is None {
        Some(BallotBoxError::ExpectedVoteCast)
    } else if b.tokens.len() == 0 {
        Some(BallotBoxError::NoBallotToken)
    } else if b.tokens[0].token_id != ballot_token_id {
        Some(BallotBoxError::UnknownBallotTokenId)
    } else if b.registers.r4 is None {
        Some(BallotBoxError::NoGroupElementInR4)
    } else if !(b.registers.r4 matches Some(RegisterValueV::Group(_))) {
        Some(BallotBoxError::TryExtractFrom)
    } else if owner_parse is None {
        Some(BallotBoxError::AddressEncoder)
    } else if !(owner_parse matches Some(Some(pb)) && b.registers.r4 matches Some(
        RegisterValueV::Group(g),
    ) && pb == g) {
        Some(BallotBoxError::UnexpectedGroupElementInR4)
    } else if !(b.registers.r5 matches Some(RegisterValueV::Int(_))) {
        Some(BallotBoxError::NoUpdateBoxCreationHeightInR5)
    } else if !(b.registers.r6 matches Some(RegisterValueV::Digest(_))) {
        Some(BallotBoxError::NoPoolBoxAddressInR6)
    } else if !(b.registers.r7 matches Some(RegisterValueV::TokenId(_))) {
        Some(BallotBoxError::NoRewardTokenIdInR7)
    } else if !(b.registers.r8 matches Some(RegisterValueV::Int(_))) {
        Some(BallotBoxError::NoRewardTokenQuantityInR8)
    } else {
        match spec_bind_contract_err(b.ergo_tree, params.contract_parameters, update_nft_token_id) {
            Some(ce) => Some(BallotBoxError::BallotContract(ce)),
            None => None,
        }
    }
}

/// The soft-mismatch warnings validation emits on a structurally valid
/// box, in the order the registers are checked.  `pool_box_hash` is the
/// decoded configured pool-box address hash.
pub open spec fn spec_warnings(
    b: ErgoBoxV,
    reward_token_id: Seq<u8>,
    reward_token_quantity: u32,
    pool_box_hash: Seq<u8>,
) -> Seq<BallotBoxWarning> {
    (if b.registers.r6 matches Some(RegisterValueV::Digest(d)) && d != pool_box_hash {
        seq![BallotBoxWarning::PoolBoxAddressHashDiffers]
    } else {
        Seq::empty()
    }) + (if b.registers.r7 matches Some(RegisterValueV::TokenId(t)) && t != reward_token_id {
        seq![BallotBoxWarning::RewardTokenIdDiffers]
    } else {
        Seq::empty()
    }) + (if b.registers.r8 matches Some(RegisterValueV::Int(q)) && u32_bits_of_i32(q)
        != reward_token_quantity {
        seq![BallotBoxWarning::RewardTokenQuantityDiffers]
    } else {
        Seq::empty()
    })
}

/// The capability interface of a validated ballot box: read-only access
/// to the box, its contract and the fields validation guaranteed.
pub trait BallotBox: Sized {
    /// The mathematical value of the underlying box.
    spec fn box_model(&self) -> ErgoBoxV;

    /// The mathematical value of the bound contract.
    spec fn contract_model(&self) -> crate::contract::BallotContractV;

    /// The bound contract.
    fn contract(&self) -> (r: &BallotContract)
        ensures
            r@ == self.contract_model(),
    ;

    /// The ballot token, present at index 0 because validation checked it.
    fn ballot_token(&self) -> (r: Token)
        ensures
            self.box_model().tokens.len() >= 1,
            r@ == self.box_model().tokens[0],
    ;

    /// The minimum monetary value the contract lets the box carry.
    fn min_storage_rent(&self) -> (r: u64)
        ensures
            r == self.contract_model().min_storage_rent,
    ;

    /// The owner's public key, re-read from R4, which validation showed
    /// to hold a group element.
    fn ballot_token_owner(&self) -> (r: ProveDlog)
        ensures
            self.box_model().registers.r4 matches Some(RegisterValueV::Group(g)) && r@ == g,
    ;

    /// The underlying box.
    fn get_box(&self) -> (r: &ErgoBox)
        ensures
            r@ == self.box_model(),
    ;
}

/// A box that passed validation, owning the original box and its bound
/// contract.  Only [`BallotBoxWrapper::new`] produces one; afterwards it
/// is immutable and exposes read-only accessors.
#[derive(Debug)]
pub struct BallotBoxWrapper {
    ergo_box: ErgoBox,
    contract: BallotContract,
}

impl BallotBoxWrapper {
    #[verifier::type_invariant]
    spec fn inv(&self) -> bool {
        &&& self.ergo_box@.tokens.len() >= 1
        &&& self.ergo_box@.registers.r4 matches Some(RegisterValueV::Group(_))
    }

    /// Validates `ergo_box` against the configuration: the procedure of
    /// the hard checks is fixed by [`spec_validate_err`], the soft checks
    /// by [`spec_warnings`].  On success the wrapper owns the box and the
    /// bound contract, and the warning list records every soft mismatch.
    pub fn new(ergo_box: ErgoBox, inputs: &BallotBoxWrapperInputs) -> (r: Result<
        (Self, Vec<BallotBoxWarning>),
        BallotBoxError,
    >)
        requires
            inputs.parameters.vote_parameters matches Some(vp) ==> (spec_hex_decode(
                vp.pool_box_address_hash@,
            ) matches Some(h) && h.len() == 32),
        ensures
            ({
                let err = spec_validate_err(
                    ergo_box@,
                    spec_address_p2pk_bytes(inputs.parameters.ballot_token_owner_address@),
                    inputs.parameters@,
                    inputs.ballot_token_id@,
                    inputs.update_nft_token_id@,
                );
                match r {
                    Ok(pair) => {
                        &&& err is None
                        &&& pair.0.box_model() == ergo_box@
                        &&& contract_wf(pair.0.contract_model())
                        &&& pair.0.contract_model().ergo_tree == ergo_box@.ergo_tree
                        &&& inputs.parameters@.vote_parameters matches Some(vpv)
                            && spec_hex_decode(vpv.pool_box_address_hash) matches Some(h)
                            && pair.1@ == spec_warnings(
                            ergo_box@,
                            vpv.reward_token_id,
                            vpv.reward_token_quantity,
                            h,
                        )
                    },
                    Err(e) => err == Some(e),
                }
            }),
    {
        let vp: &CastBallotBoxVoteParameters = match &inputs.parameters.vote_parameters {
            Some(vp) => vp,
            None => {
                return Err(BallotBoxError::ExpectedVoteCast);
            },
        };
        if ergo_box.tokens.len() == 0 {
            return Err(BallotBoxError::NoBallotToken);
        }
        if !bytes_eq(&ergo_box.tokens[0].token_id.bytes, &inputs.ballot_token_id.bytes) {
            return Err(BallotBoxError::UnknownBallotTokenId);
        }
        let owner_group: &GroupElement = match ergo_box.get_register(NonMandatoryRegisterId::R4) {
            Some(RegisterValue::Group(g)) => g,
            Some(_) => {
                return Err(BallotBoxError::TryExtractFrom);
            },
            None => {
                return Err(BallotBoxError::NoGroupElementInR4);
            },
        };
        let config_bytes: Option<Vec<u8>> = match parse_owner_address(
            &inputs.parameters.ballot_token_owner_address,
        ) {
            Ok(ob) => ob,
            Err(_) => {
                return Err(BallotBoxError::AddressEncoder);
            },
        };
        let owner_matches: bool = match &config_bytes {
            Some(b) => bytes_eq(b, &owner_group.bytes),
            None => false,
        };
        if !owner_matches {
            return Err(BallotBoxError::UnexpectedGroupElementInR4);
        }
        match ergo_box.get_register(NonMandatoryRegisterId::R5) {
            Some(RegisterValue::Int(_)) => {},
            _ => {
                return Err(BallotBoxError::NoUpdateBoxCreationHeightInR5);
            },
        }
        let reg_hash: &Digest32 = match ergo_box.get_register(NonMandatoryRegisterId::R6) {
            Some(RegisterValue::Digest(d)) => d,
            _ => {
                return Err(BallotBoxError::NoPoolBoxAddressInR6);
            },
        };
        let config_hash: Vec<u8> = match decode_hex(&vp.pool_box_address_hash) {
            Some(v) => v,
            None => {
                proof {
                    assert(false);
                }
                Vec::new()
            },
        };
        let mut warnings: Vec<BallotBoxWarning> = Vec::new();
        if !bytes_eq(&reg_hash.bytes, &config_hash) {
            warnings.push(BallotBoxWarning::PoolBoxAddressHashDiffers);
        }
        let reg_reward_id: &crate::data::TokenId = match ergo_box.get_register(NonMandatoryRegisterId::R7) {
            Some(RegisterValue::TokenId(t)) => t,
            _ => {
                return Err(BallotBoxError::NoRewardTokenIdInR7);
            },
        };
        if !bytes_eq(&reg_reward_id.bytes, &vp.reward_token_id.bytes) {
            warnings.push(BallotBoxWarning::RewardTokenIdDiffers);
        }
        let reg_quantity: i32 = match ergo_box.get_register(NonMandatoryRegisterId::R8) {
            Some(RegisterValue::Int(q)) => *q,
            _ => {
                return Err(BallotBoxError::NoRewardTokenQuantityInR8);
            },
        };
        let reg_quantity_u32: u32 = if reg_quantity >= 0 {
            reg_quantity as u32
        } else {
            ((reg_quantity as i64) + 0x1_0000_0000i64) as u32
        };
        if reg_quantity_u32 != vp.reward_token_quantity {
            warnings.push(BallotBoxWarning::RewardTokenQuantityDiffers);
        }
        let contract_inputs = BallotContractInputs {
            contract_parameters: &inputs.parameters.contract_parameters,
            update_nft_token_id: inputs.update_nft_token_id,
        };
        let contract: BallotContract = match BallotContract::from_ergo_tree(
            ergo_box.ergo_tree.duplicate(),
            &contract_inputs,
        ) {
            Ok(c) => c,
            Err(e) => {
                return Err(BallotBoxError::BallotContract(e));
            },
        };
        Ok((BallotBoxWrapper { ergo_box, contract }, warnings))
    }
}

impl BallotBox for BallotBoxWrapper {
    closed spec fn box_model(&self) -> ErgoBoxV {
        self.ergo_box@
    }

    closed spec fn contract_model(&self) -> crate::contract::BallotContractV {
        self.contract@
    }

    fn contract(&self) -> (r: &BallotContract) {
        &self.contract
    }

    fn ballot_token(&self) -> (r: Token) {
        proof {
            use_type_invariant(self);
        }
        self.ergo_box.tokens[0].duplicate()
    }

    fn min_storage_rent(&self) -> (r: u64) {
        self.contract.min_storage_rent()
    }

    fn ballot_token_owner(&self) -> (r: ProveDlog) {
        proof {
            use_type_invariant(self);
        }
        match &self.ergo_box.additional_registers.r4 {
            Some(RegisterValue::Group(g)) => ProveDlog { h: g.duplicate() },
            _ => {
                proof {
                    assert(false);
                }
                ProveDlog { h: GroupElement { bytes: Vec::new() } }
            },
        }
    }

    fn get_box(&self) -> (r: &ErgoBox) {
        &self.ergo_box
    }
}

/// Why a ballot box candidate could not be laid out.
#[derive(Debug, Clone, Copy, PartialEq, Eq, Structural)]
pub enum BallotBoxBuildError {
    /// The reward token quantity does not fit a signed 32-bit register.
    RewardTokenQuantityOutOfRange,
}

/// The candidate that building lays out: the vote over registers R4
/// through R8, the ballot token as the only attached token, and the
/// contract's script tree.
pub open spec fn spec_local_ballot_box_candidate(
    tree: ErgoTreeV,
    ballot_token_owner: Seq<u8>,
    update_box_creation_height: u32,
    ballot_token: TokenV,
    pool_box_address_hash: Seq<u8>,
    reward_tokens: TokenV,
    value: u64,
    creation_height: u32,
) -> ErgoBoxV {
    ErgoBoxV {
        value,
        ergo_tree: tree,
        tokens: seq![ballot_token],
        registers: RegistersV {
            r4: Some(RegisterValueV::Group(ballot_token_owner)),
            r5: Some(RegisterValueV::Int(i32_bits_of_u32(update_box_creation_height))),
            r6: Some(RegisterValueV::Digest(pool_box_address_hash)),
            r7: Some(RegisterValueV::TokenId(reward_tokens.token_id)),
            r8: Some(RegisterValueV::Int(reward_tokens.amount as i32)),
        },
        creation_height,
    }
}

/// Builds a new ballot box candidate for a local vote: the exact
/// structural inverse of the register checks of validation.  Fails only
/// when the reward token quantity exceeds what a signed 32-bit register
/// can represent.
pub fn make_local_ballot_box_candidate(
    contract: &BallotContract,
    ballot_token_owner: ProveDlog,
    update_box_creation_height: u32,
    ballot_token: Token,
    pool_box_address_hash: Digest32,
    reward_tokens: Token,
    value: u64,
    creation_height: u32,
) -> (r: Result<ErgoBoxCandidate, BallotBoxBuildError>)
    ensures
        match r {
            Ok(c) => {
                &&& reward_tokens.amount <= 0x7fff_ffff
                &&& c@ == spec_local_ballot_box_candidate(
                    contract@.ergo_tree,
                    ballot_token_owner@,
                    update_box_creation_height,
                    ballot_token@,
                    pool_box_address_hash@,
                    reward_tokens@,
                    value,
                    creation_height,
                )
            },
            Err(e) => {
                &&& e == BallotBoxBuildError::RewardTokenQuantityOutOfRange
                &&& reward_tokens.amount > 0x7fff_ffff
            },
        },
{
    if reward_tokens.amount > 0x7fff_ffff {
        return Err(BallotBoxBuildError::RewardTokenQuantityOutOfRange);
    }
    let r5_value: i32 = if update_box_creation_height <= 0x7fff_ffff {
        update_box_creation_height as i32
    } else {
        ((update_box_creation_height as i64) - 0x1_0000_0000i64) as i32
    };
    let r8_value: i32 = reward_tokens.amount as i32;
    let mut tokens: Vec<Token> = Vec::new();
    tokens.push(ballot_token);
    let candidate = ErgoBoxCandidate {
        value,
        ergo_tree: contract.ergo_tree().duplicate(),
        tokens,
        additional_registers: NonMandatoryRegisters {
            r4: Some(RegisterValue::Group(ballot_token_owner.h)),
            r5: Some(RegisterValue::Int(r5_value)),
            r6: Some(RegisterValue::Digest(pool_box_address_hash)),
            r7: Some(RegisterValue::TokenId(reward_tokens.token_id)),
            r8: Some(RegisterValue::Int(r8_value)),
        },
        creation_height,
    };
    proof {
        assert(candidate@.tokens =~= seq![candidate.tokens@[0]@]);
    }
    Ok(candidate)
}

} // verus!
