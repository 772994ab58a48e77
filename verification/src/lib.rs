//! Recognition and construction of ballot boxes for an oracle pool on a
//! UTXO ledger.
//!
//! A ballot box is a ledger output that carries a committee member's
//! vote: a ballot token in its first token slot, the owner's public key
//! in register R4, and the vote payload in registers R5 through R8.  The
//! library decides whether an observed box is a structurally and
//! referentially valid ballot box for a given configuration —
//! distinguishing hard failures from the soft mismatches that vote drift
//! legitimately causes — and builds new ballot box candidates whose
//! register layout is the exact inverse of what the validator checks.

mod address;
mod ballot_box;
mod contract;
mod data;
mod hex;
mod laws;

pub use data::{
    bytes_eq, clone_bytes, spec_register, Digest32, ErgoBox, ErgoBoxCandidate, ErgoBoxV, ErgoTree,
    ErgoTreeV, GroupElement, NonMandatoryRegisterId, NonMandatoryRegisters, ProveDlog,
    RegisterValue, RegisterValueV, RegistersV, Token, TokenId, TokenV,
};
pub use hex::{hex_digit_value, spec_hex_decode};
pub use address::spec_address_p2pk_bytes;
pub use contract::{
    contract_wf, spec_bind_contract_err, BallotContract, BallotContractError,
    BallotContractInputs, BallotContractParameters, BallotContractV,
};
pub use ballot_box::{
    i32_bits_of_u32, make_local_ballot_box_candidate, spec_local_ballot_box_candidate,
    spec_validate_err, spec_warnings, u32_bits_of_i32, BallotBox, BallotBoxBuildError,
    BallotBoxError, BallotBoxWarning, BallotBoxWrapper, BallotBoxWrapperInputs,
    BallotBoxWrapperParameters, CastBallotBoxVoteParameters, ParametersV, VoteParametersV,
};
pub use laws::{
    lemma_build_validate_round_trip, lemma_hard_vs_soft_r6, lemma_hard_vs_soft_r7,
    lemma_hard_vs_soft_r8, lemma_owner_gate, lemma_precondition_gate, lemma_token_gate,
    lemma_validate_deterministic, with_register,
};
