//! Binding of a box's script tree to the ballot contract: confirming that
//! the template is the expected one and that the embedded constants carry
//! the configured update NFT, and deriving the contract's minimum storage
//! rent.

use vstd::prelude::*;

use crate::data::{bytes_eq, ErgoTree, ErgoTreeV, TokenId};

verus! {

/// Why a script tree failed to bind as a ballot contract.
#[derive(Debug, Clone, Copy, PartialEq, Eq, Structural)]
pub enum BallotContractError {
    /// The tree's template is not the ballot contract's template.
    UnexpectedErgoTree,
    /// The minimum-storage-rent constant is absent or of the wrong type.
    NoMinStorageRent,
    /// The update-NFT constant is absent or of the wrong type.
    NoUpdateNftId,
    /// The update-NFT constant differs from the configured identifier.
    UnknownUpdateNftId,
}

/// The externally supplied description of the expected contract: the
/// script template the ballot contract compiles to.
#[derive(Debug, PartialEq, Eq)]
pub struct BallotContractParameters {
    pub ergo_tree_template: Vec<u8>,
}

impl View for BallotContractParameters {
    type V = Seq<u8>;

    open spec fn view(&self) -> Seq<u8> {
        self.ergo_tree_template@
    }
}

/// What contract binding needs: the expected template and the token
/// identifier that must appear as the tree's update-NFT constant.
#[derive(Clone, Copy, Debug)]
pub struct BallotContractInputs<'a> {
    pub contract_parameters: &'a BallotContractParameters,
    pub update_nft_token_id: &'a TokenId,
}

/// Which failure, if any, binding a tree with value `tree` against the
/// expected template and update NFT reports.  `None` means the tree binds.
pub open spec fn spec_bind_contract_err(
    tree: ErgoTreeV,
    template: Seq<u8>,
    update_nft_token_id: Seq<u8>,
) -> Option<BallotContractError> {
    if tree.template != template {
        Some(BallotContractError::UnexpectedErgoTree)
    } else if tree.min_storage_rent is None {
        Some(BallotContractError::NoMinStorageRent)
    } else if tree.update_nft_token_id is None {
        Some(BallotContractError::NoUpdateNftId)
    } else if tree.update_nft_token_id != Some(update_nft_token_id) {
        Some(BallotContractError::UnknownUpdateNftId)
    } else {
        None
    }
}

/// The mathematical value of a bound contract.
#[verifier::ext_equal]
pub struct BallotContractV {
    pub ergo_tree: ErgoTreeV,
    pub min_storage_rent: u64,
    pub update_nft_token_id: Seq<u8>,
}

/// A contract's derived fields agree with the constants of its tree.
pub open spec fn contract_wf(c: BallotContractV) -> bool {
    &&& c.ergo_tree.min_storage_rent == Some(c.min_storage_rent)
    &&& c.ergo_tree.update_nft_token_id == Some(c.update_nft_token_id)
}

/// A script tree confirmed to be a ballot contract, together with the
/// values derived from its constants.  Constructed only by
/// [`BallotContract::from_ergo_tree`]; immutable afterwards.
#[derive(Debug)]
pub struct BallotContract {
    ergo_tree: ErgoTree,
    min_storage_rent: u64,
    update_nft_token_id: TokenId,
}

impl View for BallotContract {
    type V = BallotContractV;

    closed spec fn view(&self) -> BallotContractV {
        BallotContractV {
            ergo_tree: self.ergo_tree@,
            min_storage_rent: self.min_storage_rent,
            update_nft_token_id: self.update_nft_token_id@,
        }
    }
}

impl BallotContract {
    /// Binds `ergo_tree` as a ballot contract: the template must be the
    /// expected one, the minimum-storage-rent and update-NFT constants
    /// must be present, and the latter must equal the configured
    /// identifier.
    pub fn from_ergo_tree(ergo_tree: ErgoTree, inputs: &BallotContractInputs) -> (r: Result<
        Self,
        BallotContractError,
    >)
        ensures
            match r {
                Ok(c) => {
                    &&& spec_bind_contract_err(
                        ergo_tree@,
                        inputs.contract_parameters@,
                        inputs.update_nft_token_id@,
                    ) is None
                    &&& c@.ergo_tree == ergo_tree@
                    &&& contract_wf(c@)
                },
                Err(e) => spec_bind_contract_err(
                    ergo_tree@,
                    inputs.contract_parameters@,
                    inputs.update_nft_token_id@,
                ) == Some(e),
            },
    {
        if !bytes_eq(&ergo_tree.template, &inputs.contract_parameters.ergo_tree_template) {
            return Err(BallotContractError::UnexpectedErgoTree);
        }
        let min_storage_rent: u64 = match &ergo_tree.min_storage_rent {
            Some(r) => *r,
            None => {
                return Err(BallotContractError::NoMinStorageRent);
            },
        };
        let update_nft_token_id: TokenId = match &ergo_tree.update_nft_token_id {
            Some(t) => t.duplicate(),
            None => {
                return Err(BallotContractError::NoUpdateNftId);
            },
        };
        if !bytes_eq(&update_nft_token_id.bytes, &inputs.update_nft_token_id.bytes) {
            return Err(BallotContractError::UnknownUpdateNftId);
        }
        Ok(BallotContract { ergo_tree, min_storage_rent, update_nft_token_id })
    }

    /// The minimum monetary value the contract lets a ballot box carry.
    pub fn min_storage_rent(&self) -> (r: u64)
        ensures
            r == self@.min_storage_rent,
    {
        self.min_storage_rent
    }

    /// The script tree the contract was bound from.
    pub fn ergo_tree(&self) -> (r: &ErgoTree)
        ensures
            r@ == self@.ergo_tree,
    {
        &self.ergo_tree
    }
}

} // verus!
