//! The plain-value model of the ledger entities the library reads and
//! writes: tokens, registers, script trees, boxes and box candidates.
//!
//! Group elements, digests and token identifiers are carried as their
//! serialized bytes; a register holds a typed value or marks a value of
//! some other type, so that absence and type mismatch stay distinguishable.

use vstd::prelude::*;

verus! {

/// The 32-byte digest that names a token on the ledger.
#[derive(Debug, PartialEq, Eq)]
pub struct TokenId {
    pub bytes: Vec<u8>,
}

impl View for TokenId {
    type V = Seq<u8>;

    open spec fn view(&self) -> Seq<u8> {
        self.bytes@
    }
}

impl TokenId {
    /// An owned copy with the same bytes.
    pub fn duplicate(&self) -> (r: Self)
        ensures
            r@ == self@,
    {
        TokenId { bytes: clone_bytes(&self.bytes) }
    }
}

/// A 32-byte hash value, as stored in register R6.
#[derive(Debug, PartialEq, Eq)]
pub struct Digest32 {
    pub bytes: Vec<u8>,
}

impl View for Digest32 {
    type V = Seq<u8>;

    open spec fn view(&self) -> Seq<u8> {
        self.bytes@
    }
}

impl Digest32 {
    /// An owned copy with the same bytes.
    pub fn duplicate(&self) -> (r: Self)
        ensures
            r@ == self@,
    {
        Digest32 { bytes: clone_bytes(&self.bytes) }
    }
}

/// An elliptic-curve point, carried as its serialized bytes.
#[derive(Debug, PartialEq, Eq)]
pub struct GroupElement {
    pub bytes: Vec<u8>,
}

impl View for GroupElement {
    type V = Seq<u8>;

    open spec fn view(&self) -> Seq<u8> {
        self.bytes@
    }
}

impl GroupElement {
    /// An owned copy with the same bytes.
    pub fn duplicate(&self) -> (r: Self)
        ensures
            r@ == self@,
    {
        GroupElement { bytes: clone_bytes(&self.bytes) }
    }
}

/// A discrete-logarithm proposition: the statement that the spender knows
/// the secret of the group element `h`.
#[derive(Debug, PartialEq, Eq)]
pub struct ProveDlog {
    pub h: GroupElement,
}

impl View for ProveDlog {
    type V = Seq<u8>;

    open spec fn view(&self) -> Seq<u8> {
        self.h@
    }
}

/// The mathematical value of a token entry: identifier bytes and amount.
#[verifier::ext_equal]
pub struct TokenV {
    pub token_id: Seq<u8>,
    pub amount: u64,
}

/// A token attached to a box: an identifier and an amount.
#[derive(Debug, PartialEq, Eq)]
pub struct Token {
    pub token_id: TokenId,
    pub amount: u64,
}

impl View for Token {
    type V = TokenV;

    open spec fn view(&self) -> TokenV {
        TokenV { token_id: self.token_id@, amount: self.amount }
    }
}

impl Token {
    /// An owned copy with the same identifier and amount.
    pub fn duplicate(&self) -> (r: Self)
        ensures
            r@ == self@,
    {
        Token { token_id: self.token_id.duplicate(), amount: self.amount }
    }
}

/// The mathematical value of a register slot's content.
#[verifier::ext_equal]
pub enum RegisterValueV {
    Group(Seq<u8>),
    Int(i32),
    Digest(Seq<u8>),
    TokenId(Seq<u8>),
    Other,
}

/// The typed content of a populated register slot.  `Other` stands for a
/// well-formed value of a type this library has no use for; extracting it
/// at any of the expected types fails, while the slot itself is populated.
#[derive(Debug, PartialEq, Eq)]
pub enum RegisterValue {
    Group(GroupElement),
    Int(i32),
    Digest(Digest32),
    TokenId(TokenId),
    Other,
}

impl View for RegisterValue {
    type V = RegisterValueV;

    open spec fn view(&self) -> RegisterValueV {
        match self {
            RegisterValue::Group(g) => RegisterValueV::Group(g@),
            RegisterValue::Int(i) => RegisterValueV::Int(*i),
            RegisterValue::Digest(d) => RegisterValueV::Digest(d@),
            RegisterValue::TokenId(t) => RegisterValueV::TokenId(t@),
            RegisterValue::Other => RegisterValueV::Other,
        }
    }
}

/// One of the optional register slots R4 through R8.
#[derive(Debug, Clone, Copy, PartialEq, Eq, Structural)]
pub enum NonMandatoryRegisterId {
    R4,
    R5,
    R6,
    R7,
    R8,
}

/// The mathematical value of the five optional register slots.
#[verifier::ext_equal]
pub struct RegistersV {
    pub r4: Option<RegisterValueV>,
    pub r5: Option<RegisterValueV>,
    pub r6: Option<RegisterValueV>,
    pub r7: Option<RegisterValueV>,
    pub r8: Option<RegisterValueV>,
}

/// The optional register slots of a box, R4 through R8.  `None` is an
/// unpopulated slot.
#[derive(Debug, PartialEq, Eq)]
pub struct NonMandatoryRegisters {
    pub r4: Option<RegisterValue>,
    pub r5: Option<RegisterValue>,
    pub r6: Option<RegisterValue>,
    pub r7: Option<RegisterValue>,
    pub r8: Option<RegisterValue>,
}

impl View for NonMandatoryRegisters {
    type V = RegistersV;

    open spec fn view(&self) -> RegistersV {
        RegistersV {
            r4: match self.r4 {
                Some(v) => Some(v@),
                None => None,
            },
            r5: match self.r5 {
                Some(v) => Some(v@),
                None => None,
            },
            r6: match self.r6 {
                Some(v) => Some(v@),
                None => None,
            },
            r7: match self.r7 {
                Some(v) => Some(v@),
                None => None,
            },
            r8: match self.r8 {
                Some(v) => Some(v@),
                None => None,
            },
        }
    }
}

/// What `get_register` returns on a register set with value `regs`.
pub open spec fn spec_register(regs: RegistersV, id: NonMandatoryRegisterId) -> Option<
    RegisterValueV,
> {
    match id {
        NonMandatoryRegisterId::R4 => regs.r4,
        NonMandatoryRegisterId::R5 => regs.r5,
        NonMandatoryRegisterId::R6 => regs.r6,
        NonMandatoryRegisterId::R7 => regs.r7,
        NonMandatoryRegisterId::R8 => regs.r8,
    }
}

/// The mathematical value of a script tree: the template bytes and the
/// two embedded constants the ballot contract is bound over.
#[verifier::ext_equal]
pub struct ErgoTreeV {
    pub template: Seq<u8>,
    pub min_storage_rent: Option<u64>,
    pub update_nft_token_id: Option<Seq<u8>>,
}

/// A box's script: a template together with the embedded constant
/// parameters this library reads.  A constant that is absent from the
/// tree, or present with an unexpected type, is `None`.
#[derive(Debug, PartialEq, Eq)]
pub struct ErgoTree {
    pub template: Vec<u8>,
    pub min_storage_rent: Option<u64>,
    pub update_nft_token_id: Option<TokenId>,
}

impl View for ErgoTree {
    type V = ErgoTreeV;

    open spec fn view(&self) -> ErgoTreeV {
        ErgoTreeV {
            template: self.template@,
            min_storage_rent: self.min_storage_rent,
            update_nft_token_id: match self.update_nft_token_id {
                Some(t) => Some(t@),
                None => None,
            },
        }
    }
}

impl ErgoTree {
    /// An owned copy with the same template and constants.
    pub fn duplicate(&self) -> (r: Self)
        ensures
            r@ == self@,
    {
        ErgoTree {
            template: clone_bytes(&self.template),
            min_storage_rent: self.min_storage_rent,
            update_nft_token_id: match &self.update_nft_token_id {
                Some(t) => Some(t.duplicate()),
                None => None,
            },
        }
    }
}

/// The mathematical value of a box or of a box candidate: the fields a
/// ballot box is recognised and built from.
#[verifier::ext_equal]
pub struct ErgoBoxV {
    pub value: u64,
    pub ergo_tree: ErgoTreeV,
    pub tokens: Seq<TokenV>,
    pub registers: RegistersV,
    pub creation_height: u32,
}

/// An output observed on the ledger: monetary value, script, attached
/// tokens, optional registers and creation height.  Read-only once
/// observed; its identity and lifecycle belong to the ledger.
#[derive(Debug, PartialEq, Eq)]
pub struct ErgoBox {
    pub value: u64,
    pub ergo_tree: ErgoTree,
    pub tokens: Vec<Token>,
    pub additional_registers: NonMandatoryRegisters,
    pub creation_height: u32,
}

impl View for ErgoBox {
    type V = ErgoBoxV;

    open spec fn view(&self) -> ErgoBoxV {
        ErgoBoxV {
            value: self.value,
            ergo_tree: self.ergo_tree@,
            tokens: self.tokens.deep_view(),
            registers: self.additional_registers@,
            creation_height: self.creation_height,
        }
    }
}

impl DeepView for Token {
    type V = TokenV;

    open spec fn deep_view(&self) -> TokenV {
        self@
    }
}

impl ErgoBox {
    /// Typed register access, the one primitive shared by the validator
    /// and by everything that inspects a validated box.
    pub fn get_register(&self, id: NonMandatoryRegisterId) -> (r: &Option<RegisterValue>)
        ensures
            (match r {
                Some(v) => Some(v@),
                None => None,
            }) == spec_register(self@.registers, id),
    {
        match id {
            NonMandatoryRegisterId::R4 => &self.additional_registers.r4,
            NonMandatoryRegisterId::R5 => &self.additional_registers.r5,
            NonMandatoryRegisterId::R6 => &self.additional_registers.r6,
            NonMandatoryRegisterId::R7 => &self.additional_registers.r7,
            NonMandatoryRegisterId::R8 => &self.additional_registers.r8,
        }
    }
}

/// A newly laid-out box description with no identity on the ledger yet;
/// it gains one only when a transaction carrying it is confirmed.
#[derive(Debug, PartialEq, Eq)]
pub struct ErgoBoxCandidate {
    pub value: u64,
    pub ergo_tree: ErgoTree,
    pub tokens: Vec<Token>,
    pub additional_registers: NonMandatoryRegisters,
    pub creation_height: u32,
}

impl View for ErgoBoxCandidate {
    type V = ErgoBoxV;

    open spec fn view(&self) -> ErgoBoxV {
        ErgoBoxV {
            value: self.value,
            ergo_tree: self.ergo_tree@,
            tokens: self.tokens.deep_view(),
            registers: self.additional_registers@,
            creation_height: self.creation_height,
        }
    }
}

/// An owned copy of a byte vector with the same contents.
pub fn clone_bytes(v: &Vec<u8>) -> (r: Vec<u8>)
    ensures
        r@ == v@,
{
    let mut r: Vec<u8> = Vec::new();
    let mut i: usize = 0;
    while i < v.len()
        invariant
            i <= v.len(),
            r@ == v@.subrange(0, i as int),
        decreases v.len() - i,
    {
        r.push(v[i]);
        i = i + 1;
    }
    proof {
        assert(r@ =~= v@);
    }
    r
}

/// Whether two byte vectors hold the same bytes.
pub fn bytes_eq(a: &Vec<u8>, b: &Vec<u8>) -> (r: bool)
    ensures
        r == (a@ == b@),
{
    if a.len() != b.len() {
        proof {
            assert(a@.len() != b@.len());
        }
        return false;
    }
    let mut i: usize = 0;
    while i < a.len()
        invariant
            i <= a.len(),
            a@.len() == b@.len(),
            forall|j: int| 0 <= j < i ==> a@[j] == b@[j],
        decreases a.len() - i,
    {
        if a[i] != b[i] {
            return false;
        }
        i = i + 1;
    }
    proof {
        assert(a@ =~= b@);
    }
    true
}

} // verus!
