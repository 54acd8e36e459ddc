//! The plain-value picture of what an instruction sees of the ledger, and of
//! the instruction it may hand on.

use vstd::prelude::*;

use crate::pubkey::{are_keys_equal, Pubkey};

verus! {

/// One account as an instruction receives it.
#[derive(Debug, Clone)]
pub struct AccountInfo {
    pub key: Pubkey,
    pub owner: Pubkey,
    pub lamports: u64,
    pub data: Vec<u8>,
    pub is_signer: bool,
    pub is_writable: bool,
}

impl AccountInfo {
    #[inline(always)]
    pub fn key(&self) -> (r: &Pubkey)
        ensures
            *r == self.key,
    {
        &self.key
    }

    #[inline(always)]
    pub fn owner(&self) -> (r: &Pubkey)
        ensures
            *r == self.owner,
    {
        &self.owner
    }

    #[inline(always)]
    pub fn is_signer(&self) -> (r: bool)
        ensures
            r == self.is_signer,
    {
        self.is_signer
    }

    #[inline(always)]
    pub fn is_writable(&self) -> (r: bool)
        ensures
            r == self.is_writable,
    {
        self.is_writable
    }

    #[inline(always)]
    pub fn lamports(&self) -> (r: u64)
        ensures
            r == self.lamports,
    {
        self.lamports
    }

    #[inline(always)]
    pub fn data_len(&self) -> (r: usize)
        ensures
            r == self.data@.len(),
    {
        self.data.len()
    }

    #[inline(always)]
    pub fn data_is_empty(&self) -> (r: bool)
        ensures
            r == (self.data@.len() == 0),
    {
        self.data.len() == 0
    }

    #[inline(always)]
    pub fn is_owned_by(&self, program: &Pubkey) -> (r: bool)
        ensures
            r == (self.owner == *program),
    {
        are_keys_equal(&self.owner, program)
    }
}

/// One account as an instruction names it.
#[derive(Debug, Clone, Copy, PartialEq, Eq)]
pub struct AccountMeta {
    pub pubkey: Pubkey,
    pub is_signer: bool,
    pub is_writable: bool,
}

/// An account description as plain values: the key's bytes, whether the
/// account signs, whether it is writable.
pub type MetaView = (Seq<u8>, bool, bool);

/// The plain values of one account description.
pub open spec fn meta_view(meta: AccountMeta) -> MetaView {
    (meta.pubkey@, meta.is_signer, meta.is_writable)
}

/// The plain values of a list of account descriptions.
pub open spec fn metas_view(metas: Seq<AccountMeta>) -> Seq<MetaView> {
    Seq::new(metas.len(), |i: int| meta_view(metas[i]))
}

impl AccountMeta {
    /// A writable account.
    pub fn new(pubkey: Pubkey, is_signer: bool) -> (r: AccountMeta)
        ensures
            r == (AccountMeta { pubkey, is_signer, is_writable: true }),
    {
        AccountMeta { pubkey, is_signer, is_writable: true }
    }

    /// A read-only account.
    pub fn new_readonly(pubkey: Pubkey, is_signer: bool) -> (r: AccountMeta)
        ensures
            r == (AccountMeta { pubkey, is_signer, is_writable: false }),
    {
        AccountMeta { pubkey, is_signer, is_writable: false }
    }
}

/// The proxy that signs in place of one authority, by the seeds of
/// its address: the authority's key and the bump.
#[derive(Debug, Clone, Copy)]
pub struct ProxySigner {
    pub signer_key: Pubkey,
    pub bump: u8,
}

/// An instruction ready to be submitted: the program it addresses, the
/// accounts it names, and its payload.
#[derive(Debug, Clone)]
pub struct Instruction {
    pub program_id: Pubkey,
    pub accounts: Vec<AccountMeta>,
    pub data: Vec<u8>,
}

} // verus!
