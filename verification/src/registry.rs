use vstd::prelude::*;

use crate::store::{assoc_map, TokenStore};
use crate::types::{
    NFTContractMetadata, NFTContractMetadataView, Token, TokenMetadata, TokenMetadataView,
    TokenView,
};

verus! {

/// Why a registry operation was rejected. Every rejection is all-or-nothing:
/// the call returns the error and the state is unchanged.
#[derive(Clone, Copy, Debug, PartialEq, Eq, Structural)]
pub enum NftError {
    /// `initialize` ran on an instance that was already initialized.
    AlreadyInitialized,
    /// A mint was attempted by an identity other than the privileged one.
    Unauthorized,
    /// The collection metadata was read before it was ever set.
    MetadataUninitialized,
}

/// The collection-metadata cell: empty until `initialize` fills it, exactly
/// once; never emptied again.
pub enum MetadataCell {
    Uninitialized,
    Initialized(NFTContractMetadata),
}

impl View for MetadataCell {
    type V = Option<NFTContractMetadataView>;

    open spec fn view(&self) -> Option<NFTContractMetadataView> {
        match self {
            MetadataCell::Uninitialized => None,
            MetadataCell::Initialized(m) => Some(m@),
        }
    }
}

/// The whole registry: the privileged identity fixed at initialization, the
/// token mapping, and the write-once collection metadata.
pub struct Contract {
    owner_id: String,
    tokens_by_id: TokenStore,
    metadata: MetadataCell,
}

/// Ghost image of [`Contract`].
pub ghost struct ContractView {
    pub owner_id: Seq<char>,
    pub tokens: Map<Seq<char>, TokenView>,
    pub metadata: Option<NFTContractMetadataView>,
}

impl ContractView {
    /// Whether the one state transition, uninitialized to initialized, has
    /// happened.
    pub open spec fn is_initialized(self) -> bool {
        self.metadata is Some
    }
}

impl View for Contract {
    type V = ContractView;

    closed spec fn view(&self) -> ContractView {
        ContractView {
            owner_id: self.owner_id@,
            tokens: self.tokens_by_id@,
            metadata: self.metadata@,
        }
    }
}

/// The fixed tag naming the metadata schema the registry writes.
pub open spec fn spec_version_tag() -> Seq<char> {
    "nft-1.0.0"@
}

/// The view of a never-initialized registry.
pub open spec fn uninitialized_view() -> ContractView {
    ContractView {
        owner_id: Seq::<char>::empty(),
        tokens: Map::<Seq<char>, TokenView>::empty(),
        metadata: None,
    }
}

/// The view initialization with these arguments produces.
pub open spec fn initialized_view(
    owner_id: Seq<char>,
    name: Seq<char>,
    symbol: Seq<char>,
) -> ContractView {
    ContractView {
        owner_id,
        tokens: Map::<Seq<char>, TokenView>::empty(),
        metadata: Some(
            NFTContractMetadataView { spec_version: spec_version_tag(), name, symbol },
        ),
    }
}

/// The view after a successful mint: the record at `token_id` is created or
/// wholly replaced, owned by `caller`; nothing else moves.
pub open spec fn minted_view(
    v: ContractView,
    caller: Seq<char>,
    token_id: Seq<char>,
    metadata: TokenMetadataView,
) -> ContractView {
    ContractView {
        tokens: v.tokens.insert(token_id, TokenView { owner_id: caller, metadata }),
        ..v
    }
}

/// What a token lookup returns on a given view: the record if the id was
/// ever minted, an explicit absence otherwise.
pub open spec fn token_lookup(v: ContractView, token_id: Seq<char>) -> Option<TokenView> {
    if v.tokens.contains_key(token_id) {
        Some(v.tokens[token_id])
    } else {
        None
    }
}

/// The audit line a successful mint reports.
pub open spec fn mint_log_line(token_id: Seq<char>, caller: Seq<char>) -> Seq<char> {
    "Token "@ + token_id + " minted for "@ + caller
}

/// The fixed schema tag as an owned string.
fn spec_version_string() -> (s: String)
    ensures
        s@ == spec_version_tag(),
{
    String::from_str("nft-1.0.0")
}

/// The audit line for a successful mint, `Token {token_id} minted for
/// {caller}`, built for the host to emit.
fn make_log_line(token_id: &String, caller: &String) -> (s: String)
    ensures
        s@ == mint_log_line(token_id@, caller@),
{
    let mut s = String::from_str("Token ");
    s.append(token_id.as_str());
    s.append(" minted for ");
    s.append(caller.as_str());
    s
}

impl Contract {
    /// A fresh registry on which `initialize` has not yet run: no privileged
    /// identity, no tokens, no collection metadata.
    pub fn uninitialized() -> (c: Contract)
        ensures
            c@ == uninitialized_view(),
    {
        Contract {
            owner_id: String::new(),
            tokens_by_id: TokenStore::new(),
            metadata: MetadataCell::Uninitialized,
        }
    }

    /// Whether the registry has been initialized.
    pub fn is_initialized(&self) -> (b: bool)
        ensures
            b == self@.is_initialized(),
    {
        match &self.metadata {
            MetadataCell::Initialized(_) => true,
            MetadataCell::Uninitialized => false,
        }
    }

    /// Fixes the privileged identity and the collection metadata, exactly
    /// once: on a fresh registry it succeeds; on an initialized one it
    /// fails with `AlreadyInitialized`, whatever the arguments, and changes
    /// nothing.
    pub fn initialize(&mut self, owner_id: String, name: String, symbol: String) -> (r: Result<
        (),
        NftError,
    >)
        requires
            owner_id@.len() > 0,
            name@.len() > 0,
            symbol@.len() > 0,
        ensures
            match r {
                Ok(()) => !old(self)@.is_initialized() && final(self)@ == initialized_view(
                    owner_id@,
                    name@,
                    symbol@,
                ),
                Err(e) => e == NftError::AlreadyInitialized && old(self)@.is_initialized()
                    && final(self)@ == old(self)@,
            },
    {
        if self.is_initialized() {
            return Err(NftError::AlreadyInitialized);
        }
        self.owner_id = owner_id;
        self.tokens_by_id = TokenStore::new();
        self.metadata = MetadataCell::Initialized(
            NFTContractMetadata { spec_version: spec_version_string(), name, symbol },
        );
        Ok(())
    }

    /// An initialized registry in one step, as deployment builds it.
    pub fn new(owner_id: String, name: String, symbol: String) -> (c: Contract)
        requires
            owner_id@.len() > 0,
            name@.len() > 0,
            symbol@.len() > 0,
        ensures
            c@ == initialized_view(owner_id@, name@, symbol@),
    {
        let mut c = Contract::uninitialized();
        let r = c.initialize(owner_id, name, symbol);
        proof {
            assert(r is Ok);
        }
        c
    }

    /// Mints `token_id` for `caller`: if `caller` is the privileged
    /// identity, the record at `token_id` is created or wholly replaced,
    /// owned by `caller`, and the audit line to emit is returned; any other
    /// caller is rejected with `Unauthorized` and nothing changes.
    pub fn mint_nft(&mut self, caller: String, token_id: String, metadata: TokenMetadata) -> (r:
        Result<String, NftError>)
        requires
            old(self)@.is_initialized(),
            token_id@.len() > 0,
        ensures
            match r {
                Ok(line) => caller@ == old(self)@.owner_id && final(self)@ == minted_view(
                    old(self)@,
                    caller@,
                    token_id@,
                    metadata@,
                ) && line@ == mint_log_line(token_id@, caller@),
                Err(e) => e == NftError::Unauthorized && caller@ != old(self)@.owner_id
                    && final(self)@ == old(self)@,
            },
    {
        if !(caller == self.owner_id) {
            return Err(NftError::Unauthorized);
        }
        let line = make_log_line(&token_id, &caller);
        let token = Token { owner_id: caller, metadata };
        self.tokens_by_id.insert(token_id, token);
        Ok(line)
    }

    /// The record minted under `token_id`, or an explicit absence; never a
    /// failure, and open to any caller.
    pub fn nft_token(&self, token_id: String) -> (r: Option<Token>)
        ensures
            match r {
                Some(t) => token_lookup(self@, token_id@) == Some(t@),
                None => token_lookup(self@, token_id@) is None,
            },
    {
        match self.tokens_by_id.get(&token_id) {
            Some(t) => Some(t.clone()),
            None => None,
        }
    }

    /// The collection metadata set at initialization; reading it on a
    /// never-initialized registry surfaces the broken invariant as
    /// `MetadataUninitialized` rather than inventing a value.
    pub fn nft_metadata(&self) -> (r: Result<NFTContractMetadata, NftError>)
        ensures
            match r {
                Ok(m) => self@.metadata == Some(m@),
                Err(e) => e == NftError::MetadataUninitialized && !self@.is_initialized(),
            },
    {
        match &self.metadata {
            MetadataCell::Initialized(m) => Ok(m.clone()),
            MetadataCell::Uninitialized => Err(NftError::MetadataUninitialized),
        }
    }

    /// The registry a host hands back after persistence, rebuilt from the
    /// exported parts: the owner, the token entries replayed in order with
    /// later bindings of an id winning, and the metadata cell as exported.
    pub fn restore(
        owner_id: String,
        tokens: &Vec<(String, Token)>,
        metadata: Option<NFTContractMetadata>,
    ) -> (c: Contract)
        ensures
            c@.owner_id == owner_id@,
            c@.tokens == assoc_map(tokens@),
            c@.metadata == (match metadata {
                Some(m) => Some(m@),
                None => None,
            }),
    {
        Contract {
            owner_id,
            tokens_by_id: TokenStore::from_entries(tokens),
            metadata: match metadata {
                Some(m) => MetadataCell::Initialized(m),
                None => MetadataCell::Uninitialized,
            },
        }
    }

    /// Read-only access to the token entries, for a host that persists the
    /// registry: every entry is a binding of the token map, every bound id
    /// occurs, no id occurs twice, and replaying the entries through
    /// `restore` reproduces the map exactly.
    pub fn token_entries(&self) -> (r: &Vec<(String, Token)>)
        ensures
            assoc_map(r@) == self@.tokens,
            forall|i: int|
                0 <= i < r@.len() ==> self@.tokens.contains_key(#[trigger] r@[i].0@)
                    && self@.tokens[r@[i].0@] == r@[i].1@,
            forall|k: Seq<char>|
                self@.tokens.contains_key(k) ==> exists|i: int|
                    0 <= i < r@.len() && r@[i].0@ == k,
            forall|i: int, j: int| 0 <= i < j < r@.len() ==> r@[i].0@ != r@[j].0@,
    {
        self.tokens_by_id.entries()
    }

    /// The privileged identity, as fixed at initialization.
    pub fn owner_id(&self) -> (r: &String)
        ensures
            r@ == self@.owner_id,
    {
        &self.owner_id
    }
}

/// After initialization with any valid arguments, the collection metadata
/// reads back as exactly the fixed schema tag beside the given name and
/// symbol, over an empty token mapping.
pub proof fn lemma_initialize_sets_metadata(
    owner_id: Seq<char>,
    name: Seq<char>,
    symbol: Seq<char>,
)
    ensures
        initialized_view(owner_id, name, symbol).metadata == Some(
            NFTContractMetadataView { spec_version: spec_version_tag(), name, symbol },
        ),
        initialized_view(owner_id, name, symbol).tokens == Map::<Seq<char>, TokenView>::empty(),
        initialized_view(owner_id, name, symbol).owner_id == owner_id,
{
}

/// A recorded mint is what a lookup of the same id then returns: the record
/// owned by the minting caller, carrying exactly the metadata given.
pub proof fn lemma_mint_then_lookup(
    v: ContractView,
    caller: Seq<char>,
    token_id: Seq<char>,
    metadata: TokenMetadataView,
)
    ensures
        token_lookup(minted_view(v, caller, token_id, metadata), token_id) == Some(
            TokenView { owner_id: caller, metadata },
        ),
{
}

/// Minting the same id twice wholly replaces the record: a lookup after the
/// second mint sees only the second record, whatever the first held.
pub proof fn lemma_remint_overwrites(
    v: ContractView,
    caller: Seq<char>,
    token_id: Seq<char>,
    first: TokenMetadataView,
    second: TokenMetadataView,
)
    ensures
        token_lookup(
            minted_view(minted_view(v, caller, token_id, first), caller, token_id, second),
            token_id,
        ) == Some(TokenView { owner_id: caller, metadata: second }),
{
}

/// A mint leaves every other id exactly as it was: lookups of other ids see
/// neither the new record nor any change to their own.
pub proof fn lemma_mint_preserves_others(
    v: ContractView,
    caller: Seq<char>,
    token_id: Seq<char>,
    metadata: TokenMetadataView,
    other: Seq<char>,
)
    requires
        other != token_id,
    ensures
        token_lookup(minted_view(v, caller, token_id, metadata), other) == token_lookup(v, other),
{
}

} // verus!
