use vstd::prelude::*;

verus! {

/// Descriptive fields attached to a single token. Each field is
/// independently optional, and no validation is performed on the contents;
/// `media` is an opaque locator string.
pub struct TokenMetadata {
    pub title: Option<String>,
    pub description: Option<String>,
    pub media: Option<String>,
}

/// Ghost image of [`TokenMetadata`]: each field as an optional character
/// sequence.
pub ghost struct TokenMetadataView {
    pub title: Option<Seq<char>>,
    pub description: Option<Seq<char>>,
    pub media: Option<Seq<char>>,
}

impl View for TokenMetadata {
    type V = TokenMetadataView;

    open spec fn view(&self) -> TokenMetadataView {
        TokenMetadataView {
            title: self.title.deep_view(),
            description: self.description.deep_view(),
            media: self.media.deep_view(),
        }
    }
}

/// One registry entry: the identity that minted it and the metadata given
/// at that mint.
pub struct Token {
    pub owner_id: String,
    pub metadata: TokenMetadata,
}

/// Ghost image of [`Token`].
pub ghost struct TokenView {
    pub owner_id: Seq<char>,
    pub metadata: TokenMetadataView,
}

impl View for Token {
    type V = TokenView;

    open spec fn view(&self) -> TokenView {
        TokenView { owner_id: self.owner_id@, metadata: self.metadata@ }
    }
}

/// Write-once description of the registry as a whole: a fixed schema tag
/// plus the display name and short symbol chosen at initialization.
pub struct NFTContractMetadata {
    pub spec_version: String,
    pub name: String,
    pub symbol: String,
}

/// Ghost image of [`NFTContractMetadata`].
pub ghost struct NFTContractMetadataView {
    pub spec_version: Seq<char>,
    pub name: Seq<char>,
    pub symbol: Seq<char>,
}

impl View for NFTContractMetadata {
    type V = NFTContractMetadataView;

    open spec fn view(&self) -> NFTContractMetadataView {
        NFTContractMetadataView {
            spec_version: self.spec_version@,
            name: self.name@,
            symbol: self.symbol@,
        }
    }
}

/// Names the two persisted cells a host keeps for the registry: the token
/// mapping and the collection metadata. The library holds both in memory;
/// a host that persists them can use these as cell tags.
#[derive(Clone, Copy, Debug, PartialEq, Eq, Structural)]
pub enum StorageKey {
    TokensById,
    Metadata,
}

fn clone_opt_string(s: &Option<String>) -> (res: Option<String>)
    ensures
        res == *s,
{
    match s {
        Some(v) => Some(v.clone()),
        None => None,
    }
}

impl Clone for TokenMetadata {
    fn clone(&self) -> (res: Self)
        ensures
            res == *self,
    {
        TokenMetadata {
            title: clone_opt_string(&self.title),
            description: clone_opt_string(&self.description),
            media: clone_opt_string(&self.media),
        }
    }
}

impl Clone for Token {
    fn clone(&self) -> (res: Self)
        ensures
            res == *self,
    {
        Token { owner_id: self.owner_id.clone(), metadata: self.metadata.clone() }
    }
}

impl Clone for NFTContractMetadata {
    fn clone(&self) -> (res: Self)
        ensures
            res == *self,
    {
        NFTContractMetadata {
            spec_version: self.spec_version.clone(),
            name: self.name.clone(),
            symbol: self.symbol.clone(),
        }
    }
}

} // verus!
