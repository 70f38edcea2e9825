use nft_registry::registry::{Contract, NftError};
use nft_registry::types::{StorageKey, TokenMetadata};

fn meta(title: Option<&str>, description: Option<&str>, media: Option<&str>) -> TokenMetadata {
    TokenMetadata {
        title: title.map(|s| s.to_string()),
        description: description.map(|s| s.to_string()),
        media: media.map(|s| s.to_string()),
    }
}

#[test]
fn metadata_after_initialize() {
    let c = Contract::new(
        "alice.testnet".to_string(),
        "My Collection".to_string(),
        "MYC".to_string(),
    );
    let m = c.nft_metadata().unwrap();
    assert_eq!(m.spec_version, "nft-1.0.0".to_string());
    assert_eq!(m.name, "My Collection".to_string());
    assert_eq!(m.symbol, "MYC".to_string());
}

#[test]
fn initialize_twice_fails() {
    let mut c = Contract::uninitialized();
    let first = c.initialize("alice.testnet".to_string(), "Demo".to_string(), "DEMO".to_string());
    assert_eq!(first, Ok(()));
    let second = c.initialize("mallory.testnet".to_string(), "Other".to_string(), "OTH".to_string());
    assert_eq!(second, Err(NftError::AlreadyInitialized));
    // the prior state is untouched
    assert_eq!(*c.owner_id(), "alice.testnet".to_string());
    let m = c.nft_metadata().unwrap();
    assert_eq!(m.name, "Demo".to_string());
    assert_eq!(m.symbol, "DEMO".to_string());
}

#[test]
fn initialize_after_new_fails() {
    let mut c = Contract::new("alice.testnet".to_string(), "Demo".to_string(), "DEMO".to_string());
    let r = c.initialize("alice.testnet".to_string(), "Demo".to_string(), "DEMO".to_string());
    assert_eq!(r, Err(NftError::AlreadyInitialized));
}

#[test]
fn mint_then_get() {
    let mut c = Contract::new("alice.testnet".to_string(), "Demo".to_string(), "DEMO".to_string());
    let r = c.mint_nft(
        "alice.testnet".to_string(),
        "token-1".to_string(),
        meta(Some("First"), Some("the first token"), Some("ipfs://abc")),
    );
    assert!(r.is_ok());
    let t = c.nft_token("token-1".to_string()).unwrap();
    assert_eq!(t.owner_id, "alice.testnet".to_string());
    assert_eq!(t.metadata.title, Some("First".to_string()));
    assert_eq!(t.metadata.description, Some("the first token".to_string()));
    assert_eq!(t.metadata.media, Some("ipfs://abc".to_string()));
}

#[test]
fn mint_reports_audit_line() {
    let mut c = Contract::new("alice.testnet".to_string(), "Demo".to_string(), "DEMO".to_string());
    let r = c.mint_nft("alice.testnet".to_string(), "t1".to_string(), meta(None, None, None));
    assert_eq!(r, Ok("Token t1 minted for alice.testnet".to_string()));
}

#[test]
fn unauthorized_mint_changes_nothing() {
    let mut c = Contract::new("alice.testnet".to_string(), "Demo".to_string(), "DEMO".to_string());
    let r = c.mint_nft("mallory.testnet".to_string(), "t1".to_string(), meta(Some("X"), None, None));
    assert_eq!(r, Err(NftError::Unauthorized));
    assert!(c.nft_token("t1".to_string()).is_none());
}

#[test]
fn remint_overwrites_record() {
    let mut c = Contract::new("alice.testnet".to_string(), "Demo".to_string(), "DEMO".to_string());
    let r1 = c.mint_nft(
        "alice.testnet".to_string(),
        "t1".to_string(),
        meta(Some("old title"), Some("old description"), None),
    );
    assert!(r1.is_ok());
    let r2 = c.mint_nft(
        "alice.testnet".to_string(),
        "t1".to_string(),
        meta(Some("new title"), None, Some("ipfs://new")),
    );
    assert!(r2.is_ok());
    let t = c.nft_token("t1".to_string()).unwrap();
    assert_eq!(t.owner_id, "alice.testnet".to_string());
    assert_eq!(t.metadata.title, Some("new title".to_string()));
    assert_eq!(t.metadata.description, None);
    assert_eq!(t.metadata.media, Some("ipfs://new".to_string()));
}

#[test]
fn get_missing_is_none() {
    let c = Contract::new("alice.testnet".to_string(), "Demo".to_string(), "DEMO".to_string());
    assert!(c.nft_token("never-minted".to_string()).is_none());
}

#[test]
fn get_on_uninitialized_is_none() {
    let c = Contract::uninitialized();
    assert!(c.nft_token("t1".to_string()).is_none());
}

#[test]
fn metadata_uninitialized_error() {
    let c = Contract::uninitialized();
    assert_eq!(c.nft_metadata().err(), Some(NftError::MetadataUninitialized));
}

#[test]
fn end_to_end() {
    let mut c = Contract::new("alice".to_string(), "Demo".to_string(), "DEMO".to_string());
    let r = c.mint_nft("alice".to_string(), "t1".to_string(), meta(Some("A"), None, None));
    assert_eq!(r, Ok("Token t1 minted for alice".to_string()));
    let t = c.nft_token("t1".to_string()).unwrap();
    assert_eq!(t.owner_id, "alice".to_string());
    assert_eq!(t.metadata.title, Some("A".to_string()));
    assert_eq!(t.metadata.description, None);
    assert_eq!(t.metadata.media, None);
    let m = c.nft_metadata().unwrap();
    assert_eq!(m.spec_version, "nft-1.0.0".to_string());
    assert_eq!(m.name, "Demo".to_string());
    assert_eq!(m.symbol, "DEMO".to_string());
}

#[test]
fn export_then_restore_round_trip() {
    let mut c = Contract::new("alice.testnet".to_string(), "Demo".to_string(), "DEMO".to_string());
    c.mint_nft("alice.testnet".to_string(), "t1".to_string(), meta(Some("A"), None, None))
        .unwrap();
    c.mint_nft("alice.testnet".to_string(), "t2".to_string(), meta(None, Some("B"), None))
        .unwrap();
    let entries = c.token_entries().clone();
    assert_eq!(entries.len(), 2);
    let owner = c.owner_id().clone();
    let metadata = c.nft_metadata().ok();
    let r = Contract::restore(owner, &entries, metadata);
    let t1 = r.nft_token("t1".to_string()).unwrap();
    assert_eq!(t1.metadata.title, Some("A".to_string()));
    let t2 = r.nft_token("t2".to_string()).unwrap();
    assert_eq!(t2.metadata.description, Some("B".to_string()));
    assert_eq!(*r.owner_id(), "alice.testnet".to_string());
    assert_eq!(r.nft_metadata().unwrap().name, "Demo".to_string());
}

#[test]
fn storage_keys_are_distinct() {
    assert_ne!(StorageKey::TokensById, StorageKey::Metadata);
    assert_eq!(StorageKey::TokensById, StorageKey::TokensById);
}
