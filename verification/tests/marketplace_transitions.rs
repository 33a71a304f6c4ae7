use vortex_contracts::marketplace::{
    compute_payment_split, process_cancel_listing, process_instruction, process_list_artwork,
    process_purchase_artwork, ArtworkListing, MarketplaceInstruction, PaymentSplit,
};
use vortex_contracts::token::{process_initialize, TolaState};
use vortex_contracts::{Identity, VortexError};
use vortex_contracts::events::VortexEvent;

#[test]
fn test_list_artwork() {
    let seller = Identity::new(1, 1, 1, 1);
    let asset = Identity::new(2, 2, 2, 2);
    let signers = vec![seller];

    let (listing, event) =
        process_list_artwork(seller, asset, &signers, 100_000, 5, true).unwrap();
    assert_eq!(
        listing,
        ArtworkListing {
            seller,
            asset_id: asset,
            price: 100_000,
            royalty_percentage: 5,
            is_active: true
        }
    );
    assert_eq!(
        event,
        VortexEvent::ArtworkListed { seller, asset_id: asset, price: 100_000, royalty_percentage: 5 }
    );
}

#[test]
fn test_list_rejects_invalid_royalty() {
    let seller = Identity::new(1, 1, 1, 1);
    let asset = Identity::new(2, 2, 2, 2);
    let signers = vec![seller];

    let result = process_list_artwork(seller, asset, &signers, 10, 101, true);
    assert_eq!(result, Err(VortexError::InvalidRoyalty));
    // The royalty check precedes the custody report, so the error is the
    // same whatever the collaborator said.
    let result = process_list_artwork(seller, asset, &signers, 10, 255, false);
    assert_eq!(result, Err(VortexError::InvalidRoyalty));
}

#[test]
fn test_list_rejects_without_custody() {
    let seller = Identity::new(1, 1, 1, 1);
    let asset = Identity::new(2, 2, 2, 2);
    let signers = vec![seller];
    let result = process_list_artwork(seller, asset, &signers, 10, 5, false);
    assert_eq!(result, Err(VortexError::Unauthorized));
}

#[test]
fn test_full_marketplace_flow() {
    let artist = Identity::new(3, 0, 0, 1);
    let collector = Identity::new(4, 0, 0, 2);
    let asset = Identity::new(5, 0, 0, 3);

    // The artist lists the artwork.
    let artist_signers = vec![artist];
    let (listing, _) =
        process_list_artwork(artist, asset, &artist_signers, 100_000, 5, true).unwrap();
    assert!(listing.is_active);

    // The collector purchases it at the listed price.
    let collector_signers = vec![collector];
    let (sold, split, event) =
        process_purchase_artwork(&listing, collector, &collector_signers, 100_000, true).unwrap();
    assert!(!sold.is_active);
    assert_eq!(split.royalty_cut + split.seller_proceeds, 100_000);
    assert_eq!(split.royalty_cut, 5_000);
    assert_eq!(
        event,
        VortexEvent::ArtworkPurchased { buyer: collector, seller: artist, asset_id: asset, price: 100_000 }
    );

    // A second purchase of the same listing fails: it is no longer active.
    let second = process_purchase_artwork(&sold, collector, &collector_signers, 100_000, true);
    assert_eq!(second, Err(VortexError::ListingInactive));
}

#[test]
fn test_token_marketplace_integration() {
    // Initialize the token supply, then trade an artwork priced in it.
    let seller = Identity::new(6, 0, 0, 0);
    let buyer = Identity::new(7, 0, 0, 0);
    let mint = Identity::new(8, 0, 0, 0);
    let asset = Identity::new(9, 0, 0, 0);

    let supply = TolaState { total_supply: 0, mint_authority: seller, initialized: false };
    let seller_signers = vec![seller];
    let (supply, _) =
        process_initialize(&supply, seller, mint, &seller_signers, 1_000_000_000).unwrap();
    assert!(supply.initialized);

    let (listing, _) =
        process_list_artwork(seller, asset, &seller_signers, 100_000, 5, true).unwrap();
    let buyer_signers = vec![buyer];
    let (sold, split, _) =
        process_purchase_artwork(&listing, buyer, &buyer_signers, 100_000, true).unwrap();
    assert!(!sold.is_active);
    assert!(split.seller_proceeds > 0);
}

#[test]
fn test_purchase_inactive_rejected() {
    let seller = Identity::new(1, 0, 0, 0);
    let buyer = Identity::new(2, 0, 0, 0);
    let listing = ArtworkListing {
        seller,
        asset_id: Identity::new(3, 0, 0, 0),
        price: 500,
        royalty_percentage: 10,
        is_active: false,
    };
    let signers = vec![buyer];
    let result = process_purchase_artwork(&listing, buyer, &signers, 500, true);
    assert_eq!(result, Err(VortexError::ListingInactive));
}

#[test]
fn test_purchase_price_mismatch_rejected() {
    let seller = Identity::new(1, 0, 0, 0);
    let buyer = Identity::new(2, 0, 0, 0);
    let listing = ArtworkListing {
        seller,
        asset_id: Identity::new(3, 0, 0, 0),
        price: 500,
        royalty_percentage: 10,
        is_active: true,
    };
    let signers = vec![buyer];
    assert_eq!(
        process_purchase_artwork(&listing, buyer, &signers, 499, true),
        Err(VortexError::PriceMismatch)
    );
    assert_eq!(
        process_purchase_artwork(&listing, buyer, &signers, 501, true),
        Err(VortexError::PriceMismatch)
    );
}

#[test]
fn test_purchase_insufficient_funds() {
    let seller = Identity::new(1, 0, 0, 0);
    let buyer = Identity::new(2, 0, 0, 0);
    let listing = ArtworkListing {
        seller,
        asset_id: Identity::new(3, 0, 0, 0),
        price: 500,
        royalty_percentage: 10,
        is_active: true,
    };
    let signers = vec![buyer];
    let result = process_purchase_artwork(&listing, buyer, &signers, 500, false);
    assert_eq!(result, Err(VortexError::InsufficientFunds));
}

#[test]
fn test_cancel_twice_rejected() {
    let seller = Identity::new(1, 0, 0, 0);
    let asset = Identity::new(2, 0, 0, 0);
    let signers = vec![seller];
    let (listing, _) = process_list_artwork(seller, asset, &signers, 500, 10, true).unwrap();

    let (cancelled, event) = process_cancel_listing(&listing, seller, &signers).unwrap();
    assert!(!cancelled.is_active);
    assert_eq!(event, VortexEvent::ListingCancelled { seller, asset_id: asset });

    let second = process_cancel_listing(&cancelled, seller, &signers);
    assert_eq!(second, Err(VortexError::ListingInactive));
}

#[test]
fn test_cancel_by_non_seller_rejected() {
    let seller = Identity::new(1, 0, 0, 0);
    let intruder = Identity::new(9, 0, 0, 0);
    let listing = ArtworkListing {
        seller,
        asset_id: Identity::new(2, 0, 0, 0),
        price: 500,
        royalty_percentage: 10,
        is_active: true,
    };
    let signers = vec![intruder];
    let result = process_cancel_listing(&listing, intruder, &signers);
    assert_eq!(result, Err(VortexError::Unauthorized));
}

#[test]
fn test_malformed_listing_rejected() {
    let seller = Identity::new(1, 0, 0, 0);
    let buyer = Identity::new(2, 0, 0, 0);
    let listing = ArtworkListing {
        seller,
        asset_id: Identity::new(3, 0, 0, 0),
        price: 500,
        royalty_percentage: 101,
        is_active: true,
    };
    assert_eq!(listing.validate(), Err(VortexError::MalformedRecord));
    let signers = vec![buyer];
    let result = process_purchase_artwork(&listing, buyer, &signers, 500, true);
    assert_eq!(result, Err(VortexError::MalformedRecord));
}

#[test]
fn test_payment_split_values() {
    assert_eq!(
        compute_payment_split(100_000, 5),
        PaymentSplit { seller_proceeds: 95_000, royalty_cut: 5_000 }
    );
    assert_eq!(
        compute_payment_split(100, 0),
        PaymentSplit { seller_proceeds: 100, royalty_cut: 0 }
    );
    assert_eq!(
        compute_payment_split(100, 100),
        PaymentSplit { seller_proceeds: 0, royalty_cut: 100 }
    );
    // Rounds down: 99 * 10 / 100 = 9.
    assert_eq!(
        compute_payment_split(99, 10),
        PaymentSplit { seller_proceeds: 90, royalty_cut: 9 }
    );
    // No overflow at the extremes.
    let split = compute_payment_split(u64::MAX, 100);
    assert_eq!(split.royalty_cut, u64::MAX);
    assert_eq!(split.seller_proceeds, 0);
}

#[test]
fn test_marketplace_dispatcher_routes() {
    let seller = Identity::new(1, 0, 0, 0);
    let buyer = Identity::new(2, 0, 0, 0);
    let asset = Identity::new(3, 0, 0, 0);
    let seller_signers = vec![seller];
    let buyer_signers = vec![buyer];

    let placeholder = ArtworkListing {
        seller: Identity::new(0, 0, 0, 0),
        asset_id: Identity::new(0, 0, 0, 0),
        price: 0,
        royalty_percentage: 0,
        is_active: false,
    };
    let (listing, none_split, _) = process_instruction(
        MarketplaceInstruction::ListArtwork { price: 700, royalty_percentage: 3 },
        &placeholder,
        seller,
        asset,
        &seller_signers,
        true,
        true,
    )
    .unwrap();
    assert!(none_split.is_none());
    assert!(listing.is_active);

    let (sold, split, _) = process_instruction(
        MarketplaceInstruction::PurchaseArtwork { price: 700 },
        &listing,
        buyer,
        asset,
        &buyer_signers,
        true,
        true,
    )
    .unwrap();
    assert!(!sold.is_active);
    assert_eq!(split, Some(PaymentSplit { seller_proceeds: 679, royalty_cut: 21 }));

    let cancel = process_instruction(
        MarketplaceInstruction::CancelListing {},
        &sold,
        seller,
        asset,
        &seller_signers,
        true,
        true,
    );
    assert_eq!(cancel, Err(VortexError::ListingInactive));
}
