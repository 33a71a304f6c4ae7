//! Marketplace transition handlers: list an artwork, purchase it, cancel
//! the listing.
//!
//! A listing starts active and is deactivated exactly once, by a purchase
//! or by the seller's cancellation; once inactive it is terminal.  The
//! purchase handler also computes the payment split the host's token
//! collaborator must move, atomically with the commit: the royalty cut
//! and the seller's proceeds, summing exactly to the listed price.

use vstd::prelude::*;
use crate::{Identity, VortexError};
use crate::auth::{spec_is_authorized, require_signer, require_owner};
use crate::events::VortexEvent;

verus! {

/// A typed marketplace instruction, already decoded from the wire by the
/// host.
#[derive(Clone, Copy, Debug, PartialEq, Eq, Structural)]
pub enum MarketplaceInstruction {
    /// List an artwork for sale.
    ListArtwork { price: u64, royalty_percentage: u8 },
    /// Purchase a listed artwork.
    PurchaseArtwork { price: u64 },
    /// Cancel a listing.
    CancelListing {},
}

/// An artwork listing.  `is_active` starts true; only a purchase or the
/// seller's cancellation flips it false, and once false it stays false.
#[derive(Clone, Copy, Debug, PartialEq, Eq, Structural)]
pub struct ArtworkListing {
    pub seller: Identity,
    pub asset_id: Identity,
    pub price: u64,
    pub royalty_percentage: u8,
    pub is_active: bool,
}

impl ArtworkListing {
    /// The structural invariant of a stored listing.
    pub open spec fn valid(self) -> bool {
        self.royalty_percentage <= 100
    }

    /// Rejects a corrupt or tampered record read from storage.
    pub fn validate(&self) -> (r: Result<(), VortexError>)
        ensures
            r == (if self.valid() {
                Ok::<(), VortexError>(())
            } else {
                Err::<(), VortexError>(VortexError::MalformedRecord)
            }),
    {
        if self.royalty_percentage <= 100 {
            Ok(())
        } else {
            Err(VortexError::MalformedRecord)
        }
    }
}

/// How a purchase's payment divides between the royalty recipient and the
/// seller.  The host moves both amounts atomically with the commit.
#[derive(Clone, Copy, Debug, PartialEq, Eq, Structural)]
pub struct PaymentSplit {
    pub seller_proceeds: u64,
    pub royalty_cut: u64,
}

/// The royalty cut of a price: `price * percentage / 100`, rounded down.
pub open spec fn royalty_cut_of(price: u64, royalty_percentage: u8) -> int {
    (price * royalty_percentage) / 100
}

/// The payment split of a purchase at `price` with the given royalty.
pub open spec fn spec_payment_split(price: u64, royalty_percentage: u8) -> PaymentSplit {
    PaymentSplit {
        seller_proceeds: (price - royalty_cut_of(price, royalty_percentage)) as u64,
        royalty_cut: royalty_cut_of(price, royalty_percentage) as u64,
    }
}

/// With a royalty of at most 100 percent, the cut never exceeds the price.
pub proof fn lemma_royalty_cut_bounded(price: u64, royalty_percentage: u8)
    requires
        royalty_percentage <= 100,
    ensures
        0 <= royalty_cut_of(price, royalty_percentage) <= price,
{
    assert(0 <= (price * royalty_percentage) / 100 <= price) by (nonlinear_arith)
        requires
            0 <= price,
            0 <= royalty_percentage <= 100,
    ;
}

/// Compute the payment split of a purchase: the royalty cut is
/// `price * percentage / 100`, and the two parts sum exactly to the price.
pub fn compute_payment_split(price: u64, royalty_percentage: u8) -> (r: PaymentSplit)
    requires
        royalty_percentage <= 100,
    ensures
        r == spec_payment_split(price, royalty_percentage),
        r.seller_proceeds + r.royalty_cut == price,
        r.royalty_cut == royalty_cut_of(price, royalty_percentage),
{
    proof {
        lemma_royalty_cut_bounded(price, royalty_percentage);
    }
    let cut_wide: u128 = (price as u128) * (royalty_percentage as u128) / 100;
    let royalty_cut: u64 = cut_wide as u64;
    let seller_proceeds: u64 = price - royalty_cut;
    PaymentSplit { seller_proceeds, royalty_cut }
}

/// The exact transition `process_list_artwork` implements.
pub open spec fn spec_list_artwork(
    caller: Identity,
    asset_id: Identity,
    signers: Seq<Identity>,
    price: u64,
    royalty_percentage: u8,
    custody_held: bool,
) -> Result<(ArtworkListing, VortexEvent), VortexError> {
    if !spec_is_authorized(signers, caller) {
        Err(VortexError::MissingAuthorization)
    } else if royalty_percentage > 100 {
        Err(VortexError::InvalidRoyalty)
    } else if !custody_held {
        Err(VortexError::Unauthorized)
    } else {
        Ok(
            (
                ArtworkListing {
                    seller: caller,
                    asset_id,
                    price,
                    royalty_percentage,
                    is_active: true,
                },
                VortexEvent::ArtworkListed { seller: caller, asset_id, price, royalty_percentage },
            ),
        )
    }
}

/// List an artwork for sale.  `custody_held` is the asset collaborator's
/// report that the caller holds custody of the asset; a false report
/// fails the transition with `Unauthorized`.  A royalty above 100 percent
/// fails with `InvalidRoyalty` and nothing is written.
pub fn process_list_artwork(
    caller: Identity,
    asset_id: Identity,
    signers: &Vec<Identity>,
    price: u64,
    royalty_percentage: u8,
    custody_held: bool,
) -> (r: Result<(ArtworkListing, VortexEvent), VortexError>)
    ensures
        r == spec_list_artwork(caller, asset_id, signers@, price, royalty_percentage, custody_held),
        r matches Ok(p) ==> p.0.valid() && p.0.is_active,
{
    require_signer(signers, caller)?;
    if royalty_percentage > 100 {
        return Err(VortexError::InvalidRoyalty);
    }
    if !custody_held {
        return Err(VortexError::Unauthorized);
    }
    let listing = ArtworkListing { seller: caller, asset_id, price, royalty_percentage, is_active: true };
    Ok(
        (
            listing,
            VortexEvent::ArtworkListed { seller: caller, asset_id, price, royalty_percentage },
        ),
    )
}

/// The exact transition `process_purchase_artwork` implements.
pub open spec fn spec_purchase_artwork(
    listing: ArtworkListing,
    buyer: Identity,
    signers: Seq<Identity>,
    price: u64,
    funds_available: bool,
) -> Result<(ArtworkListing, PaymentSplit, VortexEvent), VortexError> {
    if !spec_is_authorized(signers, buyer) {
        Err(VortexError::MissingAuthorization)
    } else if !listing.valid() {
        Err(VortexError::MalformedRecord)
    } else if !listing.is_active {
        Err(VortexError::ListingInactive)
    } else if price != listing.price {
        Err(VortexError::PriceMismatch)
    } else if !funds_available {
        Err(VortexError::InsufficientFunds)
    } else {
        Ok(
            (
                ArtworkListing { is_active: false, ..listing },
                spec_payment_split(listing.price, listing.royalty_percentage),
                VortexEvent::ArtworkPurchased {
                    buyer,
                    seller: listing.seller,
                    asset_id: listing.asset_id,
                    price: listing.price,
                },
            ),
        )
    }
}

/// Purchase a listed artwork.  The offered price must equal the listed
/// price exactly; a mismatch is rejected rather than silently accepted,
/// so a buyer cannot be front-run at a stale price.  `funds_available` is
/// the token collaborator's report that the buyer's balance covers the
/// price.  On success the host, atomically with the commit: moves the
/// seller's proceeds and the royalty cut of the returned split, transfers
/// the asset's custody to the buyer, and the listing becomes inactive.
pub fn process_purchase_artwork(
    listing: &ArtworkListing,
    buyer: Identity,
    signers: &Vec<Identity>,
    price: u64,
    funds_available: bool,
) -> (r: Result<(ArtworkListing, PaymentSplit, VortexEvent), VortexError>)
    ensures
        r == spec_purchase_artwork(*listing, buyer, signers@, price, funds_available),
        r matches Ok(p) ==> !p.0.is_active && p.1.seller_proceeds + p.1.royalty_cut
            == listing.price,
{
    require_signer(signers, buyer)?;
    listing.validate()?;
    if !listing.is_active {
        return Err(VortexError::ListingInactive);
    }
    if price != listing.price {
        return Err(VortexError::PriceMismatch);
    }
    if !funds_available {
        return Err(VortexError::InsufficientFunds);
    }
    let split = compute_payment_split(listing.price, listing.royalty_percentage);
    let new_listing = ArtworkListing { is_active: false, ..*listing };
    Ok(
        (
            new_listing,
            split,
            VortexEvent::ArtworkPurchased {
                buyer,
                seller: listing.seller,
                asset_id: listing.asset_id,
                price: listing.price,
            },
        ),
    )
}

/// The exact transition `process_cancel_listing` implements.
pub open spec fn spec_cancel_listing(
    listing: ArtworkListing,
    caller: Identity,
    signers: Seq<Identity>,
) -> Result<(ArtworkListing, VortexEvent), VortexError> {
    if !spec_is_authorized(signers, caller) {
        Err(VortexError::MissingAuthorization)
    } else if !listing.valid() {
        Err(VortexError::MalformedRecord)
    } else if listing.seller != caller {
        Err(VortexError::Unauthorized)
    } else if !listing.is_active {
        Err(VortexError::ListingInactive)
    } else {
        Ok(
            (
                ArtworkListing { is_active: false, ..listing },
                VortexEvent::ListingCancelled { seller: listing.seller, asset_id: listing.asset_id },
            ),
        )
    }
}

/// Cancel a listing.  Only the seller named by the record may cancel:
/// an authorized caller that is not the seller fails with `Unauthorized`.
/// Cancelling an already inactive listing fails with `ListingInactive`
/// rather than silently succeeding, so double cancels surface to the
/// caller.
pub fn process_cancel_listing(
    listing: &ArtworkListing,
    caller: Identity,
    signers: &Vec<Identity>,
) -> (r: Result<(ArtworkListing, VortexEvent), VortexError>)
    ensures
        r == spec_cancel_listing(*listing, caller, signers@),
        r matches Ok(p) ==> !p.0.is_active,
{
    require_signer(signers, caller)?;
    listing.validate()?;
    require_owner(listing.seller, caller)?;
    if !listing.is_active {
        return Err(VortexError::ListingInactive);
    }
    let new_listing = ArtworkListing { is_active: false, ..*listing };
    Ok(
        (
            new_listing,
            VortexEvent::ListingCancelled { seller: listing.seller, asset_id: listing.asset_id },
        ),
    )
}

/// The exact routing and transition of the marketplace dispatcher.
pub open spec fn spec_process_marketplace(
    instruction: MarketplaceInstruction,
    listing: ArtworkListing,
    caller: Identity,
    asset_id: Identity,
    signers: Seq<Identity>,
    custody_held: bool,
    funds_available: bool,
) -> Result<(ArtworkListing, Option<PaymentSplit>, VortexEvent), VortexError> {
    match instruction {
        MarketplaceInstruction::ListArtwork { price, royalty_percentage } => {
            match spec_list_artwork(caller, asset_id, signers, price, royalty_percentage, custody_held) {
                Ok(p) => Ok((p.0, None, p.1)),
                Err(e) => Err(e),
            }
        },
        MarketplaceInstruction::PurchaseArtwork { price } => {
            match spec_purchase_artwork(listing, caller, signers, price, funds_available) {
                Ok(p) => Ok((p.0, Some(p.1), p.2)),
                Err(e) => Err(e),
            }
        },
        MarketplaceInstruction::CancelListing {  } => {
            match spec_cancel_listing(listing, caller, signers) {
                Ok(p) => Ok((p.0, None, p.1)),
                Err(e) => Err(e),
            }
        },
    }
}

/// Route a typed marketplace instruction to its handler.  `listing` is
/// the current contents of the listing record's slot; a `ListArtwork`
/// writes a fresh record over it without reading it.  `caller` is the
/// identity the host expects to have signed (the seller for listing and
/// cancellation, the buyer for a purchase); `asset_id` the asset a fresh
/// listing names.
pub fn process_instruction(
    instruction: MarketplaceInstruction,
    listing: &ArtworkListing,
    caller: Identity,
    asset_id: Identity,
    signers: &Vec<Identity>,
    custody_held: bool,
    funds_available: bool,
) -> (r: Result<(ArtworkListing, Option<PaymentSplit>, VortexEvent), VortexError>)
    ensures
        r == spec_process_marketplace(
            instruction,
            *listing,
            caller,
            asset_id,
            signers@,
            custody_held,
            funds_available,
        ),
{
    match instruction {
        MarketplaceInstruction::ListArtwork { price, royalty_percentage } => {
            match process_list_artwork(caller, asset_id, signers, price, royalty_percentage, custody_held) {
                Ok(p) => Ok((p.0, None, p.1)),
                Err(e) => Err(e),
            }
        },
        MarketplaceInstruction::PurchaseArtwork { price } => {
            match process_purchase_artwork(listing, caller, signers, price, funds_available) {
                Ok(p) => Ok((p.0, Some(p.1), p.2)),
                Err(e) => Err(e),
            }
        },
        MarketplaceInstruction::CancelListing {  } => {
            match process_cancel_listing(listing, caller, signers) {
                Ok(p) => Ok((p.0, None, p.1)),
                Err(e) => Err(e),
            }
        },
    }
}

/// A listing with a royalty above 100 percent is never created: for every
/// authorized `ListArtwork` with such a royalty the transition fails with
/// `InvalidRoyalty`, so no record is written.
pub proof fn lemma_list_rejects_invalid_royalty(
    caller: Identity,
    asset_id: Identity,
    signers: Seq<Identity>,
    price: u64,
    royalty_percentage: u8,
    custody_held: bool,
)
    requires
        spec_is_authorized(signers, caller),
        royalty_percentage > 100,
    ensures
        spec_list_artwork(caller, asset_id, signers, price, royalty_percentage, custody_held)
            == Err::<(ArtworkListing, VortexEvent), VortexError>(VortexError::InvalidRoyalty),
{
}

/// A purchase against an inactive listing always fails with
/// `ListingInactive`, whatever the offered price or the buyer's funds;
/// the transition writes nothing, so the listing is unchanged.
pub proof fn lemma_purchase_inactive_rejected(
    listing: ArtworkListing,
    buyer: Identity,
    signers: Seq<Identity>,
    price: u64,
    funds_available: bool,
)
    requires
        listing.valid(),
        spec_is_authorized(signers, buyer),
        !listing.is_active,
    ensures
        spec_purchase_artwork(listing, buyer, signers, price, funds_available) == Err::<
            (ArtworkListing, PaymentSplit, VortexEvent),
            VortexError,
        >(VortexError::ListingInactive),
{
}

/// Cancelling twice is not idempotent: the seller's first cancellation of
/// an active listing succeeds and deactivates it, and a second
/// cancellation of the resulting listing fails with `ListingInactive`.
pub proof fn lemma_cancel_twice(
    listing: ArtworkListing,
    caller: Identity,
    signers: Seq<Identity>,
    cancelled: ArtworkListing,
    event: VortexEvent,
)
    requires
        listing.valid(),
        spec_is_authorized(signers, caller),
        caller == listing.seller,
        listing.is_active,
        spec_cancel_listing(listing, caller, signers) == Ok::<
            (ArtworkListing, VortexEvent),
            VortexError,
        >((cancelled, event)),
    ensures
        !cancelled.is_active,
        spec_cancel_listing(cancelled, caller, signers) == Err::<
            (ArtworkListing, VortexEvent),
            VortexError,
        >(VortexError::ListingInactive),
{
}

} // verus!
