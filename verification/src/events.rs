//! The structured facts a successful transition emits.
//!
//! Each handler returns one `VortexEvent` next to the record it wrote.
//! Delivery to an external observer is the host's concern; this module
//! derives the two representations of a fact from the fact value itself,
//! never independently: a compact binary encoding for archival (and its
//! base64 form for line-oriented logs) and a human-readable line for
//! operational visibility.

use vstd::prelude::*;
use vstd::string::StrSliceExecFns;
use vstd::string::StringExecFns;
use crate::Identity;

verus! {

/// A structured fact describing one completed state transition.
#[derive(Clone, Debug, PartialEq)]
pub enum VortexEvent {
    TokenInitialized { mint: Identity, total_supply: u64 },
    VestingCreated { beneficiary: Identity, amount: u64, start_time: i64, duration: i64 },
    StakeCreated { staker: Identity, amount: u64, duration: i64 },
    ArtworkListed { seller: Identity, asset_id: Identity, price: u64, royalty_percentage: u8 },
    ArtworkPurchased { buyer: Identity, seller: Identity, asset_id: Identity, price: u64 },
    ListingCancelled { seller: Identity, asset_id: Identity },
    ProposalCreated { creator: Identity, proposal_id: Identity, title: String, voting_period: i64 },
    VoteCast { voter: Identity, proposal_id: Identity, amount: u64, vote: bool },
    ProposalExecuted { proposal_id: Identity, yes_votes: u64, no_votes: u64 },
}

/// The eight little-endian bytes of a 64-bit word.
pub open spec fn le_bytes_u64(x: u64) -> Seq<u8> {
    seq![
        x as u8,
        (x >> 8) as u8,
        (x >> 16) as u8,
        (x >> 24) as u8,
        (x >> 32) as u8,
        (x >> 40) as u8,
        (x >> 48) as u8,
        (x >> 56) as u8,
    ]
}

/// A signed timestamp or duration encodes as its two's-complement word.
pub open spec fn le_bytes_i64(x: i64) -> Seq<u8> {
    le_bytes_u64(x as u64)
}

/// The four little-endian bytes of a 32-bit word.
pub open spec fn le_bytes_u32(x: u32) -> Seq<u8> {
    seq![x as u8, (x >> 8) as u8, (x >> 16) as u8, (x >> 24) as u8]
}

/// An identity encodes as its 32 bytes, word by word.
pub open spec fn id_bytes(id: Identity) -> Seq<u8> {
    le_bytes_u64(id.w0) + le_bytes_u64(id.w1) + le_bytes_u64(id.w2) + le_bytes_u64(id.w3)
}

/// A character encodes as its code point's four little-endian bytes.
pub open spec fn char_bytes(c: char) -> Seq<u8> {
    le_bytes_u32(c as u32)
}

/// The encodings of the first `n` characters of `s`, in order.
pub open spec fn str_body_bytes(s: Seq<char>, n: int) -> Seq<u8>
    decreases n,
{
    if n <= 0 {
        Seq::empty()
    } else {
        str_body_bytes(s, n - 1) + char_bytes(s[n - 1])
    }
}

/// A string encodes as its character count followed by each character.
pub open spec fn str_bytes(s: Seq<char>) -> Seq<u8> {
    le_bytes_u64(s.len() as u64) + str_body_bytes(s, s.len() as int)
}

pub open spec fn bool_byte(b: bool) -> u8 {
    if b {
        1u8
    } else {
        0u8
    }
}

/// The compact binary encoding of a fact: a variant tag byte followed by
/// the variant's fields in declaration order.
pub open spec fn spec_encode(e: VortexEvent) -> Seq<u8> {
    match e {
        VortexEvent::TokenInitialized { mint, total_supply } => seq![0u8] + id_bytes(mint)
            + le_bytes_u64(total_supply),
        VortexEvent::VestingCreated { beneficiary, amount, start_time, duration } => seq![1u8]
            + id_bytes(beneficiary) + le_bytes_u64(amount) + le_bytes_i64(start_time)
            + le_bytes_i64(duration),
        VortexEvent::StakeCreated { staker, amount, duration } => seq![2u8] + id_bytes(staker)
            + le_bytes_u64(amount) + le_bytes_i64(duration),
        VortexEvent::ArtworkListed { seller, asset_id, price, royalty_percentage } => seq![3u8]
            + id_bytes(seller) + id_bytes(asset_id) + le_bytes_u64(price)
            + seq![royalty_percentage],
        VortexEvent::ArtworkPurchased { buyer, seller, asset_id, price } => seq![4u8]
            + id_bytes(buyer) + id_bytes(seller) + id_bytes(asset_id) + le_bytes_u64(price),
        VortexEvent::ListingCancelled { seller, asset_id } => seq![5u8] + id_bytes(seller)
            + id_bytes(asset_id),
        VortexEvent::ProposalCreated { creator, proposal_id, title, voting_period } => seq![6u8]
            + id_bytes(creator) + id_bytes(proposal_id) + str_bytes(title@)
            + le_bytes_i64(voting_period),
        VortexEvent::VoteCast { voter, proposal_id, amount, vote } => seq![7u8] + id_bytes(voter)
            + id_bytes(proposal_id) + le_bytes_u64(amount) + seq![bool_byte(vote)],
        VortexEvent::ProposalExecuted { proposal_id, yes_votes, no_votes } => seq![8u8]
            + id_bytes(proposal_id) + le_bytes_u64(yes_votes) + le_bytes_u64(no_votes),
    }
}

fn push_u64_le(out: &mut Vec<u8>, x: u64)
    ensures
        final(out)@ == old(out)@ + le_bytes_u64(x),
{
    out.push(#[verifier::truncate] (x as u8));
    out.push(#[verifier::truncate] ((x >> 8) as u8));
    out.push(#[verifier::truncate] ((x >> 16) as u8));
    out.push(#[verifier::truncate] ((x >> 24) as u8));
    out.push(#[verifier::truncate] ((x >> 32) as u8));
    out.push(#[verifier::truncate] ((x >> 40) as u8));
    out.push(#[verifier::truncate] ((x >> 48) as u8));
    out.push(#[verifier::truncate] ((x >> 56) as u8));
    assert(out@ =~= old(out)@ + le_bytes_u64(x));
}

fn push_i64_le(out: &mut Vec<u8>, x: i64)
    ensures
        final(out)@ == old(out)@ + le_bytes_i64(x),
{
    push_u64_le(out, #[verifier::truncate] (x as u64));
}

fn push_u32_le(out: &mut Vec<u8>, x: u32)
    ensures
        final(out)@ == old(out)@ + le_bytes_u32(x),
{
    out.push(#[verifier::truncate] (x as u8));
    out.push(#[verifier::truncate] ((x >> 8) as u8));
    out.push(#[verifier::truncate] ((x >> 16) as u8));
    out.push(#[verifier::truncate] ((x >> 24) as u8));
    assert(out@ =~= old(out)@ + le_bytes_u32(x));
}

fn push_identity(out: &mut Vec<u8>, id: Identity)
    ensures
        final(out)@ == old(out)@ + id_bytes(id),
{
    push_u64_le(out, id.w0);
    push_u64_le(out, id.w1);
    push_u64_le(out, id.w2);
    push_u64_le(out, id.w3);
    assert(out@ =~= old(out)@ + id_bytes(id));
}

fn push_str_bytes(out: &mut Vec<u8>, s: &str)
    ensures
        final(out)@ == old(out)@ + str_bytes(s@),
{
    let n: usize = s.unicode_len();
    push_u64_le(out, n as u64);
    let mut i: usize = 0;
    while i < n
        invariant
            n == s@.len(),
            0 <= i <= n,
            out@ == old(out)@ + le_bytes_u64(n as u64) + str_body_bytes(s@, i as int),
        decreases n - i,
    {
        let c = s.get_char(i);
        push_u32_le(out, c as u32);
        assert(out@ =~= old(out)@ + le_bytes_u64(n as u64) + str_body_bytes(s@, i + 1));
        i += 1;
    }
    assert(out@ =~= old(out)@ + str_bytes(s@));
}

impl VortexEvent {
    /// The compact binary encoding of this fact, for archival.
    pub fn encode(&self) -> (r: Vec<u8>)
        ensures
            r@ == spec_encode(*self),
    {
        let mut out: Vec<u8> = Vec::new();
        match self {
            VortexEvent::TokenInitialized { mint, total_supply } => {
                out.push(0u8);
                push_identity(&mut out, *mint);
                push_u64_le(&mut out, *total_supply);
            },
            VortexEvent::VestingCreated { beneficiary, amount, start_time, duration } => {
                out.push(1u8);
                push_identity(&mut out, *beneficiary);
                push_u64_le(&mut out, *amount);
                push_i64_le(&mut out, *start_time);
                push_i64_le(&mut out, *duration);
            },
            VortexEvent::StakeCreated { staker, amount, duration } => {
                out.push(2u8);
                push_identity(&mut out, *staker);
                push_u64_le(&mut out, *amount);
                push_i64_le(&mut out, *duration);
            },
            VortexEvent::ArtworkListed { seller, asset_id, price, royalty_percentage } => {
                out.push(3u8);
                push_identity(&mut out, *seller);
                push_identity(&mut out, *asset_id);
                push_u64_le(&mut out, *price);
                out.push(*royalty_percentage);
            },
            VortexEvent::ArtworkPurchased { buyer, seller, asset_id, price } => {
                out.push(4u8);
                push_identity(&mut out, *buyer);
                push_identity(&mut out, *seller);
                push_identity(&mut out, *asset_id);
                push_u64_le(&mut out, *price);
            },
            VortexEvent::ListingCancelled { seller, asset_id } => {
                out.push(5u8);
                push_identity(&mut out, *seller);
                push_identity(&mut out, *asset_id);
            },
            VortexEvent::ProposalCreated { creator, proposal_id, title, voting_period } => {
                out.push(6u8);
                push_identity(&mut out, *creator);
                push_identity(&mut out, *proposal_id);
                push_str_bytes(&mut out, title.as_str());
                push_i64_le(&mut out, *voting_period);
            },
            VortexEvent::VoteCast { voter, proposal_id, amount, vote } => {
                out.push(7u8);
                push_identity(&mut out, *voter);
                push_identity(&mut out, *proposal_id);
                push_u64_le(&mut out, *amount);
                out.push(if *vote {
                    1u8
                } else {
                    0u8
                });
            },
            VortexEvent::ProposalExecuted { proposal_id, yes_votes, no_votes } => {
                out.push(8u8);
                push_identity(&mut out, *proposal_id);
                push_u64_le(&mut out, *yes_votes);
                push_u64_le(&mut out, *no_votes);
            },
        }
        assert(out@ =~= spec_encode(*self));
        out
    }

    /// The base64 form of this fact's binary encoding, for line-oriented
    /// archival logs.
    pub fn archival(&self) -> (r: String)
        ensures
            r@ == base64_of(spec_encode(*self)),
    {
        let bytes = self.encode();
        base64_string(&bytes)
    }
}

/// The decimal digit character of a value below ten.
pub open spec fn dec_digit_char(d: nat) -> char {
    if d == 0 {
        '0'
    } else if d == 1 {
        '1'
    } else if d == 2 {
        '2'
    } else if d == 3 {
        '3'
    } else if d == 4 {
        '4'
    } else if d == 5 {
        '5'
    } else if d == 6 {
        '6'
    } else if d == 7 {
        '7'
    } else if d == 8 {
        '8'
    } else {
        '9'
    }
}

/// The decimal text of a natural number, without leading zeros.
pub open spec fn dec_seq(n: nat) -> Seq<char>
    decreases n,
{
    if n < 10 {
        seq![dec_digit_char(n)]
    } else {
        dec_seq(n / 10) + seq![dec_digit_char(n % 10)]
    }
}

/// The decimal text of a signed number: a minus sign and the magnitude.
pub open spec fn dec_seq_signed(x: int) -> Seq<char> {
    if x < 0 {
        seq!['-'] + dec_seq((-x) as nat)
    } else {
        dec_seq(x as nat)
    }
}

/// The lower-case hexadecimal digit character of a value below sixteen.
pub open spec fn hex_digit_char(d: nat) -> char {
    if d == 0 {
        '0'
    } else if d == 1 {
        '1'
    } else if d == 2 {
        '2'
    } else if d == 3 {
        '3'
    } else if d == 4 {
        '4'
    } else if d == 5 {
        '5'
    } else if d == 6 {
        '6'
    } else if d == 7 {
        '7'
    } else if d == 8 {
        '8'
    } else if d == 9 {
        '9'
    } else if d == 10 {
        'a'
    } else if d == 11 {
        'b'
    } else if d == 12 {
        'c'
    } else if d == 13 {
        'd'
    } else if d == 14 {
        'e'
    } else {
        'f'
    }
}

/// The fixed-width hexadecimal text of a number, zero-padded.
pub open spec fn hex_seq(w: nat, width: nat) -> Seq<char>
    decreases width,
{
    if width == 0 {
        Seq::empty()
    } else {
        hex_seq(w / 16, (width - 1) as nat) + seq![hex_digit_char(w % 16)]
    }
}

/// An identity's text: its four words as 64 hexadecimal digits.
pub open spec fn id_text(id: Identity) -> Seq<char> {
    hex_seq(id.w0 as nat, 16) + hex_seq(id.w1 as nat, 16) + hex_seq(id.w2 as nat, 16) + hex_seq(
        id.w3 as nat,
        16,
    )
}

fn dec_digit_str(d: u64) -> (s: &'static str)
    requires
        d < 10,
    ensures
        s@ == seq![dec_digit_char(d as nat)],
{
    if d == 0 {
        proof {
            reveal_strlit("0");
        }
        "0"
    } else if d == 1 {
        proof {
            reveal_strlit("1");
        }
        "1"
    } else if d == 2 {
        proof {
            reveal_strlit("2");
        }
        "2"
    } else if d == 3 {
        proof {
            reveal_strlit("3");
        }
        "3"
    } else if d == 4 {
        proof {
            reveal_strlit("4");
        }
        "4"
    } else if d == 5 {
        proof {
            reveal_strlit("5");
        }
        "5"
    } else if d == 6 {
        proof {
            reveal_strlit("6");
        }
        "6"
    } else if d == 7 {
        proof {
            reveal_strlit("7");
        }
        "7"
    } else if d == 8 {
        proof {
            reveal_strlit("8");
        }
        "8"
    } else {
        proof {
            reveal_strlit("9");
        }
        "9"
    }
}

fn hex_digit_str(d: u64) -> (s: &'static str)
    requires
        d < 16,
    ensures
        s@ == seq![hex_digit_char(d as nat)],
{
    if d < 10 {
        dec_digit_str(d)
    } else if d == 10 {
        proof {
            reveal_strlit("a");
        }
        "a"
    } else if d == 11 {
        proof {
            reveal_strlit("b");
        }
        "b"
    } else if d == 12 {
        proof {
            reveal_strlit("c");
        }
        "c"
    } else if d == 13 {
        proof {
            reveal_strlit("d");
        }
        "d"
    } else if d == 14 {
        proof {
            reveal_strlit("e");
        }
        "e"
    } else {
        proof {
            reveal_strlit("f");
        }
        "f"
    }
}

/// The decimal text of a 64-bit value.
pub fn dec_u64(n: u64) -> (s: String)
    ensures
        s@ == dec_seq(n as nat),
    decreases n,
{
    if n < 10 {
        dec_digit_str(n).to_owned()
    } else {
        let mut s = dec_u64(n / 10);
        s.append(dec_digit_str(n % 10));
        s
    }
}

/// The decimal text of a signed 64-bit value.
pub fn dec_i64(x: i64) -> (s: String)
    ensures
        s@ == dec_seq_signed(x as int),
{
    if x >= 0 {
        dec_u64(x as u64)
    } else {
        let magnitude: u64 = if x == i64::MIN {
            9223372036854775808u64
        } else {
            (-x) as u64
        };
        proof {
            reveal_strlit("-");
        }
        let mut s = "-".to_owned();
        let digits = dec_u64(magnitude);
        s.append(digits.as_str());
        assert(s@ =~= dec_seq_signed(x as int));
        s
    }
}

fn hex_fixed(w: u64, width: usize) -> (s: String)
    ensures
        s@ == hex_seq(w as nat, width as nat),
    decreases width,
{
    if width == 0 {
        let s = String::new();
        assert(s@ =~= hex_seq(w as nat, 0));
        s
    } else {
        let mut s = hex_fixed(w / 16, width - 1);
        s.append(hex_digit_str(w % 16));
        s
    }
}

/// The 64 hexadecimal digits of an identity.
pub fn identity_text(id: &Identity) -> (s: String)
    ensures
        s@ == id_text(*id),
{
    let mut s = hex_fixed(id.w0, 16);
    let part1 = hex_fixed(id.w1, 16);
    s.append(part1.as_str());
    let part2 = hex_fixed(id.w2, 16);
    s.append(part2.as_str());
    let part3 = hex_fixed(id.w3, 16);
    s.append(part3.as_str());
    assert(s@ =~= id_text(*id));
    s
}

/// The human-readable line of a fact, derived from the same fact value as
/// the binary encoding.
pub open spec fn spec_describe(e: VortexEvent) -> Seq<char> {
    match e {
        VortexEvent::TokenInitialized { mint, total_supply } => "Token Initialized: Mint="@
            + id_text(mint) + ", Supply="@ + dec_seq(total_supply as nat),
        VortexEvent::VestingCreated { beneficiary, amount, start_time, duration } => (
        "Vesting Created: Beneficiary="@ + id_text(beneficiary) + ", Amount="@ + dec_seq(
            amount as nat,
        )),
        VortexEvent::StakeCreated { staker, amount, duration } => "Stake Created: Staker="@
            + id_text(staker) + ", Amount="@ + dec_seq(amount as nat),
        VortexEvent::ArtworkListed { seller, asset_id, price, royalty_percentage } => (
        "Artwork Listed: Seller="@ + id_text(seller) + ", Asset="@ + id_text(asset_id)
            + ", Price="@ + dec_seq(price as nat)),
        VortexEvent::ArtworkPurchased { buyer, seller, asset_id, price } => (
        "Artwork Purchased: Buyer="@ + id_text(buyer) + ", Asset="@ + id_text(asset_id)
            + ", Price="@ + dec_seq(price as nat)),
        VortexEvent::ListingCancelled { seller, asset_id } => "Listing Cancelled: Seller="@
            + id_text(seller) + ", Asset="@ + id_text(asset_id),
        VortexEvent::ProposalCreated { creator, proposal_id, title, voting_period } => (
        "Proposal Created: ID="@ + id_text(proposal_id) + ", Title="@ + title@),
        VortexEvent::VoteCast { voter, proposal_id, amount, vote } => "Vote Cast: Voter="@
            + id_text(voter) + ", Proposal="@ + id_text(proposal_id) + ", Amount="@ + dec_seq(
            amount as nat,
        ) + ", Vote="@ + (if vote {
            "true"@
        } else {
            "false"@
        }),
        VortexEvent::ProposalExecuted { proposal_id, yes_votes, no_votes } => (
        "Proposal Executed: ID="@ + id_text(proposal_id) + ", Yes="@ + dec_seq(yes_votes as nat)
            + ", No="@ + dec_seq(no_votes as nat)),
    }
}

impl VortexEvent {
    /// The human-readable line of this fact, for operational visibility.
    pub fn describe(&self) -> (r: String)
        ensures
            r@ == spec_describe(*self),
    {
        match self {
            VortexEvent::TokenInitialized { mint, total_supply } => {
                let mut s = "Token Initialized: Mint=".to_owned();
                let id = identity_text(mint);
                s.append(id.as_str());
                s.append(", Supply=");
                let n = dec_u64(*total_supply);
                s.append(n.as_str());
                assert(s@ =~= spec_describe(*self));
                s
            },
            VortexEvent::VestingCreated { beneficiary, amount, start_time, duration } => {
                let mut s = "Vesting Created: Beneficiary=".to_owned();
                let id = identity_text(beneficiary);
                s.append(id.as_str());
                s.append(", Amount=");
                let n = dec_u64(*amount);
                s.append(n.as_str());
                assert(s@ =~= spec_describe(*self));
                s
            },
            VortexEvent::StakeCreated { staker, amount, duration } => {
                let mut s = "Stake Created: Staker=".to_owned();
                let id = identity_text(staker);
                s.append(id.as_str());
                s.append(", Amount=");
                let n = dec_u64(*amount);
                s.append(n.as_str());
                assert(s@ =~= spec_describe(*self));
                s
            },
            VortexEvent::ArtworkListed { seller, asset_id, price, royalty_percentage } => {
                let mut s = "Artwork Listed: Seller=".to_owned();
                let id = identity_text(seller);
                s.append(id.as_str());
                s.append(", Asset=");
                let asset = identity_text(asset_id);
                s.append(asset.as_str());
                s.append(", Price=");
                let n = dec_u64(*price);
                s.append(n.as_str());
                assert(s@ =~= spec_describe(*self));
                s
            },
            VortexEvent::ArtworkPurchased { buyer, seller, asset_id, price } => {
                let mut s = "Artwork Purchased: Buyer=".to_owned();
                let id = identity_text(buyer);
                s.append(id.as_str());
                s.append(", Asset=");
                let asset = identity_text(asset_id);
                s.append(asset.as_str());
                s.append(", Price=");
                let n = dec_u64(*price);
                s.append(n.as_str());
                assert(s@ =~= spec_describe(*self));
                s
            },
            VortexEvent::ListingCancelled { seller, asset_id } => {
                let mut s = "Listing Cancelled: Seller=".to_owned();
                let id = identity_text(seller);
                s.append(id.as_str());
                s.append(", Asset=");
                let asset = identity_text(asset_id);
                s.append(asset.as_str());
                assert(s@ =~= spec_describe(*self));
                s
            },
            VortexEvent::ProposalCreated { creator, proposal_id, title, voting_period } => {
                let mut s = "Proposal Created: ID=".to_owned();
                let id = identity_text(proposal_id);
                s.append(id.as_str());
                s.append(", Title=");
                s.append(title.as_str());
                assert(s@ =~= spec_describe(*self));
                s
            },
            VortexEvent::VoteCast { voter, proposal_id, amount, vote } => {
                let mut s = "Vote Cast: Voter=".to_owned();
                let id = identity_text(voter);
                s.append(id.as_str());
                s.append(", Proposal=");
                let prop = identity_text(proposal_id);
                s.append(prop.as_str());
                s.append(", Amount=");
                let n = dec_u64(*amount);
                s.append(n.as_str());
                s.append(", Vote=");
                s.append(if *vote {
                    "true"
                } else {
                    "false"
                });
                assert(s@ =~= spec_describe(*self));
                s
            },
            VortexEvent::ProposalExecuted { proposal_id, yes_votes, no_votes } => {
                let mut s = "Proposal Executed: ID=".to_owned();
                let id = identity_text(proposal_id);
                s.append(id.as_str());
                s.append(", Yes=");
                let yes = dec_u64(*yes_votes);
                s.append(yes.as_str());
                s.append(", No=");
                let no = dec_u64(*no_votes);
                s.append(no.as_str());
                assert(s@ =~= spec_describe(*self));
                s
            },
        }
    }
}

/// The base64 text (standard alphabet, with padding) of a byte sequence.
pub uninterp spec fn base64_of(bytes: Seq<u8>) -> Seq<char>;

/// Relies on base64::encode: the standard-alphabet, padded base64 text of
/// the input bytes, a function of the bytes alone; four characters for
/// every started group of three bytes.
#[verifier::external_body]
fn base64_string(bytes: &Vec<u8>) -> (r: String)
    ensures
        r@ == base64_of(bytes@),
        r@.len() == 4 * ((bytes@.len() + 2) / 3),
{
    base64::encode(bytes.as_slice())
}

} // verus!
