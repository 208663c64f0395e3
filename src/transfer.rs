//! Transfer events: decoding, mint detection, owner replies and the records
//! written for a mint.
use vstd::prelude::*;
use crate::felt::Felt;
use crate::metadata::NormalizedMetadata;
use crate::token_id::{TokenId, half_base};
use crate::uri::{is_usable_uri, usable_uri};

verus! {

/// A transfer event as emitted by the ledger. `data` holds, in order, the
/// sender, the recipient and the low and high halves of the token id.
#[derive(Clone, Debug)]
pub struct TransferEvent {
    pub block_number: u64,
    pub from_address: Felt,
    pub transaction_hash: Felt,
    pub data: Vec<Felt>,
}

/// A decoded transfer, with every word in its rendered form.
#[derive(Clone, Debug)]
pub struct Transfer {
    pub block_number: u64,
    pub contract_address: String,
    pub transaction_hash: String,
    pub from_address: String,
    pub to_address: String,
    pub token_id: TokenId,
    pub is_mint: bool,
}

#[derive(Clone, Copy, Debug, PartialEq, Eq, Structural)]
pub enum DecodeError {
    /// Fewer than four data words.
    MissingData,
    /// A token id half does not fit in 128 bits.
    TokenIdOutOfRange,
}

/// A transfer is a mint exactly when its sender is the zero word.
pub open spec fn is_mint_spec(from: Felt) -> bool {
    from.value() == 0
}

pub fn is_mint(from: &Felt) -> (r: bool)
    ensures
        r == is_mint_spec(*from),
{
    from.is_zero()
}

/// Whether a decoded transfer agrees with the event it came from.
pub open spec fn decoded_from(t: Transfer, ev: TransferEvent) -> bool {
    &&& ev.data@.len() >= 4
    &&& t.block_number == ev.block_number
    &&& t.contract_address@ == ev.from_address.rendered()
    &&& t.transaction_hash@ == ev.transaction_hash.rendered()
    &&& t.from_address@ == ev.data@[0].rendered()
    &&& t.to_address@ == ev.data@[1].rendered()
    &&& t.token_id.low as nat == ev.data@[2].value()
    &&& t.token_id.high as nat == ev.data@[3].value()
    &&& t.is_mint == is_mint_spec(ev.data@[0])
}

/// Decodes a transfer event.
pub fn decode_transfer(ev: &TransferEvent) -> (r: Result<Transfer, DecodeError>)
    ensures
        ev.data@.len() < 4 ==> r == Err::<Transfer, DecodeError>(DecodeError::MissingData),
        ev.data@.len() >= 4 && (ev.data@[2].value() >= half_base() || ev.data@[3].value()
            >= half_base()) ==> r == Err::<Transfer, DecodeError>(DecodeError::TokenIdOutOfRange),
        ev.data@.len() >= 4 && ev.data@[2].value() < half_base() && ev.data@[3].value()
            < half_base() ==> (r matches Ok(t) && decoded_from(t, *ev)),
{
    if ev.data.len() < 4 {
        return Err(DecodeError::MissingData);
    }
    let low = match ev.data[2].to_u128() {
        Some(v) => v,
        None => return Err(DecodeError::TokenIdOutOfRange),
    };
    let high = match ev.data[3].to_u128() {
        Some(v) => v,
        None => return Err(DecodeError::TokenIdOutOfRange),
    };
    proof {
        let (a, b) = (ev.data@[2], ev.data@[3]);
        assert(a.high == 0) by (nonlinear_arith)
            requires
                a.value() < half_base(),
                a.value() == a.high as nat * half_base() + a.low as nat,
                half_base() > 0,
        ;
        assert(b.high == 0) by (nonlinear_arith)
            requires
                b.value() < half_base(),
                b.value() == b.high as nat * half_base() + b.low as nat,
                half_base() > 0,
        ;
    }
    Ok(
        Transfer {
            block_number: ev.block_number,
            contract_address: ev.from_address.to_padded_hex(),
            transaction_hash: ev.transaction_hash.to_padded_hex(),
            from_address: ev.data[0].to_padded_hex(),
            to_address: ev.data[1].to_padded_hex(),
            token_id: TokenId::new(low, high),
            is_mint: is_mint(&ev.data[0]),
        },
    )
}

/// Whether an emitted event is a transfer: its first key is the transfer
/// event selector.
pub fn is_transfer_event(keys: &Vec<Felt>, selector: &Felt) -> (r: bool)
    ensures
        r == (keys@.len() > 0 && keys@[0] == *selector),
{
    keys.len() > 0 && keys[0].high == selector.high && keys[0].low == selector.low
}

/// Whatever the sender, a transfer is classified as a mint exactly when the
/// sender is the zero word.
pub proof fn lemma_mint_iff_zero_sender(t: Transfer, ev: TransferEvent)
    requires
        decoded_from(t, ev),
    ensures
        t.is_mint <==> ev.data@[0].value() == 0,
{
}

/// A contract reply with every double quote removed.
pub open spec fn strip_quotes(s: Seq<char>) -> Seq<char>
    decreases s.len(),
{
    if s.len() == 0 {
        s
    } else if s.last() == '"' {
        strip_quotes(s.drop_last())
    } else {
        strip_quotes(s.drop_last()).push(s.last())
    }
}

/// The owner named by an `ownerOf` reply: its first word without quotes, or
/// the empty string when the call failed or returned nothing.
pub open spec fn owner_spec(reply: Option<Seq<Seq<char>>>) -> Seq<char> {
    match reply {
        Some(words) => if words.len() > 0 {
            strip_quotes(words[0])
        } else {
            Seq::empty()
        },
        None => Seq::empty(),
    }
}

pub fn remove_quotes(s: &str) -> (r: String)
    ensures
        r@ == strip_quotes(s@),
{
    let n = s.unicode_len();
    let mut out = String::new();
    let mut i: usize = 0;
    while i < n
        invariant
            i <= n,
            n == s@.len(),
            out@ == strip_quotes(s@.subrange(0, i as int)),
        decreases n - i,
    {
        assert(s@.subrange(0, i + 1).drop_last() =~= s@.subrange(0, i as int));
        if s.get_char(i) != '"' {
            let one = s.substring_char(i, i + 1);
            out.append(one);
            assert(out@ =~= strip_quotes(s@.subrange(0, i + 1)));
        }
        i = i + 1;
    }
    assert(s@.subrange(0, n as int) =~= s@);
    out
}

/// Reads the owner out of an `ownerOf` reply (`None` when the call failed).
/// Never fails: a missing owner is the empty string.
pub fn owner_from_reply(reply: Option<&Vec<String>>) -> (r: String)
    ensures
        r@ == owner_spec(
            match reply {
                Some(v) => Some(v@.map_values(|w: String| w@)),
                None => None,
            },
        ),
{
    match reply {
        Some(words) => if words.len() > 0 {
            remove_quotes(words[0].as_str())
        } else {
            String::new()
        },
        None => String::new(),
    }
}

/// The token fields of a transfer that the mint records need.
#[derive(Clone, Debug)]
pub struct TokenData {
    pub padded_token_id: String,
    pub token_uri: String,
    pub owner: String,
    pub token_type: String,
}

/// The transaction fields of a transfer that the mint records need.
#[derive(Clone, Debug)]
pub struct TransactionData {
    pub timestamp: u64,
    pub block_number: u64,
    pub from_address: String,
    pub to_address: String,
    pub hash: String,
}

/// One entry of a collection's append-only activity log.
#[derive(Clone, Debug)]
pub struct CollectionActivity {
    pub address: String,
    pub timestamp: u64,
    pub block_number: u64,
    pub event_type: String,
    pub from_address: String,
    pub padded_token_id: String,
    pub token_uri: String,
    pub to_address: String,
    pub transaction_hash: String,
    pub token_type: String,
}

/// The stored record of a minted token. Metadata is absent when it could
/// not be fetched.
#[derive(Clone, Debug)]
pub struct TokenRecord {
    pub collection_address: String,
    pub padded_token_id: String,
    pub token_uri: String,
    pub owner: String,
    pub mint_transaction_hash: String,
    pub block_number_minted: u64,
    pub raw: Option<String>,
    pub normalized: Option<NormalizedMetadata>,
}

/// The activity log entry for a mint.
pub fn mint_activity(collection_address: &str, token: &TokenData, tx: &TransactionData) -> (r:
    CollectionActivity)
    ensures
        r.address@ == collection_address@,
        r.timestamp == tx.timestamp,
        r.block_number == tx.block_number,
        r.event_type@ == seq!['m', 'i', 'n', 't'],
        r.from_address@ == tx.from_address@,
        r.to_address@ == tx.to_address@,
        r.transaction_hash@ == tx.hash@,
        r.padded_token_id@ == token.padded_token_id@,
        r.token_uri@ == token.token_uri@,
        r.token_type@ == token.token_type@,
{
    let event_type = String::from_str("mint");
    proof {
        reveal_strlit("mint");
    }
    CollectionActivity {
        address: String::from_str(collection_address),
        timestamp: tx.timestamp,
        block_number: tx.block_number,
        event_type,
        from_address: tx.from_address.clone(),
        padded_token_id: token.padded_token_id.clone(),
        token_uri: token.token_uri.clone(),
        to_address: tx.to_address.clone(),
        transaction_hash: tx.hash.clone(),
        token_type: token.token_type.clone(),
    }
}

/// The token record for a mint, with the fetched metadata (its raw text and
/// its normalized form) when there is any.
pub fn mint_token_record(
    collection_address: &str,
    token: TokenData,
    tx: &TransactionData,
    metadata: Option<(String, NormalizedMetadata)>,
) -> (r: TokenRecord)
    ensures
        r.collection_address@ == collection_address@,
        r.padded_token_id@ == token.padded_token_id@,
        r.token_uri@ == token.token_uri@,
        r.owner@ == token.owner@,
        r.mint_transaction_hash@ == tx.hash@,
        r.block_number_minted == tx.block_number,
        metadata is None ==> r.raw is None && r.normalized is None,
        metadata matches Some(m) ==> r.raw == Some(m.0) && r.normalized == Some(m.1),
{
    let (raw, normalized) = match metadata {
        Some((text, meta)) => (Some(text), Some(meta)),
        None => (None, None),
    };
    TokenRecord {
        collection_address: String::from_str(collection_address),
        padded_token_id: token.padded_token_id,
        token_uri: token.token_uri,
        owner: token.owner,
        mint_transaction_hash: tx.hash.clone(),
        block_number_minted: tx.block_number,
        raw,
        normalized,
    }
}

/// Where to fetch a minted token's metadata from: the sanitized URI, when the
/// token URI was resolved and sanitizing gave a non-empty URI; otherwise no
/// fetch is made.
pub fn metadata_fetch_uri(token_uri: &str, sanitized_uri: &str) -> (r: Option<String>)
    ensures
        usable_uri(token_uri@) && sanitized_uri@.len() > 0 ==> (r matches Some(u) && u@
            == sanitized_uri@),
        !(usable_uri(token_uri@) && sanitized_uri@.len() > 0) ==> r is None,
{
    if is_usable_uri(token_uri) && sanitized_uri.unicode_len() > 0 {
        Some(String::from_str(sanitized_uri))
    } else {
        None
    }
}

} // verus!
