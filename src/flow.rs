//! The processing of one transfer event as a state machine: each step takes
//! the outcome of the last outside operation and names the next one.
use vstd::prelude::*;
use crate::collection::{LatestMintUpdate, reconcile_latest_mint, reconcile_spec};
use crate::metadata::{JsonValue, NormalizedMetadata, normalize_metadata, normalize_spec};
use crate::transfer::{Transfer, TokenData, TransactionData, TokenRecord, CollectionActivity,
    mint_activity, mint_token_record, metadata_fetch_uri, owner_from_reply, owner_spec};
use crate::uri::{UriStep, next_uri_step, uri_step_spec, valid_replies, usable_uri,
    UriStepModel, is_usable_uri};

verus! {

/// Where the processing of an event stands.
#[derive(Clone, Copy, Debug, PartialEq, Eq, Structural)]
pub enum Phase {
    Start,
    AwaitTimestamp,
    AwaitUri,
    AwaitOwner,
    AwaitSymbol,
    AwaitName,
    AwaitCollectionWrite,
    AwaitTransferWrite,
    AwaitCollection,
    AwaitLatestMintWrite,
    AwaitSanitized,
    AwaitMetadata,
    AwaitTokenWrite,
    AwaitActivityWrite,
    Finished,
}

/// Why processing an event stopped with an error.
#[derive(Clone, Copy, Debug, PartialEq, Eq, Structural)]
pub enum ProcessError {
    /// The block header or its timestamp could not be read.
    BlockUnavailable,
    /// An outcome arrived that does not answer the pending operation.
    UnexpectedEvent,
}

/// The outcome of an outside operation, handed to [`TransferFlow::step`].
#[derive(Debug)]
pub enum FlowEvent {
    /// Processing begins.
    Start,
    /// The block's timestamp, or `None` when it could not be read.
    Timestamp(Option<u64>),
    /// The string that a read method returned (empty or the unresolved marker on failure).
    Property(String),
    /// The words of an `ownerOf` reply, or `None` when the call failed.
    Owner(Option<Vec<String>>),
    /// A write was carried out (its failure is not fatal).
    Written,
    /// The collection's stored `latest_mint` (`None` inside when absent), or
    /// `None` when the collection could not be read or does not exist.
    Collection(Option<Option<String>>),
    /// The fetchable form of the token URI and the URI it was made from.
    Sanitized { metadata_uri: String, original_uri: String },
    /// The fetched metadata as raw text and as a document, or `None` on failure.
    Metadata(Option<(String, JsonValue)>),
}

/// The next outside operation.
#[derive(Debug)]
pub enum FlowAction {
    /// Read the timestamp of the block.
    FetchBlockTimestamp { block_number: u64 },
    /// Call a read method of the contract at the event's block.
    ReadProperty { method: String, calldata: Vec<String> },
    /// Call `ownerOf` with the given calldata.
    CallOwnerOf { calldata: Vec<String> },
    /// Upsert the collection's type, name and symbol.
    UpdateCollection { contract_type: String, name: String, symbol: String },
    /// Record the transfer under (collection, padded token id).
    RecordTransfer { padded_token_id: String, timestamp: u64 },
    /// Read the collection's stored state.
    GetCollection,
    /// Store this value as the collection's `latest_mint`.
    WriteLatestMint { latest_mint: u64 },
    /// Turn the token URI into a fetchable one.
    SanitizeUri { uri: String },
    /// Fetch the metadata document at this URI.
    FetchMetadata { uri: String },
    /// Store the token record.
    WriteToken(TokenRecord),
    /// Append the activity entry.
    AppendActivity(CollectionActivity),
    /// Processing is over.
    Done(Result<(), ProcessError>),
}

/// The state of processing one decoded transfer.
pub struct TransferFlow {
    pub transfer: Transfer,
    pub contract_type: String,
    pub phase: Phase,
    pub timestamp: u64,
    pub uri_replies: Vec<String>,
    pub token_uri: String,
    pub owner: String,
    pub symbol: String,
    pub original_uri: String,
}

/// The contents of a list of strings.
pub open spec fn str_seq(v: Seq<String>) -> Seq<Seq<char>> {
    v.map_values(|s: String| s@)
}

pub open spec fn stored_view(stored: Option<String>) -> Option<Seq<char>> {
    match stored {
        Some(s) => Some(s@),
        None => None,
    }
}

/// The collection lookup leaves `latest_mint` alone: no collection was
/// found, or reconciliation decides to skip.
pub open spec fn collection_skips(event: FlowEvent, observed: u64) -> bool {
    match event {
        FlowEvent::Collection(None) => true,
        FlowEvent::Collection(Some(stored)) => reconcile_spec(stored_view(stored), observed) is Skip,
        _ => false,
    }
}

impl TransferFlow {
    /// Calldata of the token reads: the two halves of the token id in hexadecimal.
    pub open spec fn calldata_spec(&self) -> Seq<Seq<char>> {
        seq![
            crate::hex::hex_pad(self.transfer.token_id.low as nat, 1),
            crate::hex::hex_pad(self.transfer.token_id.high as nat, 1),
        ]
    }

    /// Whether the data gathered so far is the same in both states.
    pub open spec fn same_data(&self, other: TransferFlow) -> bool {
        &&& self.timestamp == other.timestamp
        &&& self.uri_replies@ == other.uri_replies@
        &&& self.token_uri@ == other.token_uri@
        &&& self.owner@ == other.owner@
        &&& self.symbol@ == other.symbol@
        &&& self.contract_type@ == other.contract_type@
        &&& self.original_uri@ == other.original_uri@
    }

    /// Whether `rec` is the token record of this flow's mint.
    pub open spec fn records_token(&self, rec: TokenRecord) -> bool {
        &&& rec.collection_address@ == self.transfer.contract_address@
        &&& rec.padded_token_id@ == self.transfer.token_id.padded_spec()
        &&& rec.token_uri@ == self.token_uri@
        &&& rec.owner@ == self.owner@
        &&& rec.mint_transaction_hash@ == self.transfer.transaction_hash@
        &&& rec.block_number_minted == self.transfer.block_number
    }

    /// Whether `a` is the activity entry of this flow's mint.
    pub open spec fn records_activity(&self, a: CollectionActivity) -> bool {
        &&& a.address@ == self.transfer.contract_address@
        &&& a.timestamp == self.timestamp
        &&& a.block_number == self.transfer.block_number
        &&& a.event_type@ == "mint"@
        &&& a.from_address@ == self.transfer.from_address@
        &&& a.to_address@ == self.transfer.to_address@
        &&& a.padded_token_id@ == self.transfer.token_id.padded_spec()
        &&& a.token_uri@ == self.token_uri@
        &&& a.transaction_hash@ == self.transfer.transaction_hash@
        &&& a.token_type@ == self.contract_type@
    }

    pub open spec fn inv(&self) -> bool {
        (self.phase == Phase::AwaitUri ==> valid_replies(str_seq(self.uri_replies@))
            && self.uri_replies@.len() < 2 && (forall|i: int|
            0 <= i < self.uri_replies@.len() ==> !usable_uri(#[trigger] self.uri_replies@[i]@)))
            && (self.phase == Phase::AwaitSanitized ==> usable_uri(self.token_uri@))
    }

    /// A flow about to start on `transfer`, whose contract has the given type.
    pub fn new(transfer: Transfer, contract_type: String) -> (r: TransferFlow)
        ensures
            r.phase == Phase::Start,
            r.transfer == transfer,
            r.contract_type == contract_type,
            r.inv(),
    {
        TransferFlow {
            transfer,
            contract_type,
            phase: Phase::Start,
            timestamp: 0,
            uri_replies: Vec::new(),
            token_uri: String::new(),
            owner: String::new(),
            symbol: String::new(),
            original_uri: String::new(),
        }
    }

    fn calldata(&self) -> (r: Vec<String>)
        ensures
            str_seq(r@) == self.calldata_spec(),
    {
        let mut v: Vec<String> = Vec::new();
        v.push(self.transfer.token_id.low_hex());
        v.push(self.transfer.token_id.high_hex());
        assert(str_seq(v@) =~= self.calldata_spec());
        v
    }

    fn token_data(&self) -> (r: TokenData)
        ensures
            r.token_uri@ == self.token_uri@,
            r.owner@ == self.owner@,
            r.token_type@ == self.contract_type@,
            r.padded_token_id@ == self.transfer.token_id.padded_spec(),
    {
        TokenData {
            padded_token_id: self.transfer.token_id.padded_token_id(),
            token_uri: self.token_uri.clone(),
            owner: self.owner.clone(),
            token_type: self.contract_type.clone(),
        }
    }

    fn transaction_data(&self) -> (r: TransactionData)
        ensures
            r.timestamp == self.timestamp,
            r.block_number == self.transfer.block_number,
            r.from_address@ == self.transfer.from_address@,
            r.to_address@ == self.transfer.to_address@,
            r.hash@ == self.transfer.transaction_hash@,
    {
        TransactionData {
            timestamp: self.timestamp,
            block_number: self.transfer.block_number,
            from_address: self.transfer.from_address.clone(),
            to_address: self.transfer.to_address.clone(),
            hash: self.transfer.transaction_hash.clone(),
        }
    }

    fn write_token(&mut self, metadata: Option<(String, NormalizedMetadata)>) -> (r: FlowAction)
        ensures
            final(self).phase == Phase::AwaitTokenWrite,
            final(self).transfer == old(self).transfer,
            final(self).token_uri == old(self).token_uri,
            final(self).same_data(*old(self)),
            r matches FlowAction::WriteToken(rec) && old(self).records_token(rec)
                && (metadata is None ==> rec.raw is None && rec.normalized is None)
                && (metadata matches Some(m) ==> rec.raw == Some(m.0) && rec.normalized == Some(m.1)),
    {
        let token = self.token_data();
        let tx = self.transaction_data();
        let rec = mint_token_record(self.transfer.contract_address.as_str(), token, &tx, metadata);
        self.phase = Phase::AwaitTokenWrite;
        FlowAction::WriteToken(rec)
    }

    /// After the latest-mint step: sanitize a resolved URI, or write the
    /// token record without metadata.
    fn after_latest_mint(&mut self) -> (r: FlowAction)
        ensures
            final(self).transfer == old(self).transfer,
            final(self).token_uri == old(self).token_uri,
            final(self).same_data(*old(self)),
            usable_uri(old(self).token_uri@) ==> final(self).phase == Phase::AwaitSanitized && (
            r matches FlowAction::SanitizeUri { uri } && uri@ == old(self).token_uri@),
            !usable_uri(old(self).token_uri@) ==> final(self).phase == Phase::AwaitTokenWrite && (
            r matches FlowAction::WriteToken(rec) && rec.normalized is None && rec.raw is None
                && old(self).records_token(rec)),
    {
        if is_usable_uri(self.token_uri.as_str()) {
            self.phase = Phase::AwaitSanitized;
            FlowAction::SanitizeUri { uri: self.token_uri.clone() }
        } else {
            self.write_token(None)
        }
    }

    /// Takes the outcome of the pending operation and returns the next one.
    pub fn step(&mut self, event: FlowEvent) -> (r: FlowAction)
        requires
            old(self).inv(),
        ensures
            final(self).inv(),
            final(self).transfer == old(self).transfer,
            // Each piece of gathered data changes only at the step that gathers it.
            final(self).contract_type@ == old(self).contract_type@,
            old(self).phase != Phase::AwaitTimestamp ==> final(self).timestamp
                == old(self).timestamp,
            old(self).phase != Phase::AwaitTimestamp && old(self).phase != Phase::AwaitUri
                ==> final(self).uri_replies@ == old(self).uri_replies@,
            old(self).phase != Phase::AwaitUri ==> final(self).token_uri@ == old(self).token_uri@,
            old(self).phase != Phase::AwaitOwner ==> final(self).owner@ == old(self).owner@,
            old(self).phase != Phase::AwaitSymbol ==> final(self).symbol@ == old(self).symbol@,
            old(self).phase != Phase::AwaitSanitized ==> final(self).original_uri@
                == old(self).original_uri@,
            old(self).phase == Phase::Finished ==> final(self).phase == Phase::Finished && (
            r matches FlowAction::Done(Err(ProcessError::UnexpectedEvent))),
            // Start: read the block's timestamp.
            old(self).phase == Phase::Start && event is Start ==> final(self).phase
                == Phase::AwaitTimestamp && (r matches FlowAction::FetchBlockTimestamp {
                block_number,
            } && block_number == old(self).transfer.block_number),
            // No timestamp is the one fatal failure.
            old(self).phase == Phase::AwaitTimestamp ==> (event matches FlowEvent::Timestamp(None)
                ==> final(self).phase == Phase::Finished && (r matches FlowAction::Done(
                Err(ProcessError::BlockUnavailable),
            ))),
            old(self).phase == Phase::AwaitTimestamp ==> (event matches FlowEvent::Timestamp(Some(t))
                ==> final(self).phase == Phase::AwaitUri && final(self).timestamp == t
                && final(self).uri_replies@.len() == 0 && (
            r matches FlowAction::ReadProperty { method, calldata } && method@ == "tokenURI"@
                && str_seq(calldata@) == old(self).calldata_spec())),
            // URI probing follows the fallback order.
            old(self).phase == Phase::AwaitUri ==> (event matches FlowEvent::Property(reply) ==> {
                let rs = str_seq(old(self).uri_replies@).push(reply@);
                match uri_step_spec(rs) {
                    UriStepModel::Query(m) => final(self).phase == Phase::AwaitUri && str_seq(
                        final(self).uri_replies@,
                    ) == rs && (
                    r matches FlowAction::ReadProperty { method, calldata } && method@ == m
                        && str_seq(calldata@) == old(self).calldata_spec()),
                    UriStepModel::Resolved(u) => final(self).phase == Phase::AwaitOwner
                        && final(self).token_uri@ == u && (
                    r matches FlowAction::CallOwnerOf { calldata } && str_seq(calldata@)
                        == old(self).calldata_spec()),
                }
            }),
            old(self).phase == Phase::AwaitOwner ==> (event matches FlowEvent::Owner(reply)
                ==> final(self).phase == Phase::AwaitSymbol && final(self).owner@ == owner_spec(
                match reply {
                    Some(v) => Some(str_seq(v@)),
                    None => None,
                },
            ) && (r matches FlowAction::ReadProperty { method, calldata } && method@ == "symbol"@
                && calldata@.len() == 0)),
            old(self).phase == Phase::AwaitSymbol ==> (event matches FlowEvent::Property(s)
                ==> final(self).phase == Phase::AwaitName && final(self).symbol@ == s@ && (
            r matches FlowAction::ReadProperty { method, calldata } && method@ == "name"@
                && calldata@.len() == 0)),
            old(self).phase == Phase::AwaitName ==> (event matches FlowEvent::Property(n)
                ==> final(self).phase == Phase::AwaitCollectionWrite && (
            r matches FlowAction::UpdateCollection { contract_type, name, symbol } && name@ == n@
                && symbol@ == old(self).symbol@ && contract_type@ == old(self).contract_type@)),
            // The transfer is recorded for every event, mint or not.
            old(self).phase == Phase::AwaitCollectionWrite && event is Written ==> final(self).phase
                == Phase::AwaitTransferWrite && (r matches FlowAction::RecordTransfer {
                padded_token_id,
                timestamp,
            } && padded_token_id@ == old(self).transfer.token_id.padded_spec() && timestamp
                == old(self).timestamp),
            // Only a mint goes further.
            old(self).phase == Phase::AwaitTransferWrite && event is Written
                && !old(self).transfer.is_mint ==> final(self).phase == Phase::Finished && (
            r matches FlowAction::Done(Ok(()))),
            old(self).phase == Phase::AwaitTransferWrite && event is Written
                && old(self).transfer.is_mint ==> final(self).phase == Phase::AwaitCollection && (
            r is GetCollection),
            // Latest-mint reconciliation.
            old(self).phase == Phase::AwaitCollection ==> (event matches FlowEvent::Collection(
                Some(stored),
            ) ==> (reconcile_spec(stored_view(stored), old(self).timestamp)
                matches LatestMintUpdate::Write(v) ==> final(self).phase
                == Phase::AwaitLatestMintWrite && (r matches FlowAction::WriteLatestMint {
                latest_mint,
            } && latest_mint == v))),
            ((old(self).phase == Phase::AwaitCollection && collection_skips(
                event,
                old(self).timestamp,
            )) || (old(self).phase == Phase::AwaitLatestMintWrite && event is Written)) ==> if usable_uri(
                old(self).token_uri@,
            ) {
                final(self).phase == Phase::AwaitSanitized && (r matches FlowAction::SanitizeUri {
                    uri,
                } && uri@ == old(self).token_uri@)
            } else {
                final(self).phase == Phase::AwaitTokenWrite && (r matches FlowAction::WriteToken(rec)
                    && old(self).records_token(rec) && rec.raw is None && rec.normalized is None)
            },
            // Metadata is fetched only from a non-empty sanitized URI.
            old(self).phase == Phase::AwaitSanitized ==> (event matches FlowEvent::Sanitized {
                metadata_uri,
                original_uri,
            } ==> if metadata_uri@.len() > 0 {
                final(self).phase == Phase::AwaitMetadata && final(self).original_uri@
                    == original_uri@ && (r matches FlowAction::FetchMetadata { uri } && uri@
                    == metadata_uri@)
            } else {
                final(self).phase == Phase::AwaitTokenWrite && (r matches FlowAction::WriteToken(rec)
                    && old(self).records_token(rec) && rec.raw is None && rec.normalized is None)
            }),
            old(self).phase == Phase::AwaitMetadata ==> (event matches FlowEvent::Metadata(m)
                ==> final(self).phase == Phase::AwaitTokenWrite && (r matches FlowAction::WriteToken(
                rec,
            ) && old(self).records_token(rec) && (
            m is None ==> rec.raw is None && rec.normalized is None) && (m matches Some(pair) ==> rec.raw == Some(pair.0)
                && (rec.normalized matches Some(nm) && nm@ == normalize_spec(
                pair.1,
                old(self).original_uri@,
            ))))),
            // The activity entry closes a mint.
            old(self).phase == Phase::AwaitTokenWrite && event is Written ==> final(self).phase
                == Phase::AwaitActivityWrite && (r matches FlowAction::AppendActivity(a)
                && old(self).records_activity(a)),
            old(self).phase == Phase::AwaitActivityWrite && event is Written ==> final(self).phase
                == Phase::Finished && (r matches FlowAction::Done(Ok(()))),
    {
        proof {
            reveal_strlit("tokenURI");
            reveal_strlit("symbol");
            reveal_strlit("name");
            reveal_strlit("mint");
        }
        match (self.phase, event) {
            (Phase::Start, FlowEvent::Start) => {
                self.phase = Phase::AwaitTimestamp;
                FlowAction::FetchBlockTimestamp { block_number: self.transfer.block_number }
            },
            (Phase::AwaitTimestamp, FlowEvent::Timestamp(None)) => {
                self.phase = Phase::Finished;
                FlowAction::Done(Err(ProcessError::BlockUnavailable))
            },
            (Phase::AwaitTimestamp, FlowEvent::Timestamp(Some(t))) => {
                self.timestamp = t;
                self.uri_replies = Vec::new();
                self.phase = Phase::AwaitUri;
                assert(str_seq(self.uri_replies@) =~= Seq::<Seq<char>>::empty());
                match next_uri_step(&self.uri_replies) {
                    UriStep::Query(method) => FlowAction::ReadProperty {
                        method,
                        calldata: self.calldata(),
                    },
                    UriStep::Resolved(_) => {
                        self.phase = Phase::Finished;
                        FlowAction::Done(Err(ProcessError::UnexpectedEvent))
                    },
                }
            },
            (Phase::AwaitUri, FlowEvent::Property(reply)) => {
                let ghost before = self.uri_replies@;
                self.uri_replies.push(reply);
                assert(str_seq(self.uri_replies@) =~= str_seq(before).push(reply@));
                match next_uri_step(&self.uri_replies) {
                    UriStep::Query(method) => FlowAction::ReadProperty {
                        method,
                        calldata: self.calldata(),
                    },
                    UriStep::Resolved(uri) => {
                        self.token_uri = uri;
                        self.phase = Phase::AwaitOwner;
                        FlowAction::CallOwnerOf { calldata: self.calldata() }
                    },
                }
            },
            (Phase::AwaitOwner, FlowEvent::Owner(reply)) => {
                self.owner = match &reply {
                    Some(words) => owner_from_reply(Some(words)),
                    None => owner_from_reply(None),
                };
                self.phase = Phase::AwaitSymbol;
                FlowAction::ReadProperty { method: String::from_str("symbol"), calldata: Vec::new() }
            },
            (Phase::AwaitSymbol, FlowEvent::Property(s)) => {
                self.symbol = s;
                self.phase = Phase::AwaitName;
                FlowAction::ReadProperty { method: String::from_str("name"), calldata: Vec::new() }
            },
            (Phase::AwaitName, FlowEvent::Property(n)) => {
                self.phase = Phase::AwaitCollectionWrite;
                FlowAction::UpdateCollection {
                    contract_type: self.contract_type.clone(),
                    name: n,
                    symbol: self.symbol.clone(),
                }
            },
            (Phase::AwaitCollectionWrite, FlowEvent::Written) => {
                self.phase = Phase::AwaitTransferWrite;
                FlowAction::RecordTransfer {
                    padded_token_id: self.transfer.token_id.padded_token_id(),
                    timestamp: self.timestamp,
                }
            },
            (Phase::AwaitTransferWrite, FlowEvent::Written) => {
                if self.transfer.is_mint {
                    self.phase = Phase::AwaitCollection;
                    FlowAction::GetCollection
                } else {
                    self.phase = Phase::Finished;
                    FlowAction::Done(Ok(()))
                }
            },
            (Phase::AwaitCollection, FlowEvent::Collection(found)) => {
                match found {
                    Some(stored) => match reconcile_latest_mint(stored.as_ref(), self.timestamp) {
                        LatestMintUpdate::Write(v) => {
                            self.phase = Phase::AwaitLatestMintWrite;
                            FlowAction::WriteLatestMint { latest_mint: v }
                        },
                        LatestMintUpdate::Skip => self.after_latest_mint(),
                    },
                    None => self.after_latest_mint(),
                }
            },
            (Phase::AwaitLatestMintWrite, FlowEvent::Written) => self.after_latest_mint(),
            (Phase::AwaitSanitized, FlowEvent::Sanitized { metadata_uri, original_uri }) => {
                self.original_uri = original_uri;
                match metadata_fetch_uri(self.token_uri.as_str(), metadata_uri.as_str()) {
                    Some(uri) => {
                        self.phase = Phase::AwaitMetadata;
                        FlowAction::FetchMetadata { uri }
                    },
                    None => self.write_token(None),
                }
            },
            (Phase::AwaitMetadata, FlowEvent::Metadata(m)) => {
                match m {
                    Some((raw, doc)) => {
                        let normalized = normalize_metadata(&doc, self.original_uri.as_str());
                        self.write_token(Some((raw, normalized)))
                    },
                    None => self.write_token(None),
                }
            },
            (Phase::AwaitTokenWrite, FlowEvent::Written) => {
                let token = self.token_data();
                let tx = self.transaction_data();
                let activity = mint_activity(self.transfer.contract_address.as_str(), &token, &tx);
                assert("mint"@ =~= seq!['m', 'i', 'n', 't']);
                self.phase = Phase::AwaitActivityWrite;
                FlowAction::AppendActivity(activity)
            },
            (Phase::AwaitActivityWrite, FlowEvent::Written) => {
                self.phase = Phase::Finished;
                FlowAction::Done(Ok(()))
            },
            _ => {
                self.phase = Phase::Finished;
                FlowAction::Done(Err(ProcessError::UnexpectedEvent))
            },
        }
    }
}

} // verus!
