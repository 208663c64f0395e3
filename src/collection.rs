//! Collection state reconciliation: the stored latest-mint timestamp.
use vstd::prelude::*;
use crate::decimal::{decimal_text, parse_u64, parse_u64_spec, lemma_decimal_round_trip};

verus! {

/// What to do with a collection's stored `latest_mint` after a mint.
#[derive(Clone, Copy, Debug, PartialEq, Eq, Structural)]
pub enum LatestMintUpdate {
    /// Store this timestamp.
    Write(u64),
    /// Leave the stored value as it is.
    Skip,
}

/// The rule that decides whether a stored timestamp is written back: only when
/// the stored value is greater than the newly observed one.
pub open spec fn replaces_latest_mint_spec(stored: u64, observed: u64) -> bool {
    stored > observed
}

/// The decision for a stored value (`None` when the field is absent) and a
/// newly observed mint timestamp.
pub open spec fn reconcile_spec(stored: Option<Seq<char>>, observed: u64) -> LatestMintUpdate {
    match stored {
        None => LatestMintUpdate::Write(observed),
        Some(text) => match parse_u64_spec(text) {
            None => LatestMintUpdate::Skip,
            Some(v) => if replaces_latest_mint_spec(v, observed) {
                LatestMintUpdate::Write(v)
            } else {
                LatestMintUpdate::Skip
            },
        },
    }
}

/// The stored field after carrying out an update; a written timestamp is
/// stored as decimal text.
pub open spec fn apply_update(stored: Option<Seq<char>>, update: LatestMintUpdate) -> Option<
    Seq<char>,
> {
    match update {
        LatestMintUpdate::Write(v) => Some(decimal_text(v as nat)),
        LatestMintUpdate::Skip => stored,
    }
}

pub fn replaces_latest_mint(stored: u64, observed: u64) -> (r: bool)
    ensures
        r == replaces_latest_mint_spec(stored, observed),
{
    stored > observed
}

/// Reconciles the stored `latest_mint` field with a newly observed mint
/// timestamp. An absent field is set; an unparsable one is left alone; a
/// parsable one is written back when the comparison rule says so.
pub fn reconcile_latest_mint(stored: Option<&String>, observed: u64) -> (r: LatestMintUpdate)
    ensures
        r == reconcile_spec(
            match stored {
                Some(s) => Some(s@),
                None => None,
            },
            observed,
        ),
{
    match stored {
        None => LatestMintUpdate::Write(observed),
        Some(text) => match parse_u64(text.as_str()) {
            None => LatestMintUpdate::Skip,
            Some(v) => if replaces_latest_mint(v, observed) {
                LatestMintUpdate::Write(v)
            } else {
                LatestMintUpdate::Skip
            },
        },
    }
}

/// Reconciling twice with the same timestamp leaves the same stored state as
/// reconciling once.
pub proof fn lemma_reconcile_idempotent(stored: Option<Seq<char>>, observed: u64)
    ensures
        apply_update(
            apply_update(stored, reconcile_spec(stored, observed)),
            reconcile_spec(apply_update(stored, reconcile_spec(stored, observed)), observed),
        ) == apply_update(stored, reconcile_spec(stored, observed)),
{
    match reconcile_spec(stored, observed) {
        LatestMintUpdate::Write(v) => {
            lemma_decimal_round_trip(v as nat);
        },
        LatestMintUpdate::Skip => {},
    }
}

} // verus!
