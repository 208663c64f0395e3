//! Token URI probing over two generations of contract method names.
use vstd::prelude::*;

verus! {

/// The marker for a URI that could not be resolved.
pub const UNRESOLVED_URI: &'static str = "undefined";

/// The read methods that may return a token's URI, in the order they are tried.
pub open spec fn uri_methods() -> Seq<Seq<char>> {
    seq![LEGACY_URI_METHOD@, CURRENT_URI_METHOD@]
}

/// Method name of the older contract interface.
pub const LEGACY_URI_METHOD: &'static str = "tokenURI";

/// Method name of the newer contract interface.
pub const CURRENT_URI_METHOD: &'static str = "token_uri";

/// A reply is a URI when it is neither empty nor the unresolved marker.
pub open spec fn usable_uri(s: Seq<char>) -> bool {
    s.len() > 0 && s != UNRESOLVED_URI@
}

/// What the probe does next.
#[derive(Debug, PartialEq, Eq)]
pub enum UriStep {
    /// Call the named read method with the token's two halves.
    Query(String),
    /// Stop with this URI (possibly the unresolved marker).
    Resolved(String),
}

/// `UriStep` as plain values.
pub enum UriStepModel {
    Query(Seq<char>),
    Resolved(Seq<char>),
}

impl UriStep {
    pub open spec fn model(self) -> UriStepModel {
        match self {
            UriStep::Query(m) => UriStepModel::Query(m@),
            UriStep::Resolved(u) => UriStepModel::Resolved(u@),
        }
    }
}

/// Replies that a probe can have gathered: at most one per method, and every
/// reply but the last one unusable (the probe stops at the first usable one).
pub open spec fn valid_replies(replies: Seq<Seq<char>>) -> bool {
    &&& replies.len() <= uri_methods().len()
    &&& forall|i: int| 0 <= i < replies.len() - 1 ==> !usable_uri(#[trigger] replies[i])
}

/// The next step after the given replies.
pub open spec fn uri_step_spec(replies: Seq<Seq<char>>) -> UriStepModel {
    if replies.len() > 0 && usable_uri(replies.last()) {
        UriStepModel::Resolved(replies.last())
    } else if replies.len() < uri_methods().len() {
        UriStepModel::Query(uri_methods()[replies.len() as int])
    } else {
        UriStepModel::Resolved(UNRESOLVED_URI@)
    }
}

pub fn is_usable_uri(s: &str) -> (r: bool)
    ensures
        r == usable_uri(s@),
{
    let n = s.unicode_len();
    if n == 0 {
        return false;
    }
    !str_eq(s, UNRESOLVED_URI)
}

/// Character-wise equality of two strings.
pub fn str_eq(a: &str, b: &str) -> (r: bool)
    ensures
        r == (a@ == b@),
{
    let n = a.unicode_len();
    if n != b.unicode_len() {
        return false;
    }
    let mut i: usize = 0;
    while i < n
        invariant
            i <= n,
            n == a@.len(),
            n == b@.len(),
            a@.subrange(0, i as int) == b@.subrange(0, i as int),
        decreases n - i,
    {
        if a.get_char(i) != b.get_char(i) {
            return false;
        }
        assert(a@.subrange(0, i + 1) =~= a@.subrange(0, i as int).push(a@[i as int]));
        assert(b@.subrange(0, i + 1) =~= b@.subrange(0, i as int).push(b@[i as int]));
        i = i + 1;
    }
    assert(a@ =~= a@.subrange(0, n as int));
    assert(b@ =~= b@.subrange(0, n as int));
    true
}

/// Decides the next step of URI resolution from the replies gathered so far,
/// one per method already called, in call order.
pub fn next_uri_step(replies: &Vec<String>) -> (r: UriStep)
    requires
        valid_replies(replies@.map_values(|s: String| s@)),
    ensures
        r.model() == uri_step_spec(replies@.map_values(|s: String| s@)),
{
    let ghost rs = replies@.map_values(|s: String| s@);
    let n = replies.len();
    if n > 0 && is_usable_uri(replies[n - 1].as_str()) {
        return UriStep::Resolved(replies[n - 1].clone());
    }
    if n == 0 {
        UriStep::Query(String::from_str(LEGACY_URI_METHOD))
    } else if n == 1 {
        UriStep::Query(String::from_str(CURRENT_URI_METHOD))
    } else {
        UriStep::Resolved(String::from_str(UNRESOLVED_URI))
    }
}

/// URI resolution asks the legacy method first, asks the newer one only when
/// the legacy reply is empty or the unresolved marker, and ends unresolved
/// when both replies are.
pub proof fn lemma_uri_fallback_order(legacy: Seq<char>, current: Seq<char>)
    ensures
        uri_step_spec(seq![]) == UriStepModel::Query(LEGACY_URI_METHOD@),
        usable_uri(legacy) ==> uri_step_spec(seq![legacy]) == UriStepModel::Resolved(legacy),
        !usable_uri(legacy) ==> uri_step_spec(seq![legacy]) == UriStepModel::Query(
            CURRENT_URI_METHOD@,
        ),
        usable_uri(current) ==> uri_step_spec(seq![legacy, current]) == UriStepModel::Resolved(
            current,
        ),
        !usable_uri(current) ==> uri_step_spec(seq![legacy, current]) == UriStepModel::Resolved(
            UNRESOLVED_URI@,
        ),
{
}

} // verus!
