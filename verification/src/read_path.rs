//! The read-path handler's decisions.
//!
//! A read proceeds in two suspension-free decision steps around the two
//! outside calls the foreground path makes.  First, the resolved locator (or
//! its absence) is routed: absent means `NotFound`; a locator in the local
//! region, or any locator when pull-through is off, is served straight
//! through; a remote locator under pull-through is fetched remotely and
//! replicated.  Second, the fetched body is turned into the client response,
//! with the logical version substituted for the physical one and, on the
//! pull-through path, an independent copy handed to background replication.

use vstd::prelude::*;

use crate::models::clone_opt_string;
use crate::models::LocateObjectResponse;
use crate::splitter::split_buffer;
use vstd::string::StringExecFns;

verus! {

/// A client-addressable object identity, independent of physical placement.
/// `version` is the client-facing version; `None` means current/latest.
#[derive(Debug)]
pub struct LogicalObjectRef {
    pub bucket: String,
    pub key: String,
    pub version: Option<i32>,
}

impl Clone for LogicalObjectRef {
    fn clone(&self) -> (r: Self)
        ensures
            r == *self,
    {
        LogicalObjectRef {
            bucket: self.bucket.clone(),
            key: self.key.clone(),
            version: self.version,
        }
    }
}

/// How one read request is to be served.
#[derive(Debug)]
pub enum ReadRoute {
    /// The directory resolves the reference to nothing: the object does not
    /// exist, definitively.
    NotFound,
    /// Serve by a single straight-through read of this copy.
    Direct { locator: LocateObjectResponse },
    /// Fetch this remote copy, serve the client from one branch of the body
    /// and replicate the other branch toward the local region.
    PullThrough { locator: LocateObjectResponse },
}

/// The routing decision: absence is `NotFound`; pull-through is taken exactly
/// when it is enabled and the copy lies in another region; everything else is
/// a straight-through read.
pub open spec fn route_spec(
    locator: Option<LocateObjectResponse>,
    pull_through: bool,
    local_tag: Seq<char>,
) -> ReadRoute {
    match locator {
        None => ReadRoute::NotFound,
        Some(l) => if pull_through && l.tag@ != local_tag {
            ReadRoute::PullThrough { locator: l }
        } else {
            ReadRoute::Direct { locator: l }
        },
    }
}

/// Route one read request from the directory's answer, the request's
/// pull-through flag, and the handling region's tag.
pub fn route_read(
    locator: Option<LocateObjectResponse>,
    pull_through: bool,
    local_tag: &String,
) -> (r: ReadRoute)
    ensures
        r == route_spec(locator, pull_through, local_tag@),
{
    match locator {
        None => ReadRoute::NotFound,
        Some(l) => {
            if pull_through && !(l.tag == *local_tag) {
                ReadRoute::PullThrough { locator: l }
            } else {
                ReadRoute::Direct { locator: l }
            }
        },
    }
}

/// What the read path asks of a physical store: the copy's own bucket, key
/// and physical version, against the store identified by `tag`.
#[derive(Debug)]
pub struct StoreGetRequest {
    pub tag: String,
    pub bucket: String,
    pub key: String,
    pub version_id: Option<String>,
}

/// Build the physical-store read for a resolved locator.  The request
/// addresses the copy where it actually lives: the locator's bucket and key,
/// not the logical ones, and the copy's physical version.
pub fn store_get_request(locator: &LocateObjectResponse) -> (r: StoreGetRequest)
    ensures
        r.tag == locator.tag,
        r.bucket == locator.bucket,
        r.key == locator.key,
        r.version_id == locator.version_id,
{
    StoreGetRequest {
        tag: locator.tag.clone(),
        bucket: locator.bucket.clone(),
        key: locator.key.clone(),
        version_id: clone_opt_string(&locator.version_id),
    }
}

/// The client-visible result of a read: a fully materialized body with a
/// stable content length, under the logical version the client addressed.
#[derive(Debug)]
pub struct GetObjectResponse {
    pub body: Vec<u8>,
    pub content_length: u64,
    pub version_id: Option<i32>,
}

/// A well-formed response reports exactly the length of the body it carries.
pub open spec fn response_wf(r: GetObjectResponse) -> bool {
    r.content_length == r.body@.len()
}

/// Finish a straight-through read: the fetched body becomes the response
/// unmodified, and the logical version replaces whatever version the
/// physical store reported.
pub fn finish_read(body: Vec<u8>, logical_version: Option<i32>) -> (r: GetObjectResponse)
    ensures
        r.body@ == body@,
        r.version_id == logical_version,
        response_wf(r),
{
    let content_length = body.len() as u64;
    GetObjectResponse { body, content_length, version_id: logical_version }
}

/// Everything a background replication task needs, owned outright: the
/// logical identity to reserve under, the tag of the region that is pulling
/// the object closer, and a full copy of the body.  The task that takes it
/// shares nothing with the request that made it.
#[derive(Debug)]
pub struct ReplicationJob {
    pub logical: LogicalObjectRef,
    pub local_tag: String,
    pub body: Vec<u8>,
}

/// Finish a pull-through read: split the remote body into two independent
/// copies, return one to the client at once (under the logical version) and
/// package the other as the single replication job this read spawns.
pub fn pull_through_read(body: Vec<u8>, logical: LogicalObjectRef, local_tag: &String) -> (r: (
    GetObjectResponse,
    ReplicationJob,
))
    ensures
        r.0.body@ == body@,
        r.0.version_id == logical.version,
        response_wf(r.0),
        r.1.body@ == body@,
        r.1.logical == logical,
        r.1.local_tag == *local_tag,
{
    let version = logical.version;
    let mut copies = split_buffer(body, 2);
    let replica_body = copies.pop().unwrap();
    let client_body = copies.pop().unwrap();
    let response = finish_read(client_body, version);
    let job = ReplicationJob { logical, local_tag: local_tag.clone(), body: replica_body };
    (response, job)
}

/// Whether a byte is a decimal digit.
pub open spec fn is_digit(b: u8) -> bool {
    48 <= b <= 57
}

/// The value of a string of decimal digits, most significant first.
pub open spec fn decimal_value(s: Seq<u8>) -> int
    decreases s.len(),
{
    if s.len() == 0 {
        0
    } else {
        decimal_value(s.drop_last()) * 10 + (s.last() - 48)
    }
}

/// A well-formed version literal: at least one byte, every byte a digit.
pub open spec fn is_version_digits(s: Seq<u8>) -> bool {
    s.len() > 0 && (forall|i: int| 0 <= i < s.len() ==> is_digit(#[trigger] s[i]))
}

proof fn lemma_decimal_value_nonneg(s: Seq<u8>)
    requires
        forall|i: int| 0 <= i < s.len() ==> is_digit(#[trigger] s[i]),
    ensures
        decimal_value(s) >= 0,
    decreases s.len(),
{
    if s.len() > 0 {
        assert(forall|i: int|
            0 <= i < s.drop_last().len() ==> is_digit(#[trigger] s.drop_last()[i]));
        lemma_decimal_value_nonneg(s.drop_last());
        assert(decimal_value(s.drop_last()) * 10 >= 0) by (nonlinear_arith)
            requires
                decimal_value(s.drop_last()) >= 0,
        ;
    }
}

proof fn lemma_decimal_value_grows(s: Seq<u8>, k: int)
    requires
        0 <= k <= s.len(),
        forall|i: int| 0 <= i < s.len() ==> is_digit(#[trigger] s[i]),
    ensures
        decimal_value(s) >= decimal_value(s.take(k)),
    decreases s.len() - k,
{
    if k < s.len() {
        lemma_decimal_value_grows(s, k + 1);
        assert(s.take(k + 1).drop_last() =~= s.take(k));
        assert(s.take(k + 1).last() == s[k]);
        assert(forall|i: int| 0 <= i < s.take(k).len() ==> is_digit(#[trigger] s.take(k)[i]));
        lemma_decimal_value_nonneg(s.take(k));
        assert(decimal_value(s.take(k)) * 10 >= decimal_value(s.take(k))) by (nonlinear_arith)
            requires
                decimal_value(s.take(k)) >= 0,
        ;
    } else {
        assert(s.take(k) =~= s);
    }
}

/// Parse a client-supplied version id: a non-empty string of decimal
/// digits whose value fits the directory's version type.  Anything else —
/// empty, a stray byte, a value out of range — is no version the directory
/// ever issued, and is rejected rather than guessed at.
pub fn parse_version_id(s: &[u8]) -> (r: Option<i32>)
    ensures
        r is Some <==> is_version_digits(s@) && decimal_value(s@) <= i32::MAX,
        r matches Some(v) ==> v == decimal_value(s@),
{
    if s.len() == 0 {
        return None;
    }
    let mut acc: i64 = 0;
    let mut i: usize = 0;
    while i < s.len()
        invariant
            0 < s@.len(),
            i <= s@.len(),
            forall|j: int| 0 <= j < i ==> is_digit(#[trigger] s@[j]),
            0 <= acc <= i32::MAX,
            acc == decimal_value(s@.take(i as int)),
        decreases s@.len() - i,
    {
        let b = s[i];
        if b < 48 || b > 57 {
            return None;
        }
        proof {
            assert(s@.take(i + 1).drop_last() =~= s@.take(i as int));
            assert(s@.take(i + 1).last() == s@[i as int]);
        }
        let next = acc * 10 + ((b - 48) as i64);
        if next > (i32::MAX as i64) {
            proof {
                if is_version_digits(s@) {
                    lemma_decimal_value_grows(s@, i + 1);
                }
            }
            return None;
        }
        acc = next;
        i = i + 1;
    }
    proof {
        assert(s@.take(i as int) =~= s@);
    }
    Some(acc as i32)
}

/// The per-request metric record the straight-through path emits: the
/// latency figures already rendered by the clock-owning shell, the key
/// served, the byte size of the body, and the operation name.
#[derive(Debug)]
pub struct SimpleMetrics {
    pub latency: String,
    pub key: String,
    pub size: u64,
    pub op: String,
}

/// Build the metric record for one straight-through read.
pub fn read_metrics(latency: String, key: String, size: u64) -> (m: SimpleMetrics)
    ensures
        m.latency == latency,
        m.key == key,
        m.size == size,
        m.op@ == "GET"@,
{
    SimpleMetrics { latency, key, size, op: String::from_str("GET") }
}

/// An unresolved reference routes to `NotFound`, so no physical-store
/// request is even formed for it.
pub proof fn lemma_unresolved_routes_not_found(pull_through: bool, local_tag: Seq<char>)
    ensures
        route_spec(None, pull_through, local_tag) is NotFound,
{
}

/// A copy already in the handling region is served straight through, whatever
/// the pull-through flag says: no replication job can arise from it.
pub proof fn lemma_local_copy_reads_direct(l: LocateObjectResponse, pull_through: bool)
    ensures
        route_spec(Some(l), pull_through, l.tag@) == (ReadRoute::Direct { locator: l }),
{
}

/// Pull-through is taken exactly when the request enables it and the copy
/// lies in another region.
pub proof fn lemma_pull_through_route(
    l: LocateObjectResponse,
    pull_through: bool,
    local_tag: Seq<char>,
)
    ensures
        route_spec(Some(l), pull_through, local_tag) is PullThrough <==> (pull_through && l.tag@
            != local_tag),
{
}

} // verus!
