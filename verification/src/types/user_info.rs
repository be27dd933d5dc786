//! The user's profile and tariff limits.

use vstd::prelude::*;
use crate::wire;

verus! {

/// What the broker knows about the user: premium and qualification status,
/// the instrument kinds they are qualified for, and their tariff.
#[derive(Debug, Clone)]
pub struct UserInfo(pub(crate) wire::GetInfoResponse);

/// A shorter name for the user's profile.
pub type Info = UserInfo;

impl UserInfo {
    pub fn is_premium(&self) -> (r: bool)
        ensures
            r == self@.prem_status,
    {
        self.0.prem_status
    }

    pub fn is_qualified(&self) -> (r: bool)
        ensures
            r == self@.qual_status,
    {
        self.0.qual_status
    }

    pub fn qualified_for_work_with(&self) -> (r: &[String])
        ensures
            r@ == self@.qualified_for_work_with@,
    {
        self.0.qualified_for_work_with.as_slice()
    }

    pub fn tariff(&self) -> (r: &str)
        ensures
            r@ == self@.tariff@,
    {
        self.0.tariff.as_str()
    }
}

impl From<wire::GetInfoResponse> for UserInfo {
    /// Wraps the wire response unchanged.
    fn from(r: wire::GetInfoResponse) -> (res: UserInfo)
        ensures
            res@ == r,
    {
        UserInfo(r)
    }
}

impl vstd::std_specs::convert::FromSpecImpl<wire::GetInfoResponse> for UserInfo {
    open spec fn obeys_from_spec() -> bool {
        true
    }

    closed spec fn from_spec(r: wire::GetInfoResponse) -> UserInfo {
        UserInfo(r)
    }
}

/// A per-minute limit on unary calls.
#[derive(Debug, Clone)]
pub struct UnaryLimit(pub(crate) wire::UnaryLimit);

impl UnaryLimit {
    /// How many unary calls a minute allows.
    pub fn limit_per_minute(&self) -> (r: i32)
        ensures
            r == self@.limit_per_minute,
    {
        self.0.limit_per_minute
    }

    /// The methods the limit covers.
    pub fn methods(&self) -> (r: &[String])
        ensures
            r@ == self@.methods@,
    {
        self.0.methods.as_slice()
    }
}

impl From<wire::UnaryLimit> for UnaryLimit {
    /// Wraps the wire message unchanged.
    fn from(inner: wire::UnaryLimit) -> (res: UnaryLimit)
        ensures
            res@ == inner,
    {
        UnaryLimit(inner)
    }
}

impl vstd::std_specs::convert::FromSpecImpl<wire::UnaryLimit> for UnaryLimit {
    open spec fn obeys_from_spec() -> bool {
        true
    }

    closed spec fn from_spec(inner: wire::UnaryLimit) -> UnaryLimit {
        UnaryLimit(inner)
    }
}

/// A limit on open streams.
#[derive(Debug, Clone)]
pub struct StreamLimit(pub(crate) wire::StreamLimit);

impl StreamLimit {
    /// How many streams may be open at once.
    pub fn limit(&self) -> (r: i32)
        ensures
            r == self@.limit,
    {
        self.0.limit
    }

    /// The stream methods the limit covers.
    pub fn streams(&self) -> (r: &[String])
        ensures
            r@ == self@.streams@,
    {
        self.0.streams.as_slice()
    }
}

impl From<wire::StreamLimit> for StreamLimit {
    /// Wraps the wire message unchanged.
    fn from(inner: wire::StreamLimit) -> (res: StreamLimit)
        ensures
            res@ == inner,
    {
        StreamLimit(inner)
    }
}

impl vstd::std_specs::convert::FromSpecImpl<wire::StreamLimit> for StreamLimit {
    open spec fn obeys_from_spec() -> bool {
        true
    }

    closed spec fn from_spec(inner: wire::StreamLimit) -> StreamLimit {
        StreamLimit(inner)
    }
}

/// The user's tariff: its unary-call limits and its stream limits.
#[derive(Debug, Clone)]
pub struct UserTariff {
    unary_limits: Vec<UnaryLimit>,
    stream_limits: Vec<StreamLimit>,
}

/// Wraps each wire unary limit, keeping order and contents.
fn convert_unary_limits(v: Vec<wire::UnaryLimit>) -> (r: Vec<UnaryLimit>)
    ensures
        r@.len() == v@.len(),
        forall|i: int| 0 <= i < v@.len() ==> r@[i].0 == v@[i],
{
    let ghost orig = v@;
    let mut r: Vec<UnaryLimit> = Vec::new();
    for x in it: v.into_iter()
        invariant
            it.seq() == orig,
            r@.len() == it.index(),
            forall|i: int| 0 <= i < r@.len() ==> r@[i].0 == it.seq()[i],
    {
        r.push(UnaryLimit(x));
    }
    r
}

/// Wraps each wire stream limit, keeping order and contents.
fn convert_stream_limits(v: Vec<wire::StreamLimit>) -> (r: Vec<StreamLimit>)
    ensures
        r@.len() == v@.len(),
        forall|i: int| 0 <= i < v@.len() ==> r@[i].0 == v@[i],
{
    let ghost orig = v@;
    let mut r: Vec<StreamLimit> = Vec::new();
    for x in it: v.into_iter()
        invariant
            it.seq() == orig,
            r@.len() == it.index(),
            forall|i: int| 0 <= i < r@.len() ==> r@[i].0 == it.seq()[i],
    {
        r.push(StreamLimit(x));
    }
    r
}

impl UserTariff {
    /// The tariff's unary-call limits.
    pub closed spec fn spec_unary_limits(&self) -> Seq<UnaryLimit> {
        self.unary_limits@
    }

    /// The tariff's stream limits.
    pub closed spec fn spec_stream_limits(&self) -> Seq<StreamLimit> {
        self.stream_limits@
    }

    /// The tariff's unary-call limits, in the order the wire sent them.
    pub fn unary_limits(&self) -> (r: &[UnaryLimit])
        ensures
            r@ == self.spec_unary_limits(),
    {
        self.unary_limits.as_slice()
    }

    /// The tariff's stream limits, in the order the wire sent them.
    pub fn stream_limits(&self) -> (r: &[StreamLimit])
        ensures
            r@ == self.spec_stream_limits(),
    {
        self.stream_limits.as_slice()
    }

    /// Reads the wire response, keeping every limit in order.
    pub fn from_response(response: wire::GetUserTariffResponse) -> (r: UserTariff)
        ensures
            r.spec_unary_limits().len() == response.unary_limits@.len(),
            forall|i: int|
                0 <= i < response.unary_limits@.len() ==> r.spec_unary_limits()[i]@
                    == response.unary_limits@[i],
            r.spec_stream_limits().len() == response.stream_limits@.len(),
            forall|i: int|
                0 <= i < response.stream_limits@.len() ==> r.spec_stream_limits()[i]@
                    == response.stream_limits@[i],
    {
        UserTariff {
            unary_limits: convert_unary_limits(response.unary_limits),
            stream_limits: convert_stream_limits(response.stream_limits),
        }
    }
}

impl View for UserInfo {
    type V = wire::GetInfoResponse;

    closed spec fn view(&self) -> wire::GetInfoResponse {
        self.0
    }
}

impl View for UnaryLimit {
    type V = wire::UnaryLimit;

    closed spec fn view(&self) -> wire::UnaryLimit {
        self.0
    }
}

impl View for StreamLimit {
    type V = wire::StreamLimit;

    closed spec fn view(&self) -> wire::StreamLimit {
        self.0
    }
}

} // verus!
