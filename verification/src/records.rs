use vstd::prelude::*;

verus! {

/// A typed `(identity, counter)` result of one counter query.
#[derive(Clone, Copy, PartialEq, Eq, Structural, Debug)]
pub struct IdWithInt64Value {
    pub user_id: i64,
    pub value: i64,
}

/// A typed `(identity, text field)` result of one profile-field query.
#[derive(Debug)]
pub struct IdWithStringValue {
    pub user_id: i64,
    pub value: String,
}

/// A typed row of the base profile query.
#[derive(Debug)]
pub struct UserInfo {
    pub id: i64,
    pub username: String,
    pub avatar: String,
    pub background_img: String,
    pub signature: String,
}

/// The composite, multi-metric profile record the aggregation engine
/// assembles for one user identity. Counters start at zero and
/// `is_follow` starts false; each per-metric query fills its own field.
#[derive(Debug)]
pub struct FullUserInfo {
    pub id: i64,
    pub name: String,
    pub avatar: String,
    pub background_image: String,
    pub signature: String,
    pub favorite_count: i64,
    pub follow_count: i64,
    pub follower_count: i64,
    pub work_count: i64,
    pub total_favorited: i64,
    pub is_follow: bool,
}

/// The counter metrics a composite record carries, one per counter query
/// template. Indexing the template table by this enumeration (rather than
/// by raw array position) keeps the table and its consumers from drifting.
#[derive(Clone, Copy, PartialEq, Eq, Structural, Debug)]
pub enum Metric {
    Favorite,
    Follow,
    Follower,
    Work,
    TotalFavorited,
}

/// The counter field of a composite record that a metric owns.
pub open spec fn metric_of(c: FullUserInfo, m: Metric) -> i64 {
    match m {
        Metric::Favorite => c.favorite_count,
        Metric::Follow => c.follow_count,
        Metric::Follower => c.follower_count,
        Metric::Work => c.work_count,
        Metric::TotalFavorited => c.total_favorited,
    }
}

/// True when `a` and `b` agree on everything but the counter fields:
/// identity, the profile text fields, and the follow flag.
pub open spec fn same_identity_fields(a: FullUserInfo, b: FullUserInfo) -> bool {
    &&& a.id == b.id
    &&& a.name@ == b.name@
    &&& a.avatar@ == b.avatar@
    &&& a.background_image@ == b.background_image@
    &&& a.signature@ == b.signature@
}

/// Reads the counter field that `m` owns.
pub fn get_metric(c: &FullUserInfo, m: Metric) -> (v: i64)
    ensures
        v == metric_of(*c, m),
{
    match m {
        Metric::Favorite => c.favorite_count,
        Metric::Follow => c.follow_count,
        Metric::Follower => c.follower_count,
        Metric::Work => c.work_count,
        Metric::TotalFavorited => c.total_favorited,
    }
}

/// Writes the counter field that `m` owns, leaving every other field of
/// the composite record as it was.
pub fn set_metric(c: &mut FullUserInfo, m: Metric, v: i64)
    ensures
        same_identity_fields(*old(c), *final(c)),
        final(c).is_follow == old(c).is_follow,
        metric_of(*final(c), m) == v,
        forall|m2: Metric| m2 != m ==> metric_of(*final(c), m2) == metric_of(*old(c), m2),
{
    match m {
        Metric::Favorite => c.favorite_count = v,
        Metric::Follow => c.follow_count = v,
        Metric::Follower => c.follower_count = v,
        Metric::Work => c.work_count = v,
        Metric::TotalFavorited => c.total_favorited = v,
    }
}

/// The identities of a sequence of composite records, in order.
pub open spec fn composite_ids(cs: Seq<FullUserInfo>) -> Seq<i64> {
    cs.map_values(|c: FullUserInfo| c.id)
}

/// The identities of a sequence of base profile rows, in order.
pub open spec fn info_ids(infos: Seq<UserInfo>) -> Seq<i64> {
    infos.map_values(|u: UserInfo| u.id)
}

/// No identity occurs twice.
pub open spec fn ids_distinct(s: Seq<i64>) -> bool {
    forall|i: int, j: int| 0 <= i < j < s.len() ==> s[i] != s[j]
}

} // verus!
