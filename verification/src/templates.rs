use vstd::prelude::*;

use crate::records::Metric;

verus! {

/// The profile text fields a caller can project one at a time.
#[derive(Clone, Copy, PartialEq, Eq, Structural, Debug)]
pub enum ProfileField {
    Username,
    Avatar,
    Signature,
    BackgroundImage,
}

/// The counter query template a metric owns. Every counter template binds
/// the identity set as the list parameter `$ids` and returns
/// `(identity, count)` rows, the shape `is_count_row` describes.
pub open spec fn spec_counter_query(m: Metric) -> Seq<char> {
    match m {
        Metric::Favorite => "MATCH (u:User) WHERE u.id IN $ids OPTIONAL MATCH (u)-[:FAVORITE]->(w:Work) RETURN u.id, count(w);"@,
        Metric::Follow => "MATCH (u:User) WHERE u.id IN $ids OPTIONAL MATCH (u)-[:FOLLOW]->(other:User) RETURN u.id, count(other);"@,
        Metric::Follower => "MATCH (u:User) WHERE u.id IN $ids OPTIONAL MATCH (u)<-[:FOLLOW]-(other:User) RETURN u.id, count(other);"@,
        Metric::Work => "MATCH (u:User) WHERE u.id IN $ids OPTIONAL MATCH (u)-[:CREATE]->(w:Work) RETURN u.id, count(w);"@,
        Metric::TotalFavorited => "MATCH (u:User) WHERE u.id IN $ids OPTIONAL MATCH (u)-[:CREATE]->(:Work)<-[:FAVORITE]-(other:User) RETURN u.id, count(other);"@,
    }
}

/// The counter query template for one metric, from the compile-time table.
pub fn counter_query(m: Metric) -> (q: &'static str)
    ensures
        q@ == spec_counter_query(m),
{
    match m {
        Metric::Favorite => "MATCH (u:User) WHERE u.id IN $ids OPTIONAL MATCH (u)-[:FAVORITE]->(w:Work) RETURN u.id, count(w);",
        Metric::Follow => "MATCH (u:User) WHERE u.id IN $ids OPTIONAL MATCH (u)-[:FOLLOW]->(other:User) RETURN u.id, count(other);",
        Metric::Follower => "MATCH (u:User) WHERE u.id IN $ids OPTIONAL MATCH (u)<-[:FOLLOW]-(other:User) RETURN u.id, count(other);",
        Metric::Work => "MATCH (u:User) WHERE u.id IN $ids OPTIONAL MATCH (u)-[:CREATE]->(w:Work) RETURN u.id, count(w);",
        Metric::TotalFavorited => "MATCH (u:User) WHERE u.id IN $ids OPTIONAL MATCH (u)-[:CREATE]->(:Work)<-[:FAVORITE]-(other:User) RETURN u.id, count(other);",
    }
}

/// The profile-field query template for one field; identity first, the
/// field second, the shape `is_text_row` describes.
pub open spec fn spec_field_query(f: ProfileField) -> Seq<char> {
    match f {
        ProfileField::Username => "MATCH (u:User) WHERE u.id IN $ids RETURN u.id, u.username;"@,
        ProfileField::Avatar => "MATCH (u:User) WHERE u.id IN $ids RETURN u.id, u.avatar;"@,
        ProfileField::Signature => "MATCH (u:User) WHERE u.id IN $ids RETURN u.id, u.signature;"@,
        ProfileField::BackgroundImage => "MATCH (u:User) WHERE u.id IN $ids RETURN u.id, u.background_image;"@,
    }
}

/// The profile-field query template for one field, from the compile-time
/// table.
pub fn field_query(f: ProfileField) -> (q: &'static str)
    ensures
        q@ == spec_field_query(f),
{
    match f {
        ProfileField::Username => "MATCH (u:User) WHERE u.id IN $ids RETURN u.id, u.username;",
        ProfileField::Avatar => "MATCH (u:User) WHERE u.id IN $ids RETURN u.id, u.avatar;",
        ProfileField::Signature => "MATCH (u:User) WHERE u.id IN $ids RETURN u.id, u.signature;",
        ProfileField::BackgroundImage => "MATCH (u:User) WHERE u.id IN $ids RETURN u.id, u.background_image;",
    }
}

/// The base profile query template: identity and the four profile text
/// fields, the shape `is_profile_row` describes.
pub fn profile_query() -> (q: &'static str)
    ensures
        q@ == "MATCH (u:User) WHERE u.id IN $ids RETURN u.id, u.username, u.avatar, u.background_image, u.signature;"@,
{
    "MATCH (u:User) WHERE u.id IN $ids RETURN u.id, u.username, u.avatar, u.background_image, u.signature;"
}

/// The follow-check query template: which of the identities in `$ids` the
/// user `$id` follows; one identity per row, the shape `is_follow_row`
/// describes.
pub fn follow_query() -> (q: &'static str)
    ensures
        q@ == "MATCH (:User {id: $id})-[:FOLLOW]->(o:User) WHERE o.id IN $ids RETURN o.id;"@,
{
    "MATCH (:User {id: $id})-[:FOLLOW]->(o:User) WHERE o.id IN $ids RETURN o.id;"
}

/// The name every bulk template binds the identity set under.
pub fn ids_param() -> (p: &'static str)
    ensures
        p@ == "ids"@,
{
    "ids"
}

/// The name the follow-check template binds the asking identity under.
pub fn self_param() -> (p: &'static str)
    ensures
        p@ == "id"@,
{
    "id"
}

} // verus!
