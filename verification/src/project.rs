use vstd::prelude::*;

use crate::outcome::ServiceError;
use crate::records::{IdWithInt64Value, IdWithStringValue, UserInfo};
use crate::value::{as_int, as_text, Record, Value};

verus! {

/// Shape of a row from a counter template: `(identity, count)`.
pub open spec fn is_count_row(r: Record) -> bool {
    &&& r.fields@.len() == 2
    &&& r.fields@[0] is Integer
    &&& r.fields@[1] is Integer
}

/// Shape of a row from a profile-field template: `(identity, text)`.
pub open spec fn is_text_row(r: Record) -> bool {
    &&& r.fields@.len() == 2
    &&& r.fields@[0] is Integer
    &&& r.fields@[1] is Text
}

/// Shape of a row from the base profile template:
/// `(identity, username, avatar, background image, signature)`.
pub open spec fn is_profile_row(r: Record) -> bool {
    &&& r.fields@.len() == 5
    &&& r.fields@[0] is Integer
    &&& r.fields@[1] is Text
    &&& r.fields@[2] is Text
    &&& r.fields@[3] is Text
    &&& r.fields@[4] is Text
}

/// Shape of a row from the follow-check template: `(identity,)`.
pub open spec fn is_follow_row(r: Record) -> bool {
    &&& r.fields@.len() == 1
    &&& r.fields@[0] is Integer
}

/// The identity column every supported template returns first.
pub open spec fn row_id(r: Record) -> i64 {
    as_int(r.fields@[0])
}

/// The typed form of a well-shaped counter row.
pub open spec fn count_of_row(r: Record) -> IdWithInt64Value {
    IdWithInt64Value { user_id: row_id(r), value: as_int(r.fields@[1]) }
}

/// The typed forms of a sequence of well-shaped counter rows, in order.
pub open spec fn decoded_counts(rows: Seq<Record>) -> Seq<IdWithInt64Value> {
    rows.map_values(|r: Record| count_of_row(r))
}

/// The identity columns of a sequence of rows, in order.
pub open spec fn row_ids(rows: Seq<Record>) -> Seq<i64> {
    rows.map_values(|r: Record| row_id(r))
}

pub open spec fn all_count_rows(rows: Seq<Record>) -> bool {
    forall|k: int| 0 <= k < rows.len() ==> is_count_row(#[trigger] rows[k])
}

pub open spec fn all_text_rows(rows: Seq<Record>) -> bool {
    forall|k: int| 0 <= k < rows.len() ==> is_text_row(#[trigger] rows[k])
}

pub open spec fn all_profile_rows(rows: Seq<Record>) -> bool {
    forall|k: int| 0 <= k < rows.len() ==> is_profile_row(#[trigger] rows[k])
}

pub open spec fn all_follow_rows(rows: Seq<Record>) -> bool {
    forall|k: int| 0 <= k < rows.len() ==> is_follow_row(#[trigger] rows[k])
}

/// Projects one counter row by fixed position: identity first, count
/// second. A row of any other shape is a template/projection contract
/// break and is rejected rather than coerced.
pub fn project_count_row(r: &Record) -> (out: Result<IdWithInt64Value, ServiceError>)
    ensures
        match out {
            Ok(v) => is_count_row(*r) && v == count_of_row(*r),
            Err(e) => e == ServiceError::ProjectionMismatch && !is_count_row(*r),
        },
{
    if r.fields.len() == 2 {
        match (&r.fields[0], &r.fields[1]) {
            (Value::Integer(id), Value::Integer(v)) => Ok(
                IdWithInt64Value { user_id: *id, value: *v },
            ),
            _ => Err(ServiceError::ProjectionMismatch),
        }
    } else {
        Err(ServiceError::ProjectionMismatch)
    }
}

/// Projects one profile-field row by fixed position: identity first, the
/// requested text field second.
pub fn project_text_row(r: &Record) -> (out: Result<IdWithStringValue, ServiceError>)
    ensures
        match out {
            Ok(v) => is_text_row(*r) && v.user_id == row_id(*r) && v.value@ == as_text(
                r.fields@[1],
            ),
            Err(e) => e == ServiceError::ProjectionMismatch && !is_text_row(*r),
        },
{
    if r.fields.len() == 2 {
        match (&r.fields[0], &r.fields[1]) {
            (Value::Integer(id), Value::Text(s)) => Ok(
                IdWithStringValue { user_id: *id, value: s.clone() },
            ),
            _ => Err(ServiceError::ProjectionMismatch),
        }
    } else {
        Err(ServiceError::ProjectionMismatch)
    }
}

/// Projects one base profile row by fixed position: identity, username,
/// avatar, background image, signature.
pub fn project_profile_row(r: &Record) -> (out: Result<UserInfo, ServiceError>)
    ensures
        match out {
            Ok(u) => is_profile_row(*r) && u.id == row_id(*r) && u.username@ == as_text(
                r.fields@[1],
            ) && u.avatar@ == as_text(r.fields@[2]) && u.background_img@ == as_text(r.fields@[3])
                && u.signature@ == as_text(r.fields@[4]),
            Err(e) => e == ServiceError::ProjectionMismatch && !is_profile_row(*r),
        },
{
    if r.fields.len() == 5 {
        match (&r.fields[0], &r.fields[1], &r.fields[2], &r.fields[3], &r.fields[4]) {
            (
                Value::Integer(id),
                Value::Text(username),
                Value::Text(avatar),
                Value::Text(background_img),
                Value::Text(signature),
            ) => Ok(
                UserInfo {
                    id: *id,
                    username: username.clone(),
                    avatar: avatar.clone(),
                    background_img: background_img.clone(),
                    signature: signature.clone(),
                },
            ),
            _ => Err(ServiceError::ProjectionMismatch),
        }
    } else {
        Err(ServiceError::ProjectionMismatch)
    }
}

/// Projects one follow-check row: the single column is the followed
/// identity.
pub fn project_follow_row(r: &Record) -> (out: Result<i64, ServiceError>)
    ensures
        match out {
            Ok(id) => is_follow_row(*r) && id == row_id(*r),
            Err(e) => e == ServiceError::ProjectionMismatch && !is_follow_row(*r),
        },
{
    if r.fields.len() == 1 {
        match &r.fields[0] {
            Value::Integer(id) => Ok(*id),
            _ => Err(ServiceError::ProjectionMismatch),
        }
    } else {
        Err(ServiceError::ProjectionMismatch)
    }
}

/// Projects every row of a counter query result, in order; one ill-shaped
/// row fails the whole result.
pub fn decode_count_rows(rows: &Vec<Record>) -> (out: Result<
    Vec<IdWithInt64Value>,
    ServiceError,
>)
    ensures
        match out {
            Ok(vs) => all_count_rows(rows@) && vs@ == decoded_counts(rows@),
            Err(e) => e == ServiceError::ProjectionMismatch && !all_count_rows(rows@),
        },
{
    let mut vs: Vec<IdWithInt64Value> = Vec::new();
    let mut k: usize = 0;
    while k < rows.len()
        invariant
            0 <= k <= rows@.len(),
            vs@.len() == k,
            forall|i: int| 0 <= i < k ==> is_count_row(#[trigger] rows@[i]),
            forall|i: int| 0 <= i < k ==> vs@[i] == count_of_row(rows@[i]),
        decreases rows@.len() - k,
    {
        match project_count_row(&rows[k]) {
            Ok(v) => vs.push(v),
            Err(e) => {
                return Err(e);
            },
        }
        k = k + 1;
    }
    assert(vs@ =~= decoded_counts(rows@));
    Ok(vs)
}

/// Projects every row of a profile-field query result, in order.
pub fn decode_text_rows(rows: &Vec<Record>) -> (out: Result<Vec<IdWithStringValue>, ServiceError>)
    ensures
        match out {
            Ok(vs) => all_text_rows(rows@) && vs@.len() == rows@.len() && forall|i: int|
                0 <= i < rows@.len() ==> (#[trigger] vs@[i]).user_id == row_id(rows@[i])
                    && vs@[i].value@ == as_text(rows@[i].fields@[1]),
            Err(e) => e == ServiceError::ProjectionMismatch && !all_text_rows(rows@),
        },
{
    let mut vs: Vec<IdWithStringValue> = Vec::new();
    let mut k: usize = 0;
    while k < rows.len()
        invariant
            0 <= k <= rows@.len(),
            vs@.len() == k,
            forall|i: int| 0 <= i < k ==> is_text_row(#[trigger] rows@[i]),
            forall|i: int|
                0 <= i < k ==> (#[trigger] vs@[i]).user_id == row_id(rows@[i]) && vs@[i].value@
                    == as_text(rows@[i].fields@[1]),
        decreases rows@.len() - k,
    {
        match project_text_row(&rows[k]) {
            Ok(v) => vs.push(v),
            Err(e) => {
                return Err(e);
            },
        }
        k = k + 1;
    }
    Ok(vs)
}

/// Projects every row of the base profile query result, in order.
pub fn decode_profile_rows(rows: &Vec<Record>) -> (out: Result<Vec<UserInfo>, ServiceError>)
    ensures
        match out {
            Ok(us) => all_profile_rows(rows@) && us@.len() == rows@.len() && forall|i: int|
                0 <= i < rows@.len() ==> (#[trigger] us@[i]).id == row_id(rows@[i])
                    && us@[i].username@ == as_text(rows@[i].fields@[1]) && us@[i].avatar@
                    == as_text(rows@[i].fields@[2]) && us@[i].background_img@ == as_text(
                    rows@[i].fields@[3],
                ) && us@[i].signature@ == as_text(rows@[i].fields@[4]),
            Err(e) => e == ServiceError::ProjectionMismatch && !all_profile_rows(rows@),
        },
{
    let mut us: Vec<UserInfo> = Vec::new();
    let mut k: usize = 0;
    while k < rows.len()
        invariant
            0 <= k <= rows@.len(),
            us@.len() == k,
            forall|i: int| 0 <= i < k ==> is_profile_row(#[trigger] rows@[i]),
            forall|i: int|
                0 <= i < k ==> (#[trigger] us@[i]).id == row_id(rows@[i]) && us@[i].username@
                    == as_text(rows@[i].fields@[1]) && us@[i].avatar@ == as_text(
                    rows@[i].fields@[2],
                ) && us@[i].background_img@ == as_text(rows@[i].fields@[3]) && us@[i].signature@
                    == as_text(rows@[i].fields@[4]),
        decreases rows@.len() - k,
    {
        match project_profile_row(&rows[k]) {
            Ok(u) => us.push(u),
            Err(e) => {
                return Err(e);
            },
        }
        k = k + 1;
    }
    Ok(us)
}

/// Projects every row of the follow-check query result, in order.
pub fn decode_follow_rows(rows: &Vec<Record>) -> (out: Result<Vec<i64>, ServiceError>)
    ensures
        match out {
            Ok(ids) => all_follow_rows(rows@) && ids@ == row_ids(rows@),
            Err(e) => e == ServiceError::ProjectionMismatch && !all_follow_rows(rows@),
        },
{
    let mut ids: Vec<i64> = Vec::new();
    let mut k: usize = 0;
    while k < rows.len()
        invariant
            0 <= k <= rows@.len(),
            ids@.len() == k,
            forall|i: int| 0 <= i < k ==> is_follow_row(#[trigger] rows@[i]),
            forall|i: int| 0 <= i < k ==> ids@[i] == row_id(rows@[i]),
        decreases rows@.len() - k,
    {
        match project_follow_row(&rows[k]) {
            Ok(id) => ids.push(id),
            Err(e) => {
                return Err(e);
            },
        }
        k = k + 1;
    }
    assert(ids@ =~= row_ids(rows@));
    Ok(ids)
}

} // verus!
