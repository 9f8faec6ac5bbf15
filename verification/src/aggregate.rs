use vstd::prelude::*;

use crate::outcome::ServiceError;
use crate::project::{
    all_count_rows, all_follow_rows, all_profile_rows, count_of_row, decode_count_rows,
    decode_follow_rows, decode_profile_rows, decoded_counts, row_id, row_ids,
};
use crate::records::{
    composite_ids, get_metric, ids_distinct, info_ids, metric_of, same_identity_fields, set_metric,
    FullUserInfo, IdWithInt64Value, Metric, UserInfo,
};
use crate::value::{as_text, Record};

verus! {

/// Every identity in `xs` occurs in `within`.
pub open spec fn all_in(xs: Seq<i64>, within: Seq<i64>) -> bool {
    forall|k: int| 0 <= k < xs.len() ==> within.contains(#[trigger] xs[k])
}

/// The identities of typed counter results, in order.
pub open spec fn count_ids(rows: Seq<IdWithInt64Value>) -> Seq<i64> {
    rows.map_values(|r: IdWithInt64Value| r.user_id)
}

/// Whether `v` holds `x`.
pub fn contains_id(v: &Vec<i64>, x: i64) -> (b: bool)
    ensures
        b == v@.contains(x),
{
    let mut k: usize = 0;
    while k < v.len()
        invariant
            0 <= k <= v@.len(),
            forall|i: int| 0 <= i < k ==> v@[i] != x,
        decreases v@.len() - k,
    {
        if v[k] == x {
            return true;
        }
        k = k + 1;
    }
    false
}

/// The value the counter rows assign to `id`: the last row for `id` wins,
/// as later rows of one result stream overwrite earlier ones; `dflt` when
/// no row mentions `id`.
pub open spec fn counter_value(rows: Seq<IdWithInt64Value>, id: i64, dflt: i64) -> i64
    decreases rows.len(),
{
    if rows.len() == 0 {
        dflt
    } else if rows.last().user_id == id {
        rows.last().value
    } else {
        counter_value(rows.drop_last(), id, dflt)
    }
}

/// Law: an identity that no counter row mentions keeps its default, so a
/// composite record seeded with zero counters reports zero (never an
/// absent or null field) for a metric whose query returned no row for it.
pub proof fn lemma_absent_counter_keeps_default(rows: Seq<IdWithInt64Value>, id: i64, dflt: i64)
    requires
        forall|k: int| 0 <= k < rows.len() ==> (#[trigger] rows[k]).user_id != id,
    ensures
        counter_value(rows, id, dflt) == dflt,
    decreases rows.len(),
{
    if rows.len() > 0 {
        lemma_absent_counter_keeps_default(rows.drop_last(), id, dflt);
    }
}

/// Law: a counter query that returns no row for an identity leaves that
/// identity's counter at the zero it was seeded with — the field is never
/// absent and never null, it is zero.
pub proof fn lemma_counter_defaults_to_zero(rows: Seq<Record>, id: i64)
    requires
        forall|k: int| 0 <= k < rows.len() ==> row_id(#[trigger] rows[k]) != id,
    ensures
        counter_value(decoded_counts(rows), id, 0) == 0,
{
    assert forall|k: int| 0 <= k < decoded_counts(rows).len() implies (#[trigger] decoded_counts(
        rows,
    )[k]).user_id != id by {
        assert(decoded_counts(rows)[k] == count_of_row(rows[k]));
    }
    lemma_absent_counter_keeps_default(decoded_counts(rows), id, 0);
}

/// The counter value for `id` under the `last row wins` rule, computed by
/// a forward scan.
pub fn counter_for(rows: &Vec<IdWithInt64Value>, id: i64, dflt: i64) -> (v: i64)
    ensures
        v == counter_value(rows@, id, dflt),
{
    let mut v: i64 = dflt;
    let mut k: usize = 0;
    while k < rows.len()
        invariant
            0 <= k <= rows@.len(),
            v == counter_value(rows@.take(k as int), id, dflt),
        decreases rows@.len() - k,
    {
        proof {
            assert(rows@.take(k + 1).drop_last() =~= rows@.take(k as int));
            assert(rows@.take(k + 1).last() == rows@[k as int]);
        }
        if rows[k].user_id == id {
            v = rows[k].value;
        }
        k = k + 1;
    }
    proof {
        assert(rows@.take(rows@.len() as int) =~= rows@);
    }
    v
}

/// True when `c` is the composite record freshly seeded from the base
/// profile row `u`: identity fields copied, every counter zero, the
/// follow flag down.
pub open spec fn seeded_from(c: FullUserInfo, u: UserInfo) -> bool {
    &&& c.id == u.id
    &&& c.name@ == u.username@
    &&& c.avatar@ == u.avatar@
    &&& c.background_image@ == u.background_img@
    &&& c.signature@ == u.signature@
    &&& c.favorite_count == 0
    &&& c.follow_count == 0
    &&& c.follower_count == 0
    &&& c.work_count == 0
    &&& c.total_favorited == 0
    &&& !c.is_follow
}

/// Builds one composite record per base profile row, in order, seeded
/// with the identity fields and zero-valued counters. Every identity of
/// the base result gets its record here, before any counter result is
/// merged.
pub fn seed_composites(infos: Vec<UserInfo>) -> (cs: Vec<FullUserInfo>)
    ensures
        cs@.len() == infos@.len(),
        forall|i: int| 0 <= i < infos@.len() ==> seeded_from(#[trigger] cs@[i], infos@[i]),
{
    let ghost infos0 = infos@;
    let mut rest = infos;
    let mut cs: Vec<FullUserInfo> = Vec::new();
    while rest.len() > 0
        invariant
            cs@.len() + rest@.len() == infos0.len(),
            rest@ == infos0.skip(cs@.len() as int),
            forall|i: int| 0 <= i < cs@.len() ==> seeded_from(#[trigger] cs@[i], infos0[i]),
        decreases rest@.len(),
    {
        let ghost n = cs@.len() as int;
        let u = rest.remove(0);
        proof {
            assert(u == infos0[n]);
            assert(infos0.skip(n).remove(0) =~= infos0.skip(n + 1));
        }
        cs.push(
            FullUserInfo {
                id: u.id,
                name: u.username,
                avatar: u.avatar,
                background_image: u.background_img,
                signature: u.signature,
                favorite_count: 0,
                follow_count: 0,
                follower_count: 0,
                work_count: 0,
                total_favorited: 0,
                is_follow: false,
            },
        );
    }
    cs
}

/// Validity of a base profile result against the requested identity set:
/// every returned identity was requested, and none occurs twice.
pub open spec fn base_result_valid(ids: Seq<i64>, rows: Seq<Record>) -> bool {
    &&& ids_distinct(row_ids(rows))
    &&& all_in(row_ids(rows), ids)
}

/// Bulk profile lookup over the raw rows the base profile query returned
/// for the identity set `ids`: projects each row and checks the result
/// against the request. On success it returns at most one record per
/// requested identity, and every returned identity is drawn from `ids`;
/// a duplicate or unrequested identity is a store-consistency fault, not
/// something to drop silently.
pub fn profile_lookup(ids: &Vec<i64>, rows: &Vec<Record>) -> (out: Result<
    Vec<UserInfo>,
    ServiceError,
>)
    ensures
        match out {
            Ok(us) => {
                &&& all_profile_rows(rows@)
                &&& base_result_valid(ids@, rows@)
                &&& us@.len() == rows@.len()
                &&& forall|i: int|
                    0 <= i < rows@.len() ==> (#[trigger] us@[i]).id == row_id(rows@[i])
                        && us@[i].username@ == as_text(rows@[i].fields@[1]) && us@[i].avatar@
                        == as_text(rows@[i].fields@[2]) && us@[i].background_img@ == as_text(
                        rows@[i].fields@[3],
                    ) && us@[i].signature@ == as_text(rows@[i].fields@[4])
                &&& ids_distinct(info_ids(us@))
                &&& all_in(info_ids(us@), ids@)
            },
            Err(e) => {
                &&& !(all_profile_rows(rows@) && base_result_valid(ids@, rows@))
                &&& e == (if !all_profile_rows(rows@) {
                    ServiceError::ProjectionMismatch
                } else {
                    ServiceError::Inconsistent
                })
            },
        },
{
    let us = match decode_profile_rows(rows) {
        Ok(us) => us,
        Err(e) => {
            return Err(e);
        },
    };
    let mut seen: Vec<i64> = Vec::new();
    let mut k: usize = 0;
    while k < us.len()
        invariant
            0 <= k <= us@.len(),
            us@.len() == rows@.len(),
            all_profile_rows(rows@),
            forall|i: int| 0 <= i < rows@.len() ==> (#[trigger] us@[i]).id == row_id(rows@[i]),
            seen@.len() == k,
            forall|i: int| 0 <= i < k ==> seen@[i] == us@[i].id,
            forall|i: int, j: int| 0 <= i < j < k ==> us@[i].id != us@[j].id,
            forall|i: int| 0 <= i < k ==> ids@.contains((#[trigger] us@[i]).id),
        decreases us@.len() - k,
    {
        let id = us[k].id;
        if contains_id(&seen, id) {
            proof {
                let i = choose|i: int| 0 <= i < seen@.len() && seen@[i] == id;
                assert(row_ids(rows@)[i] == us@[i].id);
                assert(row_ids(rows@)[k as int] == us@[k as int].id);
                assert(!ids_distinct(row_ids(rows@)));
            }
            return Err(ServiceError::Inconsistent);
        }
        if !contains_id(ids, id) {
            proof {
                assert(row_ids(rows@)[k as int] == id);
                assert(!all_in(row_ids(rows@), ids@));
            }
            return Err(ServiceError::Inconsistent);
        }
        proof {
            assert forall|i: int| 0 <= i < k implies us@[i].id != id by {
                if us@[i].id == id {
                    assert(seen@[i] == id);
                    assert(seen@.contains(id));
                }
            }
        }
        seen.push(id);
        k = k + 1;
    }
    proof {
        assert forall|i: int, j: int|
            0 <= i < j < row_ids(rows@).len() implies row_ids(rows@)[i] != row_ids(
            rows@,
        )[j] by {
            assert(row_ids(rows@)[i] == us@[i].id);
            assert(row_ids(rows@)[j] == us@[j].id);
        }
        assert forall|i: int| 0 <= i < row_ids(rows@).len() implies ids@.contains(
            #[trigger] row_ids(rows@)[i],
        ) by {
            assert(row_ids(rows@)[i] == us@[i].id);
        }
        assert forall|i: int, j: int|
            0 <= i < j < info_ids(us@).len() implies info_ids(us@)[i] != info_ids(us@)[j] by {
            assert(info_ids(us@)[i] == us@[i].id);
            assert(info_ids(us@)[j] == us@[j].id);
        }
        assert forall|i: int| 0 <= i < info_ids(us@).len() implies ids@.contains(
            #[trigger] info_ids(us@)[i],
        ) by {
            assert(info_ids(us@)[i] == us@[i].id);
        }
    }
    Ok(us)
}

/// One merged composite: `c2` is `c` with the counter field of `m` set to
/// what `rows` assign its identity, everything else untouched.
pub open spec fn merged_counter_rec(
    c: FullUserInfo,
    c2: FullUserInfo,
    m: Metric,
    rows: Seq<IdWithInt64Value>,
) -> bool {
    &&& same_identity_fields(c, c2)
    &&& c2.is_follow == c.is_follow
    &&& metric_of(c2, m) == counter_value(rows, c.id, metric_of(c, m))
    &&& forall|m2: Metric| m2 != m ==> metric_of(c2, m2) == metric_of(c, m2)
}

/// The identities of the composite records, as an owned vector.
fn collect_composite_ids(cs: &Vec<FullUserInfo>) -> (have: Vec<i64>)
    ensures
        have@ == composite_ids(cs@),
{
    let mut have: Vec<i64> = Vec::new();
    let mut j: usize = 0;
    while j < cs.len()
        invariant
            0 <= j <= cs@.len(),
            have@.len() == j,
            forall|i: int| 0 <= i < j ==> have@[i] == cs@[i].id,
        decreases cs@.len() - j,
    {
        have.push(cs[j].id);
        j = j + 1;
    }
    proof {
        assert(have@ =~= composite_ids(cs@));
    }
    have
}

/// Merges one counter query's typed results into the composite records:
/// each composite gets the counter field of `m` set to the value its
/// identity was assigned, or keeps its current value when no row mentions
/// it. A row whose identity has no composite record is a data-consistency
/// fault between the store and the base result: the whole merge fails
/// rather than dropping the value silently.
pub fn merge_counter(cs: Vec<FullUserInfo>, rows: &Vec<IdWithInt64Value>, m: Metric) -> (out:
    Result<Vec<FullUserInfo>, ServiceError>)
    ensures
        match out {
            Ok(cs2) => {
                &&& all_in(count_ids(rows@), composite_ids(cs@))
                &&& cs2@.len() == cs@.len()
                &&& forall|i: int|
                    0 <= i < cs@.len() ==> merged_counter_rec(cs@[i], #[trigger] cs2@[i], m, rows@)
            },
            Err(e) => {
                &&& e == ServiceError::Inconsistent
                &&& !all_in(count_ids(rows@), composite_ids(cs@))
            },
        },
{
    let have = collect_composite_ids(&cs);
    let mut k: usize = 0;
    while k < rows.len()
        invariant
            0 <= k <= rows@.len(),
            have@ == composite_ids(cs@),
            forall|i: int| 0 <= i < k ==> composite_ids(cs@).contains(
                (#[trigger] rows@[i]).user_id,
            ),
        decreases rows@.len() - k,
    {
        if !contains_id(&have, rows[k].user_id) {
            proof {
                assert(count_ids(rows@)[k as int] == rows@[k as int].user_id);
                assert(!all_in(count_ids(rows@), composite_ids(cs@)));
            }
            return Err(ServiceError::Inconsistent);
        }
        k = k + 1;
    }
    proof {
        assert forall|i: int| 0 <= i < count_ids(rows@).len() implies composite_ids(cs@).contains(
            #[trigger] count_ids(rows@)[i],
        ) by {
            assert(count_ids(rows@)[i] == rows@[i].user_id);
        }
    }
    let ghost cs0 = cs@;
    let mut rest = cs;
    let mut out: Vec<FullUserInfo> = Vec::new();
    while rest.len() > 0
        invariant
            out@.len() + rest@.len() == cs0.len(),
            rest@ == cs0.skip(out@.len() as int),
            forall|i: int|
                0 <= i < out@.len() ==> merged_counter_rec(cs0[i], #[trigger] out@[i], m, rows@),
        decreases rest@.len(),
    {
        let ghost n = out@.len() as int;
        let mut c = rest.remove(0);
        proof {
            assert(c == cs0[n]);
            assert(cs0.skip(n).remove(0) =~= cs0.skip(n + 1));
        }
        let dflt = get_metric(&c, m);
        let v = counter_for(rows, c.id, dflt);
        set_metric(&mut c, m, v);
        out.push(c);
    }
    proof {
        assert(all_in(count_ids(rows@), composite_ids(cs0)));
    }
    Ok(out)
}

/// One follow-merged composite: `c2` is `c` with the follow flag raised
/// exactly when the follow-check result mentions its identity, everything
/// else untouched.
pub open spec fn followed_rec(c: FullUserInfo, c2: FullUserInfo, fids: Seq<i64>) -> bool {
    &&& same_identity_fields(c, c2)
    &&& forall|m2: Metric| metric_of(c2, m2) == metric_of(c, m2)
    &&& c2.is_follow == (c.is_follow || fids.contains(c.id))
}

/// Merges the follow-check result into the composite records: the follow
/// flag is raised for every identity the result mentions. As with the
/// counter merges, an identity with no composite record fails the whole
/// merge as a data-consistency fault.
pub fn merge_follows(cs: Vec<FullUserInfo>, fids: &Vec<i64>) -> (out: Result<
    Vec<FullUserInfo>,
    ServiceError,
>)
    ensures
        match out {
            Ok(cs2) => {
                &&& all_in(fids@, composite_ids(cs@))
                &&& cs2@.len() == cs@.len()
                &&& forall|i: int|
                    0 <= i < cs@.len() ==> followed_rec(cs@[i], #[trigger] cs2@[i], fids@)
            },
            Err(e) => {
                &&& e == ServiceError::Inconsistent
                &&& !all_in(fids@, composite_ids(cs@))
            },
        },
{
    let have = collect_composite_ids(&cs);
    let mut k: usize = 0;
    while k < fids.len()
        invariant
            0 <= k <= fids@.len(),
            have@ == composite_ids(cs@),
            forall|i: int| 0 <= i < k ==> composite_ids(cs@).contains(#[trigger] fids@[i]),
        decreases fids@.len() - k,
    {
        if !contains_id(&have, fids[k]) {
            return Err(ServiceError::Inconsistent);
        }
        k = k + 1;
    }
    let ghost cs0 = cs@;
    let mut rest = cs;
    let mut out: Vec<FullUserInfo> = Vec::new();
    while rest.len() > 0
        invariant
            out@.len() + rest@.len() == cs0.len(),
            rest@ == cs0.skip(out@.len() as int),
            forall|i: int| 0 <= i < out@.len() ==> followed_rec(cs0[i], #[trigger] out@[i], fids@),
        decreases rest@.len(),
    {
        let ghost n = out@.len() as int;
        let mut c = rest.remove(0);
        proof {
            assert(c == cs0[n]);
            assert(cs0.skip(n).remove(0) =~= cs0.skip(n + 1));
        }
        if contains_id(fids, c.id) {
            c.is_follow = true;
        }
        out.push(c);
    }
    Ok(out)
}

/// Every raw row of the full-profile aggregation has the shape its
/// template promises.
pub open spec fn full_shapes_ok(
    base: Seq<Record>,
    favorite: Seq<Record>,
    follow: Seq<Record>,
    follower: Seq<Record>,
    work: Seq<Record>,
    total_favorited: Seq<Record>,
    follow_check: Seq<Record>,
) -> bool {
    &&& all_profile_rows(base)
    &&& all_count_rows(favorite)
    &&& all_count_rows(follow)
    &&& all_count_rows(follower)
    &&& all_count_rows(work)
    &&& all_count_rows(total_favorited)
    &&& all_follow_rows(follow_check)
}

/// The queries of one full-profile aggregation agree: the base result is
/// valid for the requested identity set, and every identity a counter or
/// follow-check row mentions has a base row.
pub open spec fn full_consistent(
    ids: Seq<i64>,
    base: Seq<Record>,
    favorite: Seq<Record>,
    follow: Seq<Record>,
    follower: Seq<Record>,
    work: Seq<Record>,
    total_favorited: Seq<Record>,
    follow_check: Seq<Record>,
) -> bool {
    &&& base_result_valid(ids, base)
    &&& all_in(row_ids(favorite), row_ids(base))
    &&& all_in(row_ids(follow), row_ids(base))
    &&& all_in(row_ids(follower), row_ids(base))
    &&& all_in(row_ids(work), row_ids(base))
    &&& all_in(row_ids(total_favorited), row_ids(base))
    &&& all_in(row_ids(follow_check), row_ids(base))
}

/// What one finished composite record owes to the raw query results: the
/// identity fields of its base row, each counter as the `last row wins`
/// value of its query (zero when no row mentions the identity), and the
/// follow flag exactly when the follow-check result mentions it.
pub open spec fn composite_complete(
    c: FullUserInfo,
    b: Record,
    favorite: Seq<Record>,
    follow: Seq<Record>,
    follower: Seq<Record>,
    work: Seq<Record>,
    total_favorited: Seq<Record>,
    follow_check: Seq<Record>,
) -> bool {
    &&& c.id == row_id(b)
    &&& c.name@ == as_text(b.fields@[1])
    &&& c.avatar@ == as_text(b.fields@[2])
    &&& c.background_image@ == as_text(b.fields@[3])
    &&& c.signature@ == as_text(b.fields@[4])
    &&& c.favorite_count == counter_value(decoded_counts(favorite), c.id, 0)
    &&& c.follow_count == counter_value(decoded_counts(follow), c.id, 0)
    &&& c.follower_count == counter_value(decoded_counts(follower), c.id, 0)
    &&& c.work_count == counter_value(decoded_counts(work), c.id, 0)
    &&& c.total_favorited == counter_value(decoded_counts(total_favorited), c.id, 0)
    &&& c.is_follow == row_ids(follow_check).contains(c.id)
}

/// Law (aggregation invariant): in a finished composite record, a counter
/// whose query returned no row for the record's identity is exactly the
/// zero it was seeded with — never absent and never null.
pub proof fn lemma_unmentioned_counters_stay_zero(
    c: FullUserInfo,
    b: Record,
    favorite: Seq<Record>,
    follow: Seq<Record>,
    follower: Seq<Record>,
    work: Seq<Record>,
    total_favorited: Seq<Record>,
    follow_check: Seq<Record>,
)
    requires
        composite_complete(c, b, favorite, follow, follower, work, total_favorited, follow_check),
    ensures
        (forall|k: int| 0 <= k < favorite.len() ==> row_id(#[trigger] favorite[k]) != c.id)
            ==> c.favorite_count == 0,
        (forall|k: int| 0 <= k < follow.len() ==> row_id(#[trigger] follow[k]) != c.id)
            ==> c.follow_count == 0,
        (forall|k: int| 0 <= k < follower.len() ==> row_id(#[trigger] follower[k]) != c.id)
            ==> c.follower_count == 0,
        (forall|k: int| 0 <= k < work.len() ==> row_id(#[trigger] work[k]) != c.id)
            ==> c.work_count == 0,
        (forall|k: int|
            0 <= k < total_favorited.len() ==> row_id(#[trigger] total_favorited[k]) != c.id)
            ==> c.total_favorited == 0,
{
    if forall|k: int| 0 <= k < favorite.len() ==> row_id(#[trigger] favorite[k]) != c.id {
        lemma_counter_defaults_to_zero(favorite, c.id);
    }
    if forall|k: int| 0 <= k < follow.len() ==> row_id(#[trigger] follow[k]) != c.id {
        lemma_counter_defaults_to_zero(follow, c.id);
    }
    if forall|k: int| 0 <= k < follower.len() ==> row_id(#[trigger] follower[k]) != c.id {
        lemma_counter_defaults_to_zero(follower, c.id);
    }
    if forall|k: int| 0 <= k < work.len() ==> row_id(#[trigger] work[k]) != c.id {
        lemma_counter_defaults_to_zero(work, c.id);
    }
    if forall|k: int| 0 <= k < total_favorited.len() ==> row_id(#[trigger] total_favorited[k])
        != c.id {
        lemma_counter_defaults_to_zero(total_favorited, c.id);
    }
}

/// The full-profile aggregation over the raw results of its seven queries,
/// all run serially over one session: seed one composite record per base
/// row, merge the five counter results, then raise the follow flags. Any
/// ill-shaped row fails the whole aggregation with `ProjectionMismatch`;
/// any identity disagreement between the queries fails it with
/// `Inconsistent`; there is no partial composite response.
pub fn full_profile(
    ids: &Vec<i64>,
    base: &Vec<Record>,
    favorite: &Vec<Record>,
    follow: &Vec<Record>,
    follower: &Vec<Record>,
    work: &Vec<Record>,
    total_favorited: &Vec<Record>,
    follow_check: &Vec<Record>,
) -> (out: Result<Vec<FullUserInfo>, ServiceError>)
    ensures
        match out {
            Ok(cs) => {
                &&& full_shapes_ok(
                    base@,
                    favorite@,
                    follow@,
                    follower@,
                    work@,
                    total_favorited@,
                    follow_check@,
                )
                &&& full_consistent(
                    ids@,
                    base@,
                    favorite@,
                    follow@,
                    follower@,
                    work@,
                    total_favorited@,
                    follow_check@,
                )
                &&& cs@.len() == base@.len()
                &&& forall|i: int|
                    0 <= i < cs@.len() ==> composite_complete(
                        #[trigger] cs@[i],
                        base@[i],
                        favorite@,
                        follow@,
                        follower@,
                        work@,
                        total_favorited@,
                        follow_check@,
                    )
                &&& ids_distinct(composite_ids(cs@))
                &&& all_in(composite_ids(cs@), ids@)
            },
            Err(e) => {
                &&& !(full_shapes_ok(
                    base@,
                    favorite@,
                    follow@,
                    follower@,
                    work@,
                    total_favorited@,
                    follow_check@,
                ) && full_consistent(
                    ids@,
                    base@,
                    favorite@,
                    follow@,
                    follower@,
                    work@,
                    total_favorited@,
                    follow_check@,
                ))
                &&& e == (if !full_shapes_ok(
                    base@,
                    favorite@,
                    follow@,
                    follower@,
                    work@,
                    total_favorited@,
                    follow_check@,
                ) {
                    ServiceError::ProjectionMismatch
                } else {
                    ServiceError::Inconsistent
                })
            },
        },
{
    // Shape phase first: a projection fault outranks a consistency fault.
    let favs = match decode_count_rows(favorite) {
        Ok(v) => v,
        Err(e) => {
            return Err(e);
        },
    };
    let fols = match decode_count_rows(follow) {
        Ok(v) => v,
        Err(e) => {
            return Err(e);
        },
    };
    let flrs = match decode_count_rows(follower) {
        Ok(v) => v,
        Err(e) => {
            return Err(e);
        },
    };
    let wrks = match decode_count_rows(work) {
        Ok(v) => v,
        Err(e) => {
            return Err(e);
        },
    };
    let tots = match decode_count_rows(total_favorited) {
        Ok(v) => v,
        Err(e) => {
            return Err(e);
        },
    };
    let flw_ids = match decode_follow_rows(follow_check) {
        Ok(v) => v,
        Err(e) => {
            return Err(e);
        },
    };
    let us = match profile_lookup(ids, base) {
        Ok(v) => v,
        Err(e) => {
            return Err(e);
        },
    };
    proof {
        assert(count_ids(favs@) =~= row_ids(favorite@));
        assert(count_ids(fols@) =~= row_ids(follow@));
        assert(count_ids(flrs@) =~= row_ids(follower@));
        assert(count_ids(wrks@) =~= row_ids(work@));
        assert(count_ids(tots@) =~= row_ids(total_favorited@));
    }
    let seeded = seed_composites(us);
    let ghost g0 = seeded@;
    proof {
        assert(composite_ids(g0) =~= row_ids(base@));
    }
    let cs_fav = match merge_counter(seeded, &favs, Metric::Favorite) {
        Ok(v) => v,
        Err(e) => {
            return Err(e);
        },
    };
    let ghost g1 = cs_fav@;
    proof {
        assert(composite_ids(g1) =~= composite_ids(g0));
    }
    let cs_fol = match merge_counter(cs_fav, &fols, Metric::Follow) {
        Ok(v) => v,
        Err(e) => {
            return Err(e);
        },
    };
    let ghost g2 = cs_fol@;
    proof {
        assert(composite_ids(g2) =~= composite_ids(g0));
    }
    let cs_flr = match merge_counter(cs_fol, &flrs, Metric::Follower) {
        Ok(v) => v,
        Err(e) => {
            return Err(e);
        },
    };
    let ghost g3 = cs_flr@;
    proof {
        assert(composite_ids(g3) =~= composite_ids(g0));
    }
    let cs_wrk = match merge_counter(cs_flr, &wrks, Metric::Work) {
        Ok(v) => v,
        Err(e) => {
            return Err(e);
        },
    };
    let ghost g4 = cs_wrk@;
    proof {
        assert(composite_ids(g4) =~= composite_ids(g0));
    }
    let cs_tot = match merge_counter(cs_wrk, &tots, Metric::TotalFavorited) {
        Ok(v) => v,
        Err(e) => {
            return Err(e);
        },
    };
    let ghost g5 = cs_tot@;
    proof {
        assert(composite_ids(g5) =~= composite_ids(g0));
    }
    let cs_fin = match merge_follows(cs_tot, &flw_ids) {
        Ok(v) => v,
        Err(e) => {
            return Err(e);
        },
    };
    proof {
        assert forall|i: int| 0 <= i < cs_fin@.len() implies composite_complete(
            #[trigger] cs_fin@[i],
            base@[i],
            favorite@,
            follow@,
            follower@,
            work@,
            total_favorited@,
            follow_check@,
        ) by {
            assert(merged_counter_rec(g0[i], g1[i], Metric::Favorite, favs@));
            assert(merged_counter_rec(g1[i], g2[i], Metric::Follow, fols@));
            assert(merged_counter_rec(g2[i], g3[i], Metric::Follower, flrs@));
            assert(merged_counter_rec(g3[i], g4[i], Metric::Work, wrks@));
            assert(merged_counter_rec(g4[i], g5[i], Metric::TotalFavorited, tots@));
            assert(followed_rec(g5[i], cs_fin@[i], flw_ids@));
            assert(metric_of(g0[i], Metric::Favorite) == 0);
            assert(metric_of(cs_fin@[i], Metric::Favorite) == metric_of(g1[i], Metric::Favorite));
            assert(metric_of(cs_fin@[i], Metric::Follow) == metric_of(g2[i], Metric::Follow));
            assert(metric_of(cs_fin@[i], Metric::Follower) == metric_of(g3[i], Metric::Follower));
            assert(metric_of(cs_fin@[i], Metric::Work) == metric_of(g4[i], Metric::Work));
            assert(metric_of(cs_fin@[i], Metric::TotalFavorited) == metric_of(
                g5[i],
                Metric::TotalFavorited,
            ));
            assert(cs_fin@[i].id == g0[i].id);
        }
        assert(composite_ids(cs_fin@) =~= composite_ids(g0));
        assert(flw_ids@ == row_ids(follow_check@));
    }
    Ok(cs_fin)
}

} // verus!
