use user_service::aggregate::{
    contains_id, counter_for, full_profile, merge_counter, merge_follows, profile_lookup,
    seed_composites,
};
use user_service::outcome::ServiceError;
use user_service::records::{IdWithInt64Value, Metric, UserInfo};
use user_service::value::{Record, Value};

fn count_row(id: i64, value: i64) -> Record {
    Record { fields: vec![Value::Integer(id), Value::Integer(value)] }
}

fn profile_row(id: i64, name: &str) -> Record {
    Record {
        fields: vec![
            Value::Integer(id),
            Value::Text(name.to_string()),
            Value::Text(format!("{name}.png")),
            Value::Text(format!("{name}-bg.png")),
            Value::Text(format!("about {name}")),
        ],
    }
}

fn follow_row(id: i64) -> Record {
    Record { fields: vec![Value::Integer(id)] }
}

#[test]
fn full_profile_two_identities() {
    // Identity set [1, 2]; base rows for both; favorite counts only for 1;
    // the asker follows 1 and not 2.
    let ids = vec![1, 2];
    let base = vec![profile_row(1, "alice"), profile_row(2, "bob")];
    let favorite = vec![count_row(1, 3)];
    let follow_check = vec![follow_row(1)];
    let out = full_profile(
        &ids,
        &base,
        &favorite,
        &Vec::new(),
        &Vec::new(),
        &Vec::new(),
        &Vec::new(),
        &follow_check,
    )
    .unwrap();
    assert_eq!(out.len(), 2);
    let alice = out.iter().find(|c| c.id == 1).unwrap();
    assert_eq!(alice.name, "alice");
    assert_eq!(alice.favorite_count, 3);
    assert!(alice.is_follow);
    let bob = out.iter().find(|c| c.id == 2).unwrap();
    assert_eq!(bob.name, "bob");
    assert_eq!(bob.favorite_count, 0);
    assert!(!bob.is_follow);
}

#[test]
fn counters_default_to_zero_when_no_row_comes_back() {
    // No counter query returns anything: every counter of every composite
    // is zero, never absent.
    let ids = vec![7, 8, 9];
    let base = vec![profile_row(7, "a"), profile_row(8, "b"), profile_row(9, "c")];
    let none: Vec<Record> = Vec::new();
    let out = full_profile(&ids, &base, &none, &none, &none, &none, &none, &none).unwrap();
    assert_eq!(out.len(), 3);
    for c in &out {
        assert_eq!(c.favorite_count, 0);
        assert_eq!(c.follow_count, 0);
        assert_eq!(c.follower_count, 0);
        assert_eq!(c.work_count, 0);
        assert_eq!(c.total_favorited, 0);
        assert!(!c.is_follow);
    }
}

#[test]
fn extraneous_counter_identity_fails_the_aggregation() {
    // A counter row mentions identity 5, which has no base row: the whole
    // aggregation fails with the internal consistency error, no silent drop.
    let ids = vec![1];
    let base = vec![profile_row(1, "alice")];
    let favorite = vec![count_row(1, 2), count_row(5, 9)];
    let none: Vec<Record> = Vec::new();
    let out = full_profile(&ids, &base, &favorite, &none, &none, &none, &none, &none);
    assert_eq!(out.unwrap_err(), ServiceError::Inconsistent);
}

#[test]
fn extraneous_follow_identity_fails_the_aggregation() {
    let ids = vec![1];
    let base = vec![profile_row(1, "alice")];
    let none: Vec<Record> = Vec::new();
    let follow_check = vec![follow_row(2)];
    let out = full_profile(&ids, &base, &none, &none, &none, &none, &none, &follow_check);
    assert_eq!(out.unwrap_err(), ServiceError::Inconsistent);
}

#[test]
fn merge_counter_rejects_unknown_identity() {
    let base = vec![profile_row(1, "alice")];
    let infos = {
        let ids = vec![1];
        profile_lookup(&ids, &base).unwrap()
    };
    let composites = seed_composites(infos);
    let rows = vec![IdWithInt64Value { user_id: 2, value: 1 }];
    let out = merge_counter(composites, &rows, Metric::Favorite);
    assert_eq!(out.unwrap_err(), ServiceError::Inconsistent);
}

#[test]
fn merge_follows_rejects_unknown_identity() {
    let composites = seed_composites(vec![UserInfo {
        id: 3,
        username: "c".to_string(),
        avatar: String::new(),
        background_img: String::new(),
        signature: String::new(),
    }]);
    let out = merge_follows(composites, &vec![4]);
    assert_eq!(out.unwrap_err(), ServiceError::Inconsistent);
}

#[test]
fn last_counter_row_wins() {
    let rows = vec![
        IdWithInt64Value { user_id: 1, value: 10 },
        IdWithInt64Value { user_id: 1, value: 20 },
    ];
    assert_eq!(counter_for(&rows, 1, 0), 20);
    assert_eq!(counter_for(&rows, 2, 7), 7);
}

#[test]
fn bulk_lookup_returns_each_identity_at_most_once() {
    let ids = vec![1, 2, 2, 3];
    let base = vec![profile_row(1, "alice"), profile_row(2, "bob")];
    let out = profile_lookup(&ids, &base).unwrap();
    assert_eq!(out.len(), 2);
    for u in &out {
        assert!(ids.contains(&u.id));
        assert_eq!(out.iter().filter(|v| v.id == u.id).count(), 1);
    }
}

#[test]
fn bulk_lookup_rejects_duplicate_base_rows() {
    let ids = vec![1];
    let base = vec![profile_row(1, "alice"), profile_row(1, "alice")];
    let out = profile_lookup(&ids, &base);
    assert_eq!(out.unwrap_err(), ServiceError::Inconsistent);
}

#[test]
fn bulk_lookup_rejects_unrequested_identity() {
    let ids = vec![1];
    let base = vec![profile_row(2, "bob")];
    let out = profile_lookup(&ids, &base);
    assert_eq!(out.unwrap_err(), ServiceError::Inconsistent);
}

#[test]
fn bulk_lookup_on_empty_identity_set() {
    let ids: Vec<i64> = Vec::new();
    let base: Vec<Record> = Vec::new();
    let out = profile_lookup(&ids, &base).unwrap();
    assert!(out.is_empty());
}

#[test]
fn seeded_composites_carry_identity_fields_and_zeroes() {
    let infos = vec![UserInfo {
        id: 11,
        username: "u".to_string(),
        avatar: "a".to_string(),
        background_img: "b".to_string(),
        signature: "s".to_string(),
    }];
    let cs = seed_composites(infos);
    assert_eq!(cs.len(), 1);
    assert_eq!(cs[0].id, 11);
    assert_eq!(cs[0].name, "u");
    assert_eq!(cs[0].avatar, "a");
    assert_eq!(cs[0].background_image, "b");
    assert_eq!(cs[0].signature, "s");
    assert_eq!(cs[0].favorite_count, 0);
    assert!(!cs[0].is_follow);
}

#[test]
fn contains_id_finds_and_misses() {
    let v = vec![1, 5, 9];
    assert!(contains_id(&v, 5));
    assert!(!contains_id(&v, 2));
}
