use user_service::handler::{gate_by_auth, single_profile, AuthDecision, AuthOutcome, LookupOutcome};
use user_service::health::HealthChecker;
use user_service::outcome::ServiceError;
use user_service::project::{
    decode_count_rows, decode_follow_rows, decode_profile_rows, decode_text_rows,
    project_count_row, project_profile_row,
};
use user_service::records::Metric;
use user_service::templates::{
    counter_query, field_query, follow_query, ids_param, profile_query, self_param, ProfileField,
};
use user_service::value::{Record, Value};

fn profile_row(id: i64, name: &str) -> Record {
    Record {
        fields: vec![
            Value::Integer(id),
            Value::Text(name.to_string()),
            Value::Text("avatar.png".to_string()),
            Value::Text("bg.png".to_string()),
            Value::Text("hello".to_string()),
        ],
    }
}

#[test]
fn rejected_token_refuses_before_any_database_work() {
    // The auth capability reported a failed exchange: the handler answers
    // the typed auth-failure status and issues no query.
    assert_eq!(gate_by_auth(&AuthOutcome::Rejected), AuthDecision::Refuse);
}

#[test]
fn verified_token_proceeds_under_its_identity() {
    assert_eq!(gate_by_auth(&AuthOutcome::Verified(42)), AuthDecision::Proceed(42));
}

#[test]
fn absent_identity_answers_not_found() {
    // Zero rows for a singular lookup: a typed not-found status, not an
    // error and not an empty default record.
    let rows: Vec<Record> = Vec::new();
    match single_profile(123, &rows).unwrap() {
        LookupOutcome::NotFound => {},
        LookupOutcome::Found(_) => panic!("expected not-found"),
    }
}

#[test]
fn present_identity_answers_its_record() {
    let rows = vec![profile_row(5, "eve")];
    match single_profile(5, &rows).unwrap() {
        LookupOutcome::Found(u) => {
            assert_eq!(u.id, 5);
            assert_eq!(u.username, "eve");
        },
        LookupOutcome::NotFound => panic!("expected a record"),
    }
}

#[test]
fn foreign_row_in_singular_lookup_is_a_fault() {
    let rows = vec![profile_row(6, "mallory")];
    let out = single_profile(5, &rows);
    assert_eq!(out.unwrap_err(), ServiceError::Inconsistent);
}

#[test]
fn health_flag_flips_once_ready() {
    let mut h = HealthChecker::new();
    assert!(!h.check());
    h.set_serving();
    assert!(h.check());
}

#[test]
fn counter_templates_return_identity_then_count() {
    // Each counter template must keep its projection in lockstep with the
    // count-row shape: two columns, identity first.
    for m in [
        Metric::Favorite,
        Metric::Follow,
        Metric::Follower,
        Metric::Work,
        Metric::TotalFavorited,
    ] {
        let q = counter_query(m);
        assert!(q.starts_with("MATCH (u:User) WHERE u.id IN $ids"));
        assert!(q.contains("RETURN u.id, count("));
        let row = Record { fields: vec![Value::Integer(1), Value::Integer(4)] };
        let typed = project_count_row(&row).unwrap();
        assert_eq!(typed.user_id, 1);
        assert_eq!(typed.value, 4);
    }
}

#[test]
fn favorite_template_counts_favorite_edges() {
    assert_eq!(
        counter_query(Metric::Favorite),
        "MATCH (u:User) WHERE u.id IN $ids OPTIONAL MATCH (u)-[:FAVORITE]->(w:Work) RETURN u.id, count(w);"
    );
}

#[test]
fn profile_template_matches_its_projection_order() {
    let q = profile_query();
    assert!(q.ends_with("RETURN u.id, u.username, u.avatar, u.background_image, u.signature;"));
    let u = project_profile_row(&profile_row(9, "zoe")).unwrap();
    assert_eq!(u.id, 9);
    assert_eq!(u.username, "zoe");
    assert_eq!(u.avatar, "avatar.png");
    assert_eq!(u.background_img, "bg.png");
    assert_eq!(u.signature, "hello");
}

#[test]
fn field_templates_return_identity_then_field() {
    let cases = [
        (ProfileField::Username, "u.username"),
        (ProfileField::Avatar, "u.avatar"),
        (ProfileField::Signature, "u.signature"),
        (ProfileField::BackgroundImage, "u.background_image"),
    ];
    for (f, col) in cases {
        let q = field_query(f);
        assert_eq!(q, format!("MATCH (u:User) WHERE u.id IN $ids RETURN u.id, {col};"));
    }
}

#[test]
fn follow_template_returns_one_identity_column() {
    let q = follow_query();
    assert_eq!(q, "MATCH (:User {id: $id})-[:FOLLOW]->(o:User) WHERE o.id IN $ids RETURN o.id;");
    assert_eq!(ids_param(), "ids");
    assert_eq!(self_param(), "id");
}

#[test]
fn ill_shaped_rows_are_a_projection_fault() {
    // Wrong arity.
    let short = vec![Record { fields: vec![Value::Integer(1)] }];
    assert_eq!(decode_count_rows(&short).unwrap_err(), ServiceError::ProjectionMismatch);
    // Wrong column type.
    let wrong = vec![Record { fields: vec![Value::Integer(1), Value::Null] }];
    assert_eq!(decode_count_rows(&wrong).unwrap_err(), ServiceError::ProjectionMismatch);
    let not_text = vec![Record { fields: vec![Value::Integer(1), Value::Integer(2)] }];
    assert_eq!(decode_text_rows(&not_text).unwrap_err(), ServiceError::ProjectionMismatch);
    let not_profile = vec![Record { fields: vec![Value::Integer(1)] }];
    assert_eq!(decode_profile_rows(&not_profile).unwrap_err(), ServiceError::ProjectionMismatch);
    let not_follow = vec![Record { fields: vec![Value::Null] }];
    assert_eq!(decode_follow_rows(&not_follow).unwrap_err(), ServiceError::ProjectionMismatch);
}

#[test]
fn well_shaped_rows_decode_in_order() {
    let rows = vec![
        Record { fields: vec![Value::Integer(1), Value::Text("a".to_string())] },
        Record { fields: vec![Value::Integer(2), Value::Text("b".to_string())] },
    ];
    let typed = decode_text_rows(&rows).unwrap();
    assert_eq!(typed.len(), 2);
    assert_eq!(typed[0].user_id, 1);
    assert_eq!(typed[0].value, "a");
    assert_eq!(typed[1].user_id, 2);
    assert_eq!(typed[1].value, "b");

    let follows = vec![
        Record { fields: vec![Value::Integer(8)] },
        Record { fields: vec![Value::Integer(3)] },
    ];
    assert_eq!(decode_follow_rows(&follows).unwrap(), vec![8, 3]);
}
