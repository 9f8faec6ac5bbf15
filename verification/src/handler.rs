use vstd::prelude::*;

use crate::aggregate::{base_result_valid, profile_lookup};
use crate::outcome::ServiceError;
use crate::project::all_profile_rows;
use crate::records::{ids_distinct, info_ids, UserInfo};
use crate::value::{as_text, Record};

verus! {

/// What the external auth capability said about an opaque credential:
/// either the verified identity it belongs to, or a rejection. A
/// rejection is a normal answer of that capability, not an error.
pub enum AuthOutcome {
    Verified(i64),
    Rejected,
}

/// What an auth-gated handler does next.
#[derive(Clone, Copy, PartialEq, Eq, Structural, Debug)]
pub enum AuthDecision {
    /// Go on to the database as this verified identity.
    Proceed(i64),
    /// Answer with the typed authentication-failed status at once; the
    /// database is never contacted for this request.
    Refuse,
}

/// The decision an auth-gated handler takes before any database work: a
/// credential the auth capability accepted proceeds under its identity; a
/// rejected one is answered with the typed auth-failure status, distinct
/// from database errors, and no query is ever issued for it.
pub fn gate_by_auth(a: &AuthOutcome) -> (d: AuthDecision)
    ensures
        a matches AuthOutcome::Verified(id) ==> d == AuthDecision::Proceed(*id),
        a is Rejected ==> d == AuthDecision::Refuse,
{
    match a {
        AuthOutcome::Verified(id) => AuthDecision::Proceed(*id),
        AuthOutcome::Rejected => AuthDecision::Refuse,
    }
}

/// The answer to a singular lookup: the record, or a typed not-found
/// status. Zero rows for one identity is an expected, actionable outcome,
/// never an error and never an empty default record.
#[derive(Debug)]
pub enum LookupOutcome {
    Found(UserInfo),
    NotFound,
}

/// A single-identity profile lookup over the raw rows the base profile
/// query returned for `[id]`. Zero rows answer `NotFound`; one row is
/// projected into the record. More than one row for a single identity
/// cannot pass validation, since every returned identity must be the
/// requested one and none may repeat.
pub fn single_profile(id: i64, rows: &Vec<Record>) -> (out: Result<LookupOutcome, ServiceError>)
    ensures
        match out {
            Ok(o) => {
                &&& all_profile_rows(rows@)
                &&& base_result_valid(seq![id], rows@)
                &&& match o {
                    LookupOutcome::NotFound => rows@.len() == 0,
                    LookupOutcome::Found(u) => {
                        &&& rows@.len() == 1
                        &&& u.id == id
                        &&& u.username@ == as_text(rows@[0].fields@[1])
                        &&& u.avatar@ == as_text(rows@[0].fields@[2])
                        &&& u.background_img@ == as_text(rows@[0].fields@[3])
                        &&& u.signature@ == as_text(rows@[0].fields@[4])
                    },
                }
            },
            Err(e) => {
                &&& !(all_profile_rows(rows@) && base_result_valid(seq![id], rows@))
                &&& e == (if !all_profile_rows(rows@) {
                    ServiceError::ProjectionMismatch
                } else {
                    ServiceError::Inconsistent
                })
            },
        },
{
    let mut ids: Vec<i64> = Vec::new();
    ids.push(id);
    proof {
        assert(ids@ =~= seq![id]);
    }
    let mut us = match profile_lookup(&ids, rows) {
        Ok(us) => us,
        Err(e) => {
            return Err(e);
        },
    };
    let ghost us0 = us@;
    if us.len() == 0 {
        Ok(LookupOutcome::NotFound)
    } else if us.len() == 1 {
        let u = us.remove(0);
        proof {
            assert(info_ids(us0)[0] == u.id);
            assert(seq![id].contains(u.id));
            assert(u.id == id);
        }
        Ok(LookupOutcome::Found(u))
    } else {
        proof {
            assert(info_ids(us@)[0] == us@[0].id);
            assert(info_ids(us@)[1] == us@[1].id);
            assert(seq![id].contains(us@[0].id));
            assert(seq![id].contains(us@[1].id));
            assert(us@[0].id == id && us@[1].id == id);
            assert(!ids_distinct(info_ids(us@)));
            assert(false);
        }
        Err(ServiceError::Inconsistent)
    }
}

} // verus!
