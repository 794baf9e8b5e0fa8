//! Filtered query builder: composes the parameterized statement that lists
//! a user's activity records under caller-supplied optional filters.
//!
//! The statement starts from the mandatory owner predicate and appends one
//! fragment per present optional predicate in a fixed order — type, date
//! from, date to, calories minimum, calories maximum — followed by the
//! pagination bounds. Every appended fragment's bound value is appended at
//! the same relative position of the parameter list, and the placeholder
//! number written into the text is exactly that position. Values are never
//! interpolated into the text.

use vstd::prelude::*;
use crate::numfmt::{append_dec_u64, dec_rep, i64_to_string};

verus! {

/// The caller-supplied filter set for listing activities. Absent filters
/// contribute nothing; absent pagination bounds fall back to a limit of 5
/// and an offset of 0.
pub struct GetActivitiesQuery {
    /// Page size; defaults to 5.
    pub limit: Option<i32>,
    /// Page start; defaults to 0.
    pub offset: Option<i32>,
    /// Keep only records of this activity type.
    pub activity_type: Option<String>,
    /// Keep only records done at or after this instant.
    pub done_at_from: Option<String>,
    /// Keep only records done at or before this instant.
    pub done_at_to: Option<String>,
    /// Keep only records with at least this many calories burned.
    pub calories_burned_min: Option<i32>,
    /// Keep only records with at most this many calories burned.
    pub calories_burned_max: Option<i32>,
}

/// A parameterized statement, ready for execution: the text with numbered
/// placeholders, and the bound values in placeholder order.
pub struct QueryStatement {
    /// The statement text; placeholder `$n` refers to the `n`-th
    /// parameter.
    pub text: String,
    /// The bound parameter values, in placeholder order.
    pub params: Vec<String>,
}

/// How many optional predicates the filter set carries.
pub open spec fn count_present(q: GetActivitiesQuery) -> int {
    (if q.activity_type is Some { 1int } else { 0 })
    + (if q.done_at_from is Some { 1int } else { 0 })
    + (if q.done_at_to is Some { 1int } else { 0 })
    + (if q.calories_burned_min is Some { 1int } else { 0 })
    + (if q.calories_burned_max is Some { 1int } else { 0 })
}

/// The effective page size: the caller's, or 5.
pub open spec fn spec_limit(q: GetActivitiesQuery) -> int {
    match q.limit {
        Some(l) => l as int,
        None => 5,
    }
}

/// The effective page start: the caller's, or 0.
pub open spec fn spec_offset(q: GetActivitiesQuery) -> int {
    match q.offset {
        Some(o) => o as int,
        None => 0,
    }
}

/// The statement text for a filter set: the owner predicate, one fragment
/// per present optional predicate in the fixed order with consecutively
/// numbered placeholders, then the pagination bounds.
pub open spec fn stmt_text(q: GetActivitiesQuery) -> Seq<char> {
    let t0 = "SELECT * FROM activities WHERE user_id = $1"@;
    let (t1, i1): (Seq<char>, int) = if q.activity_type is Some {
        (t0 + " AND activity_type = $"@ + dec_rep(2), 3int)
    } else {
        (t0, 2int)
    };
    let (t2, i2): (Seq<char>, int) = if q.done_at_from is Some {
        (t1 + " AND done_at >= $"@ + dec_rep(i1) + "::timestamptz"@, i1 + 1)
    } else {
        (t1, i1)
    };
    let (t3, i3): (Seq<char>, int) = if q.done_at_to is Some {
        (t2 + " AND done_at <= $"@ + dec_rep(i2) + "::timestamptz"@, i2 + 1)
    } else {
        (t2, i2)
    };
    let (t4, i4): (Seq<char>, int) = if q.calories_burned_min is Some {
        (t3 + " AND calories_burned >= $"@ + dec_rep(i3), i3 + 1)
    } else {
        (t3, i3)
    };
    let (t5, i5): (Seq<char>, int) = if q.calories_burned_max is Some {
        (t4 + " AND calories_burned <= $"@ + dec_rep(i4), i4 + 1)
    } else {
        (t4, i4)
    };
    t5 + " LIMIT $"@ + dec_rep(i5) + " OFFSET $"@ + dec_rep(i5 + 1)
}

/// The parameter list for a filter set: the owner value first, then the
/// value of each present optional predicate in the same fixed order as the
/// text fragments, then the pagination bounds, always last.
pub open spec fn stmt_params(owner: Seq<char>, q: GetActivitiesQuery) -> Seq<Seq<char>> {
    let p0 = seq![owner];
    let p1 = match q.activity_type {
        Some(t) => p0.push(t@),
        None => p0,
    };
    let p2 = match q.done_at_from {
        Some(t) => p1.push(t@),
        None => p1,
    };
    let p3 = match q.done_at_to {
        Some(t) => p2.push(t@),
        None => p2,
    };
    let p4 = match q.calories_burned_min {
        Some(v) => p3.push(dec_rep(v as int)),
        None => p3,
    };
    let p5 = match q.calories_burned_max {
        Some(v) => p4.push(dec_rep(v as int)),
        None => p4,
    };
    p5.push(dec_rep(spec_limit(q))).push(dec_rep(spec_offset(q)))
}

/// The views of the built parameter strings.
pub open spec fn params_view(params: Vec<String>) -> Seq<Seq<char>> {
    params@.map_values(|p: String| p@)
}

proof fn lemma_params_view_push(v: Vec<String>, prev: Seq<String>, x: String)
    requires
        v@ == prev.push(x),
    ensures
        v@.map_values(|p: String| p@) == prev.map_values(|p: String| p@).push(x@),
{
    assert(v@.map_values(|p: String| p@) =~= prev.map_values(|p: String| p@).push(x@));
}

/// Builds the listing statement for the records owned by `owner_id` under
/// the filter set `q`: the text is exactly `stmt_text` and the parameters
/// exactly `stmt_params`, so each placeholder number matches its value's
/// position in the parameter list.
pub fn build_activities_query(owner_id: &str, q: &GetActivitiesQuery) -> (r: QueryStatement)
    ensures
        r.text@ == stmt_text(*q),
        params_view(r.params) == stmt_params(owner_id@, *q),
{
    let mut text = String::from_str("SELECT * FROM activities WHERE user_id = $1");
    let mut params: Vec<String> = Vec::new();
    params.push(String::from_str(owner_id));
    assert(params_view(params) =~= seq![owner_id@]);
    let mut idx: u64 = 2;

    if let Some(t) = &q.activity_type {
        let ghost prev = params@;
        text.append(" AND activity_type = $");
        append_dec_u64(&mut text, idx);
        params.push(t.clone());
        proof {
            lemma_params_view_push(params, prev, *t);
        }
        idx = idx + 1;
    }
    if let Some(t) = &q.done_at_from {
        let ghost prev = params@;
        text.append(" AND done_at >= $");
        append_dec_u64(&mut text, idx);
        text.append("::timestamptz");
        params.push(t.clone());
        proof {
            lemma_params_view_push(params, prev, *t);
        }
        idx = idx + 1;
    }
    if let Some(t) = &q.done_at_to {
        let ghost prev = params@;
        text.append(" AND done_at <= $");
        append_dec_u64(&mut text, idx);
        text.append("::timestamptz");
        params.push(t.clone());
        proof {
            lemma_params_view_push(params, prev, *t);
        }
        idx = idx + 1;
    }
    if let Some(v) = q.calories_burned_min {
        let ghost prev = params@;
        text.append(" AND calories_burned >= $");
        append_dec_u64(&mut text, idx);
        let rendered = i64_to_string(v as i64);
        params.push(rendered);
        proof {
            lemma_params_view_push(params, prev, params@[params@.len() - 1]);
        }
        idx = idx + 1;
    }
    if let Some(v) = q.calories_burned_max {
        let ghost prev = params@;
        text.append(" AND calories_burned <= $");
        append_dec_u64(&mut text, idx);
        let rendered = i64_to_string(v as i64);
        params.push(rendered);
        proof {
            lemma_params_view_push(params, prev, params@[params@.len() - 1]);
        }
        idx = idx + 1;
    }

    text.append(" LIMIT $");
    append_dec_u64(&mut text, idx);
    text.append(" OFFSET $");
    append_dec_u64(&mut text, idx + 1);

    let limit: i32 = match q.limit {
        Some(l) => l,
        None => 5,
    };
    let offset: i32 = match q.offset {
        Some(o) => o,
        None => 0,
    };
    let ghost prev_l = params@;
    params.push(i64_to_string(limit as i64));
    proof {
        lemma_params_view_push(params, prev_l, params@[params@.len() - 1]);
    }
    let ghost prev_o = params@;
    params.push(i64_to_string(offset as i64));
    proof {
        lemma_params_view_push(params, prev_o, params@[params@.len() - 1]);
    }

    assert(text@ =~= stmt_text(*q));
    assert(params_view(params) =~= stmt_params(owner_id@, *q));
    QueryStatement { text, params }
}

/// Injection safety: the statement text depends only on which filters are
/// present, never on the values they carry or on the pagination values —
/// two filter sets with the same shape produce character-for-character the
/// same text, so no caller-supplied value can reach the statement text.
pub proof fn lemma_text_independent_of_values(q1: GetActivitiesQuery, q2: GetActivitiesQuery)
    requires
        q1.activity_type is Some <==> q2.activity_type is Some,
        q1.done_at_from is Some <==> q2.done_at_from is Some,
        q1.done_at_to is Some <==> q2.done_at_to is Some,
        q1.calories_burned_min is Some <==> q2.calories_burned_min is Some,
        q1.calories_burned_max is Some <==> q2.calories_burned_max is Some,
    ensures
        stmt_text(q1) == stmt_text(q2),
{
}

/// Parameter accounting: the parameter list always holds the owner value,
/// one value per present optional predicate, and the two pagination
/// bounds — and the owner is first and the pagination bounds are the last
/// two, whichever filters are present.
pub proof fn lemma_params_shape(owner: Seq<char>, q: GetActivitiesQuery)
    ensures
        stmt_params(owner, q).len() == 3 + count_present(q),
        stmt_params(owner, q)[0] == owner,
        stmt_params(owner, q)[stmt_params(owner, q).len() - 2] == dec_rep(spec_limit(q)),
        stmt_params(owner, q)[stmt_params(owner, q).len() - 1] == dec_rep(spec_offset(q)),
{
}

/// Placeholder consistency: the highest placeholder number written into
/// the text — the one for the offset bound — equals the length of the
/// parameter list, so every placeholder `$n` has a parameter at position
/// `n` and the numbering never skips or collides.
pub proof fn lemma_placeholder_count(owner: Seq<char>, q: GetActivitiesQuery)
    ensures
        stmt_params(owner, q).len() == 3 + count_present(q),
        stmt_text(q).subrange(
            stmt_text(q).len() - dec_rep(3 + count_present(q)).len() as int,
            stmt_text(q).len() as int,
        ) == dec_rep(3 + count_present(q)),
{
    let n = count_present(q);
    assert(stmt_text(q).subrange(
        stmt_text(q).len() - dec_rep(3 + n).len() as int,
        stmt_text(q).len() as int,
    ) =~= dec_rep(3 + n));
}

} // verus!
