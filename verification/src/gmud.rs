use vstd::prelude::*;

use crate::error::{ApiError, ErrorView};
use crate::ids::{id_text, id_to_text, object_id_bytes, object_id_text_ok, parse_object_id, ObjectIdBytes};
use crate::text::{owned, text_eq, trim, trim_ws};
use crate::validation::Violations;

verus! {

/// The stages of a change (GMUD).
#[derive(Clone, Copy, PartialEq, Eq, Structural, Debug)]
pub enum GmudStatus {
    Draft,
    Scheduled,
    InProgress,
    Completed,
    Cancelled,
}

/// The stored name of each stage.
pub open spec fn status_name_spec(s: GmudStatus) -> Seq<char> {
    match s {
        GmudStatus::Draft => "draft"@,
        GmudStatus::Scheduled => "scheduled"@,
        GmudStatus::InProgress => "in_progress"@,
        GmudStatus::Completed => "completed"@,
        GmudStatus::Cancelled => "cancelled"@,
    }
}

impl GmudStatus {
    /// The name under which the stage is stored.
    pub fn name(&self) -> (res: &'static str)
        ensures
            res@ == status_name_spec(*self),
    {
        match self {
            GmudStatus::Draft => "draft",
            GmudStatus::Scheduled => "scheduled",
            GmudStatus::InProgress => "in_progress",
            GmudStatus::Completed => "completed",
            GmudStatus::Cancelled => "cancelled",
        }
    }
}

/// A stored change.
#[derive(Debug)]
pub struct GmudModel {
    pub id: Option<ObjectIdBytes>,
    pub title: String,
    pub project_id: String,
    pub spring: String,
    pub gmud_type: String,
    pub gmud_number: String,
    pub developer: String,
    pub approver: String,
    pub status: GmudStatus,
    pub created_at: String,
    pub updated_at: String,
}

/// The body of a request that creates a change.
#[derive(Debug)]
pub struct CreateGmudDto {
    pub title: String,
    pub project_id: String,
    pub spring: String,
    pub gmud_type: String,
    pub gmud_number: String,
    pub status: GmudStatus,
    pub developer: String,
    pub approver: String,
}

/// The body of a request that updates a change: the fields to change.
#[derive(Debug)]
pub struct UpdateGmudDto {
    pub title: Option<String>,
    pub project_id: Option<String>,
    pub spring: Option<String>,
    pub gmud_type: Option<String>,
    pub gmud_number: Option<String>,
    pub developer: Option<String>,
    pub approver: Option<String>,
    pub status: Option<GmudStatus>,
}

/// A change as the API shows it.
#[derive(Debug)]
pub struct GmudResponseDto {
    pub id: String,
    pub title: String,
    pub project_id: String,
    pub spring: String,
    pub gmud_type: String,
    pub gmud_number: String,
    pub developer: String,
    pub approver: String,
    pub status: GmudStatus,
    pub created_at: String,
    pub updated_at: String,
}

/// The length rules of a new change, in characters: title 5..=120, project
/// 3..=120, spring 1..=40, type and number 3..=80, developer and approver
/// 3..=120.
pub open spec fn create_gmud_valid(input: &CreateGmudDto) -> bool {
    &&& 5 <= input.title@.len() <= 120
    &&& 3 <= input.project_id@.len() <= 120
    &&& 1 <= input.spring@.len() <= 40
    &&& 3 <= input.gmud_type@.len() <= 80
    &&& 3 <= input.gmud_number@.len() <= 80
    &&& 3 <= input.developer@.len() <= 120
    &&& 3 <= input.approver@.len() <= 120
}

pub open spec fn opt_len_ok(v: Option<String>, min: nat, max: nat) -> bool {
    match v {
        Some(s) => min <= s@.len() <= max,
        None => true,
    }
}

/// The same rules on the fields an update carries.
pub open spec fn update_gmud_valid(input: &UpdateGmudDto) -> bool {
    &&& opt_len_ok(input.title, 5, 120)
    &&& opt_len_ok(input.project_id, 3, 120)
    &&& opt_len_ok(input.spring, 1, 40)
    &&& opt_len_ok(input.gmud_type, 3, 80)
    &&& opt_len_ok(input.gmud_number, 3, 80)
    &&& opt_len_ok(input.developer, 3, 120)
    &&& opt_len_ok(input.approver, 3, 120)
}

/// Each length rule of a new change bounds its own field: a new change is
/// valid exactly when its title has 5 to 120 characters, its project 3 to
/// 120, its spring 1 to 40, its type and number 3 to 80 each, and its
/// developer and approver 3 to 120 each.
pub proof fn lemma_create_gmud_rules(input: &CreateGmudDto)
    ensures
        create_gmud_valid(input) ==> 5 <= input.title@.len() <= 120,
        create_gmud_valid(input) ==> 3 <= input.project_id@.len() <= 120,
        create_gmud_valid(input) ==> 1 <= input.spring@.len() <= 40,
        create_gmud_valid(input) ==> 3 <= input.gmud_type@.len() <= 80,
        create_gmud_valid(input) ==> 3 <= input.gmud_number@.len() <= 80,
        create_gmud_valid(input) ==> 3 <= input.developer@.len() <= 120,
        create_gmud_valid(input) ==> 3 <= input.approver@.len() <= 120,
        (5 <= input.title@.len() <= 120 && 3 <= input.project_id@.len() <= 120 && 1
            <= input.spring@.len() <= 40 && 3 <= input.gmud_type@.len() <= 80 && 3
            <= input.gmud_number@.len() <= 80 && 3 <= input.developer@.len() <= 120 && 3
            <= input.approver@.len() <= 120) ==> create_gmud_valid(input),
{
}

/// Checks the length rules of a new change.
pub fn validate_create_gmud(input: &CreateGmudDto) -> (res: Result<(), ApiError>)
    ensures
        res is Ok <==> create_gmud_valid(input),
        res is Ok ==> 5 <= input.title@.len() <= 120 && 3 <= input.project_id@.len() <= 120,
        res is Ok ==> 1 <= input.spring@.len() <= 40 && 3 <= input.gmud_type@.len() <= 80,
        res is Ok ==> 3 <= input.gmud_number@.len() <= 80 && 3 <= input.developer@.len() <= 120,
        res is Ok ==> 3 <= input.approver@.len() <= 120,
        res matches Err(e) ==> e is Validation,
{
    let mut v = Violations::new();
    v.check_length("title", input.title.as_str(), 5, 120);
    v.check_length("project_id", input.project_id.as_str(), 3, 120);
    v.check_length("spring", input.spring.as_str(), 1, 40);
    v.check_length("gmud_type", input.gmud_type.as_str(), 3, 80);
    v.check_length("gmud_number", input.gmud_number.as_str(), 3, 80);
    v.check_length("developer", input.developer.as_str(), 3, 120);
    v.check_length("approver", input.approver.as_str(), 3, 120);
    v.finish()
}

/// Each length rule of an update bounds its own field, and only when the
/// update carries it: an update is valid exactly when every field it
/// carries has the length a new change's field needs.
pub proof fn lemma_update_gmud_rules(input: &UpdateGmudDto)
    ensures
        update_gmud_valid(input) ==> (input.title matches Some(t) ==> 5 <= t@.len() <= 120),
        update_gmud_valid(input) ==> (input.project_id matches Some(t) ==> 3 <= t@.len() <= 120),
        update_gmud_valid(input) ==> (input.spring matches Some(t) ==> 1 <= t@.len() <= 40),
        update_gmud_valid(input) ==> (input.gmud_type matches Some(t) ==> 3 <= t@.len() <= 80),
        update_gmud_valid(input) ==> (input.gmud_number matches Some(t) ==> 3 <= t@.len() <= 80),
        update_gmud_valid(input) ==> (input.developer matches Some(t) ==> 3 <= t@.len() <= 120),
        update_gmud_valid(input) ==> (input.approver matches Some(t) ==> 3 <= t@.len() <= 120),
        (forall|t: String| #![auto] input.title == Some(t) ==> 5 <= t@.len() <= 120)
            && (forall|t: String| #![auto] input.project_id == Some(t) ==> 3 <= t@.len() <= 120)
            && (forall|t: String| #![auto] input.spring == Some(t) ==> 1 <= t@.len() <= 40)
            && (forall|t: String| #![auto] input.gmud_type == Some(t) ==> 3 <= t@.len() <= 80)
            && (forall|t: String| #![auto] input.gmud_number == Some(t) ==> 3 <= t@.len() <= 80)
            && (forall|t: String| #![auto] input.developer == Some(t) ==> 3 <= t@.len() <= 120)
            && (forall|t: String| #![auto] input.approver == Some(t) ==> 3 <= t@.len() <= 120)
            ==> update_gmud_valid(input),
{
}

/// Checks the length rules on the fields an update carries.
pub fn validate_update_gmud(input: &UpdateGmudDto) -> (res: Result<(), ApiError>)
    ensures
        res is Ok <==> update_gmud_valid(input),
        res matches Err(e) ==> e is Validation,
{
    let mut v = Violations::new();
    v.check_optional_length("title", &input.title, 5, 120);
    v.check_optional_length("project_id", &input.project_id, 3, 120);
    v.check_optional_length("spring", &input.spring, 1, 40);
    v.check_optional_length("gmud_type", &input.gmud_type, 3, 80);
    v.check_optional_length("gmud_number", &input.gmud_number, 3, 80);
    v.check_optional_length("developer", &input.developer, 3, 120);
    v.check_optional_length("approver", &input.approver, 3, 120);
    v.finish()
}

/// The form every UTC timestamp of chrono's `to_rfc3339` has: a date, `T`
/// and a time of at least 19 characters, then the offset `+00:00`.
pub open spec fn is_utc_rfc3339(t: Seq<char>) -> bool {
    &&& t.len() >= 25
    &&& t.subrange(t.len() - 6, t.len() as int) == "+00:00"@
}

/// chrono's `Utc::now().to_rfc3339()`: the clock's time as RFC 3339 text,
/// with the zero offset written `+00:00`. Which time it shows is not
/// stated.
#[verifier::external_body]
fn now_rfc3339() -> (res: String)
    ensures
        is_utc_rfc3339(res@),
{
    chrono::Utc::now().to_rfc3339()
}

/// The record of a new change stamped at `now`: the input's fields, stage
/// draft whatever stage the input names, no id yet.
pub fn gmud_model_at(input: CreateGmudDto, now: String) -> (res: GmudModel)
    ensures
        res.id is None,
        res.title@ == input.title@,
        res.project_id@ == input.project_id@,
        res.spring@ == input.spring@,
        res.gmud_type@ == input.gmud_type@,
        res.gmud_number@ == input.gmud_number@,
        res.developer@ == input.developer@,
        res.approver@ == input.approver@,
        res.status == GmudStatus::Draft,
        res.created_at@ == now@,
        res.updated_at@ == now@,
{
    let created_at = now.clone();
    GmudModel {
        id: None,
        title: input.title,
        project_id: input.project_id,
        spring: input.spring,
        gmud_type: input.gmud_type,
        gmud_number: input.gmud_number,
        developer: input.developer,
        approver: input.approver,
        status: GmudStatus::Draft,
        created_at,
        updated_at: now,
    }
}

/// The record of a new change, validated and stamped with the clock; its
/// creation and update stamps are the same reading.
pub fn new_gmud_model(input: CreateGmudDto) -> (res: Result<GmudModel, ApiError>)
    ensures
        res is Ok <==> create_gmud_valid(&input),
        match res {
            Ok(m) => {
                &&& m.id is None
                &&& m.title@ == input.title@
                &&& m.project_id@ == input.project_id@
                &&& m.spring@ == input.spring@
                &&& m.gmud_type@ == input.gmud_type@
                &&& m.gmud_number@ == input.gmud_number@
                &&& m.developer@ == input.developer@
                &&& m.approver@ == input.approver@
                &&& m.status == GmudStatus::Draft
                &&& m.created_at@ == m.updated_at@
                &&& is_utc_rfc3339(m.created_at@)
            },
            Err(e) => e is Validation,
        },
{
    validate_create_gmud(&input)?;
    let now = now_rfc3339();
    Ok(gmud_model_at(input, now))
}

impl GmudResponseDto {
    /// How the API shows a stored change: its id as lowercase hexadecimal
    /// (empty when it has none) and its fields.
    pub fn from_model(m: &GmudModel) -> (res: GmudResponseDto)
        ensures
            res.id@ == id_text(m.id),
            res.title@ == m.title@,
            res.project_id@ == m.project_id@,
            res.spring@ == m.spring@,
            res.gmud_type@ == m.gmud_type@,
            res.gmud_number@ == m.gmud_number@,
            res.developer@ == m.developer@,
            res.approver@ == m.approver@,
            res.status == m.status,
            res.created_at@ == m.created_at@,
            res.updated_at@ == m.updated_at@,
    {
        GmudResponseDto {
            id: id_to_text(m.id),
            title: m.title.clone(),
            project_id: m.project_id.clone(),
            spring: m.spring.clone(),
            gmud_type: m.gmud_type.clone(),
            gmud_number: m.gmud_number.clone(),
            developer: m.developer.clone(),
            approver: m.approver.clone(),
            status: m.status,
            created_at: m.created_at.clone(),
            updated_at: m.updated_at.clone(),
        }
    }
}

/// Whether `d` shows the stored change `m`.
pub open spec fn shows(d: &GmudResponseDto, m: &GmudModel) -> bool {
    &&& d.id@ == id_text(m.id)
    &&& d.title@ == m.title@
    &&& d.project_id@ == m.project_id@
    &&& d.spring@ == m.spring@
    &&& d.gmud_type@ == m.gmud_type@
    &&& d.gmud_number@ == m.gmud_number@
    &&& d.developer@ == m.developer@
    &&& d.approver@ == m.approver@
    &&& d.status == m.status
    &&& d.created_at@ == m.created_at@
    &&& d.updated_at@ == m.updated_at@
}

/// The refusal given when no change has the id asked for.
pub open spec fn gmud_not_found_error() -> ErrorView {
    ErrorView::NotFound("gmud nao encontrada"@)
}

/// The answer to a lookup by id, from what the store gave.
pub fn gmud_found(found: Option<GmudModel>) -> (res: Result<GmudResponseDto, ApiError>)
    ensures
        match found {
            Some(m) => res matches Ok(d) && shows(&d, &m),
            None => res matches Err(e) && e@ == gmud_not_found_error(),
        },
{
    match found {
        Some(m) => Ok(GmudResponseDto::from_model(&m)),
        None => Err(ApiError::NotFound(owned("gmud nao encontrada"))),
    }
}

/// The answer to a deletion, from the number of records the store removed.
pub fn delete_outcome(deleted_count: u64) -> (res: Result<(), ApiError>)
    ensures
        res is Ok <==> deleted_count > 0,
        res matches Err(e) ==> e@ == gmud_not_found_error(),
{
    if deleted_count == 0 {
        return Err(ApiError::NotFound(owned("gmud nao encontrada")));
    }
    Ok(())
}

} // verus!

verus! {

/// A text-valued field of a BSON document: its key and value.
#[derive(Debug)]
pub struct DocField {
    pub key: String,
    pub value: String,
}

/// The view of a document's fields as (key, value) pairs in order.
pub open spec fn doc_view(d: Seq<DocField>) -> Seq<(Seq<char>, Seq<char>)> {
    d.map_values(|f: DocField| (f.key@, f.value@))
}

/// The pair for an optional field: one pair when present, none otherwise.
pub open spec fn opt_pair(key: Seq<char>, value: Option<String>) -> Seq<(Seq<char>, Seq<char>)> {
    match value {
        Some(v) => seq![(key, v@)],
        None => Seq::empty(),
    }
}

/// The fields an update sets, in this order: title, project, spring, type,
/// number, developer, approver, stage (stored by its name).
pub open spec fn update_pairs(input: &UpdateGmudDto) -> Seq<(Seq<char>, Seq<char>)> {
    opt_pair("title"@, input.title) + opt_pair("project_id"@, input.project_id) + opt_pair(
        "spring"@,
        input.spring,
    ) + opt_pair("gmud_type"@, input.gmud_type) + opt_pair("gmud_number"@, input.gmud_number)
        + opt_pair("developer"@, input.developer) + opt_pair("approver"@, input.approver) + match input.status {
        Some(s) => seq![("status"@, status_name_spec(s))],
        None => Seq::empty(),
    }
}

/// An optional field's pair holds exactly what the field holds, under the
/// field's key.
pub proof fn lemma_opt_pair_contains(key: Seq<char>, value: Option<String>, x: (Seq<char>, Seq<char>))
    ensures
        opt_pair(key, value).contains(x) <==> (value matches Some(v) && x == (key, v@)),
{
    if value is Some {
        assert(opt_pair(key, value)[0] == (key, value->0@));
    }
}

/// A pair lies in two joined lists exactly when it lies in one of them.
pub proof fn lemma_concat_contains<A>(a: Seq<A>, b: Seq<A>, x: A)
    ensures
        (a + b).contains(x) <==> a.contains(x) || b.contains(x),
{
    if (a + b).contains(x) {
        let i = choose|i: int| 0 <= i < (a + b).len() && (a + b)[i] == x;
        if i < a.len() {
            assert(a[i] == x);
        } else {
            assert(b[i - a.len()] == x);
        }
    }
    if a.contains(x) {
        let i = choose|i: int| 0 <= i < a.len() && a[i] == x;
        assert((a + b)[i] == x);
    }
    if b.contains(x) {
        let i = choose|i: int| 0 <= i < b.len() && b[i] == x;
        assert((a + b)[a.len() + i] == x);
    }
}

/// Each field an update sets is written under its own name with the value
/// the input gives it: the `$set` pairs hold `(name, v)` exactly when the
/// input's field of that name is `Some(v)`, for every field of the change.
pub proof fn lemma_update_pairs_keep_fields(input: &UpdateGmudDto, v: Seq<char>)
    ensures
        update_pairs(input).contains(("title"@, v)) <==> (input.title matches Some(t) && t@ == v),
        update_pairs(input).contains(("project_id"@, v)) <==> (input.project_id matches Some(t) && t@
            == v),
        update_pairs(input).contains(("spring"@, v)) <==> (input.spring matches Some(t) && t@ == v),
        update_pairs(input).contains(("gmud_type"@, v)) <==> (input.gmud_type matches Some(t) && t@
            == v),
        update_pairs(input).contains(("gmud_number"@, v)) <==> (input.gmud_number matches Some(t) && t@
            == v),
        update_pairs(input).contains(("developer"@, v)) <==> (input.developer matches Some(t) && t@
            == v),
        update_pairs(input).contains(("approver"@, v)) <==> (input.approver matches Some(t) && t@
            == v),
        update_pairs(input).contains(("status"@, v)) <==> (input.status matches Some(st) && status_name_spec(st) == v),
{
    reveal_strlit("title");
    reveal_strlit("project_id");
    reveal_strlit("spring");
    reveal_strlit("gmud_type");
    reveal_strlit("gmud_number");
    reveal_strlit("developer");
    reveal_strlit("approver");
    reveal_strlit("status");
    assert("title"@.len() != "project_id"@.len());
    assert("title"@.len() != "spring"@.len());
    assert("title"@.len() != "gmud_type"@.len());
    assert("title"@.len() != "gmud_number"@.len());
    assert("title"@.len() != "developer"@.len());
    assert("title"@.len() != "approver"@.len());
    assert("title"@.len() != "status"@.len());
    assert("project_id"@.len() != "spring"@.len());
    assert("project_id"@.len() != "gmud_type"@.len());
    assert("project_id"@.len() != "gmud_number"@.len());
    assert("project_id"@.len() != "developer"@.len());
    assert("project_id"@.len() != "approver"@.len());
    assert("project_id"@.len() != "status"@.len());
    assert("gmud_type"@[0] != "developer"@[0]);
    assert("spring"@[1] != "status"@[1]);
    lemma_update_pairs_pieces(input, ("title"@, v));
    lemma_update_pairs_pieces(input, ("project_id"@, v));
    lemma_update_pairs_pieces(input, ("spring"@, v));
    lemma_update_pairs_pieces(input, ("gmud_type"@, v));
    lemma_update_pairs_pieces(input, ("gmud_number"@, v));
    lemma_update_pairs_pieces(input, ("developer"@, v));
    lemma_update_pairs_pieces(input, ("approver"@, v));
    lemma_update_pairs_pieces(input, ("status"@, v));
}

/// A pair lies in the `$set` pairs exactly when it is the pair of one of
/// the fields the input sets.
proof fn lemma_update_pairs_pieces(input: &UpdateGmudDto, x: (Seq<char>, Seq<char>))
    ensures
        update_pairs(input).contains(x) <==> {
            ||| (input.title matches Some(t) && x == ("title"@, t@))
            ||| (input.project_id matches Some(t) && x == ("project_id"@, t@))
            ||| (input.spring matches Some(t) && x == ("spring"@, t@))
            ||| (input.gmud_type matches Some(t) && x == ("gmud_type"@, t@))
            ||| (input.gmud_number matches Some(t) && x == ("gmud_number"@, t@))
            ||| (input.developer matches Some(t) && x == ("developer"@, t@))
            ||| (input.approver matches Some(t) && x == ("approver"@, t@))
            ||| (input.status matches Some(st) && x == ("status"@, status_name_spec(st)))
        },
{
    let p1 = opt_pair("title"@, input.title);
    let p2 = opt_pair("project_id"@, input.project_id);
    let p3 = opt_pair("spring"@, input.spring);
    let p4 = opt_pair("gmud_type"@, input.gmud_type);
    let p5 = opt_pair("gmud_number"@, input.gmud_number);
    let p6 = opt_pair("developer"@, input.developer);
    let p7 = opt_pair("approver"@, input.approver);
    let p8: Seq<(Seq<char>, Seq<char>)> = match input.status {
        Some(st) => seq![("status"@, status_name_spec(st))],
        None => Seq::empty(),
    };
    lemma_concat_contains(p1, p2, x);
    lemma_concat_contains(p1 + p2, p3, x);
    lemma_concat_contains(p1 + p2 + p3, p4, x);
    lemma_concat_contains(p1 + p2 + p3 + p4, p5, x);
    lemma_concat_contains(p1 + p2 + p3 + p4 + p5, p6, x);
    lemma_concat_contains(p1 + p2 + p3 + p4 + p5 + p6, p7, x);
    lemma_concat_contains(p1 + p2 + p3 + p4 + p5 + p6 + p7, p8, x);
    lemma_opt_pair_contains("title"@, input.title, x);
    lemma_opt_pair_contains("project_id"@, input.project_id, x);
    lemma_opt_pair_contains("spring"@, input.spring, x);
    lemma_opt_pair_contains("gmud_type"@, input.gmud_type, x);
    lemma_opt_pair_contains("gmud_number"@, input.gmud_number, x);
    lemma_opt_pair_contains("developer"@, input.developer, x);
    lemma_opt_pair_contains("approver"@, input.approver, x);
    if input.status is Some {
        assert(p8[0] == ("status"@, status_name_spec(input.status->0)));
    }
}

/// The refusal given to an update that sets nothing.
pub open spec fn empty_update_error() -> ErrorView {
    ErrorView::Validation("nenhum campo enviado para atualizacao"@)
}

fn push_field(doc: &mut Vec<DocField>, key: &str, value: String)
    ensures
        doc_view(final(doc)@) == doc_view(old(doc)@).push((key@, value@)),
{
    let ghost before = doc@;
    doc.push(DocField { key: owned(key), value });
    proof {
        assert(doc_view(doc@) =~= doc_view(before).push((key@, value@)));
    }
}

fn push_opt_field(doc: &mut Vec<DocField>, key: &str, value: Option<String>)
    ensures
        doc_view(final(doc)@) == doc_view(old(doc)@) + opt_pair(key@, value),
{
    match value {
        Some(v) => {
            push_field(doc, key, v);
            proof {
                assert(doc_view(old(doc)@).push((key@, v@)) =~= doc_view(old(doc)@) + seq![(key@, v@)]);
            }
        },
        None => {
            proof {
                assert(doc_view(doc@) =~= doc_view(doc@) + Seq::<(Seq<char>, Seq<char>)>::empty());
            }
        },
    }
}

/// The `$set` document of an update stamped at `now`: the fields it sets
/// (see [`update_pairs`]) followed by `updated_at`. An update that sets
/// nothing is refused.
pub fn build_update_doc_at(input: UpdateGmudDto, now: String) -> (res: Result<Vec<DocField>, ApiError>)
    ensures
        update_pairs(&input).len() == 0 ==> (res matches Err(e) && e@ == empty_update_error()),
        update_pairs(&input).len() > 0 ==> (res matches Ok(d) && doc_view(d@) == update_pairs(
            &input,
        ).push(("updated_at"@, now@))),
{
    let ghost pairs = update_pairs(&input);
    let mut doc: Vec<DocField> = Vec::new();
    proof {
        assert(doc_view(doc@) =~= Seq::<(Seq<char>, Seq<char>)>::empty());
    }
    push_opt_field(&mut doc, "title", input.title);
    push_opt_field(&mut doc, "project_id", input.project_id);
    push_opt_field(&mut doc, "spring", input.spring);
    push_opt_field(&mut doc, "gmud_type", input.gmud_type);
    push_opt_field(&mut doc, "gmud_number", input.gmud_number);
    push_opt_field(&mut doc, "developer", input.developer);
    push_opt_field(&mut doc, "approver", input.approver);
    match input.status {
        Some(s) => push_field(&mut doc, "status", owned(s.name())),
        None => {},
    }
    proof {
        let st: Seq<(Seq<char>, Seq<char>)> = match input.status {
            Some(s) => seq![("status"@, status_name_spec(s))],
            None => Seq::empty(),
        };
        assert(doc_view(doc@) =~= pairs);
    }
    if doc.len() == 0 {
        return Err(ApiError::validation("nenhum campo enviado para atualizacao"));
    }
    push_field(&mut doc, "updated_at", now);
    Ok(doc)
}

/// The `$set` document of an update, stamped with the clock.
pub fn build_update_doc(input: UpdateGmudDto) -> (res: Result<Vec<DocField>, ApiError>)
    ensures
        update_pairs(&input).len() == 0 ==> (res matches Err(e) && e@ == empty_update_error()),
        update_pairs(&input).len() > 0 ==> (res matches Ok(d) && doc_view(d@).len() == update_pairs(
            &input,
        ).len() + 1 && doc_view(d@).take(update_pairs(&input).len() as int) == update_pairs(&input)
            && d@.last().key@ == "updated_at"@ && is_utc_rfc3339(d@.last().value@)),
{
    let now = now_rfc3339();
    let res = build_update_doc_at(input, now);
    proof {
        if update_pairs(&input).len() > 0 {
            let d = res->Ok_0;
            assert(doc_view(d@).take(update_pairs(&input).len() as int) =~= update_pairs(&input));
            assert(doc_view(d@).last() == ("updated_at"@, now@));
        }
    }
    res
}

/// What an update needs before it reaches the store: the input checked,
/// then the id read, then the `$set` document built; the first failure is
/// returned.
pub fn prepare_update(id: &str, input: UpdateGmudDto) -> (res: Result<
    (ObjectIdBytes, Vec<DocField>),
    ApiError,
>)
    ensures
        !update_gmud_valid(&input) ==> (res matches Err(e) && e is Validation),
        update_gmud_valid(&input) && !object_id_text_ok(id@) ==> (res matches Err(e) && e@
            == ErrorView::BadRequest("id invalido"@)),
        update_gmud_valid(&input) && object_id_text_ok(id@) && update_pairs(&input).len() == 0 ==> (
        res matches Err(e) && e@ == empty_update_error()),
        update_gmud_valid(&input) && object_id_text_ok(id@) && update_pairs(&input).len() > 0 ==> (
        res matches Ok(p) && p.0@ == object_id_bytes(id@) && doc_view(p.1@).take(
            update_pairs(&input).len() as int,
        ) == update_pairs(&input) && doc_view(p.1@).len() == update_pairs(&input).len() + 1),
{
    validate_update_gmud(&input)?;
    let object_id = parse_object_id(id)?;
    let doc = build_update_doc(input)?;
    Ok((object_id, doc))
}

} // verus!

verus! {

/// The direction of a listing's order.
#[derive(Clone, Copy, PartialEq, Eq, Structural, Debug)]
pub enum SortOrder {
    Asc,
    Desc,
}

/// The query of a listing.
#[derive(Debug)]
pub struct ListGmudsQueryDto {
    pub page: Option<u64>,
    pub limit: Option<u64>,
    pub status: Option<GmudStatus>,
    pub project_id: Option<String>,
    pub sort_by: Option<String>,
    pub sort_order: Option<SortOrder>,
}

/// The order of a listing: a stored field and 1 (ascending) or -1.
#[derive(Debug)]
pub struct SortSpec {
    pub field: String,
    pub direction: i32,
}

/// How the store is asked for one page of a listing.
#[derive(Debug)]
pub struct ListPlan {
    pub page: u64,
    pub limit: u64,
    pub skip: u64,
    pub filter: Vec<DocField>,
    pub sort: SortSpec,
}

/// One page of a listing.
#[derive(Debug)]
pub struct GmudListResponseDto {
    pub items: Vec<GmudResponseDto>,
    pub page: u64,
    pub limit: u64,
    pub total_items: u64,
    pub total_pages: u64,
}

/// The page asked for: 1 when absent, at least 1.
pub open spec fn page_of(q: &ListGmudsQueryDto) -> u64 {
    match q.page {
        Some(p) => if p < 1 {
            1
        } else {
            p
        },
        None => 1,
    }
}

/// The page size asked for: 10 when absent, held between 1 and 100.
pub open spec fn limit_of(q: &ListGmudsQueryDto) -> u64 {
    match q.limit {
        Some(l) => if l < 1 {
            1
        } else if l > 100 {
            100
        } else {
            l
        },
        None => 10,
    }
}

/// The refusal given to a blank project filter.
pub open spec fn blank_project_error() -> ErrorView {
    ErrorView::Validation("projectId nao pode ser vazio"@)
}

/// The filter of a listing: the stage by its name, then the project trimmed;
/// a project that is blank after trimming is refused.
pub open spec fn filter_pairs(q: &ListGmudsQueryDto) -> Result<Seq<(Seq<char>, Seq<char>)>, ErrorView> {
    let st: Seq<(Seq<char>, Seq<char>)> = match q.status {
        Some(s) => seq![("status"@, status_name_spec(s))],
        None => Seq::empty(),
    };
    match q.project_id {
        Some(p) => if trim_ws(p@).len() == 0 {
            Err(blank_project_error())
        } else {
            Ok(st.push(("project_id"@, trim_ws(p@))))
        },
        None => Ok(st),
    }
}

/// The stored field a listing is ordered by: `title`, `project_id`,
/// `status`, `created_at` or `updated_at`, each also asked for by its camel
/// case name; `created_at` for any other or no name.
pub open spec fn sort_field_of(sort_by: Option<String>) -> Seq<char> {
    match sort_by {
        Some(s) => if s@ == "title"@ {
            "title"@
        } else if s@ == "projectId"@ || s@ == "project_id"@ {
            "project_id"@
        } else if s@ == "status"@ {
            "status"@
        } else if s@ == "createdAt"@ || s@ == "created_at"@ {
            "created_at"@
        } else if s@ == "updatedAt"@ || s@ == "updated_at"@ {
            "updated_at"@
        } else {
            "created_at"@
        },
        None => "created_at"@,
    }
}

/// Ascending only when asked for; descending otherwise.
pub open spec fn sort_direction_of(order: Option<SortOrder>) -> i32 {
    match order {
        Some(SortOrder::Asc) => 1i32,
        _ => -1i32,
    }
}

/// The filter of a listing.
pub fn build_list_filter(query: &ListGmudsQueryDto) -> (res: Result<Vec<DocField>, ApiError>)
    ensures
        match filter_pairs(query) {
            Ok(p) => res matches Ok(d) && doc_view(d@) == p,
            Err(e) => res matches Err(x) && x@ == e,
        },
{
    let mut filter: Vec<DocField> = Vec::new();
    proof {
        assert(doc_view(filter@) =~= Seq::<(Seq<char>, Seq<char>)>::empty());
    }
    match query.status {
        Some(s) => push_field(&mut filter, "status", owned(s.name())),
        None => {},
    }
    proof {
        let st: Seq<(Seq<char>, Seq<char>)> = match query.status {
            Some(s) => seq![("status"@, status_name_spec(s))],
            None => Seq::empty(),
        };
        assert(doc_view(filter@) =~= st);
    }
    match &query.project_id {
        Some(p) => {
            let trimmed = trim(p.as_str());
            if trimmed.unicode_len() == 0 {
                return Err(ApiError::validation("projectId nao pode ser vazio"));
            }
            push_field(&mut filter, "project_id", owned(trimmed));
        },
        None => {},
    }
    Ok(filter)
}

/// The order of a listing.
pub fn build_sort_doc(query: &ListGmudsQueryDto) -> (res: SortSpec)
    ensures
        res.field@ == sort_field_of(query.sort_by),
        res.direction == sort_direction_of(query.sort_order),
{
    let field = match &query.sort_by {
        Some(s) => {
            let s = s.as_str();
            if text_eq(s, "title") {
                "title"
            } else if text_eq(s, "projectId") || text_eq(s, "project_id") {
                "project_id"
            } else if text_eq(s, "status") {
                "status"
            } else if text_eq(s, "createdAt") || text_eq(s, "created_at") {
                "created_at"
            } else if text_eq(s, "updatedAt") || text_eq(s, "updated_at") {
                "updated_at"
            } else {
                "created_at"
            }
        },
        None => "created_at",
    };
    let direction: i32 = match query.sort_order {
        Some(SortOrder::Asc) => 1,
        _ => -1,
    };
    SortSpec { field: owned(field), direction }
}

/// The page and page size a listing asks for (see [`page_of`],
/// [`limit_of`]).
pub fn page_window(query: &ListGmudsQueryDto) -> (res: (u64, u64))
    ensures
        res.0 == page_of(query),
        res.1 == limit_of(query),
        query.limit matches Some(l) ==> (1 <= l <= 100 ==> res.1 == l),
        query.limit matches Some(l) && l > 100 ==> res.1 == 100,
        query.limit matches Some(l) && l < 1 ==> res.1 == 1,
        query.limit is None ==> res.1 == 10,
        query.page matches Some(p) ==> (p >= 1 ==> res.0 == p),
        !(query.page matches Some(p) && p >= 1) ==> res.0 == 1,
{
    let page: u64 = match query.page {
        Some(p) => if p < 1 {
            1
        } else {
            p
        },
        None => 1,
    };
    let limit: u64 = match query.limit {
        Some(l) => if l < 1 {
            1
        } else if l > 100 {
            100
        } else {
            l
        },
        None => 10,
    };
    (page, limit)
}

/// Whether the offset of the page a listing asks for fits in a `u64`.
pub fn skip_fits(query: &ListGmudsQueryDto) -> (res: bool)
    ensures
        res == ((page_of(query) - 1) * limit_of(query) <= u64::MAX),
{
    let (page, limit) = page_window(query);
    (page - 1).checked_mul(limit).is_some()
}

/// How a listing asks the store for its page: the page and size asked for
/// (see [`page_of`], [`limit_of`]), the records before the page skipped,
/// its filter and order. The offset must fit in a `u64`.
pub fn list_plan(query: &ListGmudsQueryDto) -> (res: Result<ListPlan, ApiError>)
    requires
        (page_of(query) - 1) * limit_of(query) <= u64::MAX,
    ensures
        match filter_pairs(query) {
            Ok(p) => res matches Ok(plan) && {
                &&& plan.page == page_of(query)
                &&& plan.limit == limit_of(query)
                &&& plan.skip == (page_of(query) - 1) * limit_of(query)
                &&& doc_view(plan.filter@) == p
                &&& plan.sort.field@ == sort_field_of(query.sort_by)
                &&& plan.sort.direction == sort_direction_of(query.sort_order)
            },
            Err(e) => res matches Err(x) && x@ == e,
        },
        res matches Ok(plan) ==> (query.limit matches Some(l) ==> (1 <= l <= 100 ==> plan.limit == l
            && plan.skip == (plan.page - 1) * l)),
        res matches Ok(plan) ==> (query.limit is None ==> plan.limit == 10),
{
    let (page, limit) = page_window(query);
    let skip = (page - 1) * limit;
    let filter = build_list_filter(query)?;
    let sort = build_sort_doc(query);
    Ok(ListPlan { page, limit, skip, filter, sort })
}

/// A listing always asks for a page of at least 1 and a size between 1 and
/// 100.
pub proof fn lemma_page_window_bounds(q: &ListGmudsQueryDto)
    ensures
        page_of(q) >= 1,
        1 <= limit_of(q) <= 100,
{
}

/// The page size of a listing is the size asked for when it lies between 1
/// and 100, 100 above that, 1 below, and 10 when none is asked; the page is
/// the one asked for when it is at least 1, else the first.
pub proof fn lemma_page_window_follows_query(q: &ListGmudsQueryDto)
    ensures
        q.limit matches Some(l) ==> (1 <= l <= 100 ==> limit_of(q) == l),
        q.limit matches Some(l) && l > 100 ==> limit_of(q) == 100,
        q.limit matches Some(l) && l < 1 ==> limit_of(q) == 1,
        q.limit is None ==> limit_of(q) == 10,
        q.page matches Some(p) ==> (p >= 1 ==> page_of(q) == p),
        !(q.page matches Some(p) && p >= 1) ==> page_of(q) == 1,
{
}

/// Number of pages of `limit` records that hold `total` records.
pub open spec fn pages_for(total: u64, limit: u64) -> int {
    if total == 0 {
        0
    } else {
        (total - 1) / (limit as int) + 1
    }
}

/// The page of a listing, from the records the store gave and their total.
pub fn list_response(page: u64, limit: u64, total_items: u64, rows: &Vec<GmudModel>) -> (res:
    GmudListResponseDto)
    requires
        limit >= 1,
    ensures
        res.page == page,
        res.limit == limit,
        res.total_items == total_items,
        res.total_pages == pages_for(total_items, limit),
        res.items@.len() == rows@.len(),
        forall|i: int| 0 <= i < rows@.len() ==> shows(&(#[trigger] res.items@[i]), &rows@[i]),
{
    let total_pages = if total_items == 0 {
        0
    } else {
        (total_items - 1) / limit + 1
    };
    let mut items: Vec<GmudResponseDto> = Vec::new();
    let mut i: usize = 0;
    while i < rows.len()
        invariant
            i <= rows@.len(),
            items@.len() == i,
            forall|j: int| 0 <= j < i ==> shows(&(#[trigger] items@[j]), &rows@[j]),
        decreases rows@.len() - i,
    {
        items.push(GmudResponseDto::from_model(&rows[i]));
        i = i + 1;
    }
    GmudListResponseDto { items, page, limit, total_items, total_pages }
}

/// The pages of a listing hold its records exactly: every record falls on
/// one of them, and the last page is not empty.
pub proof fn lemma_pages_cover(total: u64, limit: u64)
    requires
        limit >= 1,
    ensures
        pages_for(total, limit) * limit >= total,
        total > 0 ==> (pages_for(total, limit) - 1) * limit < total,
        total == 0 <==> pages_for(total, limit) == 0,
{
    if total > 0 {
        let q = (total - 1) / (limit as int);
        let r = (total - 1) % (limit as int);
        assert(total - 1 == q * limit + r && 0 <= r < limit) by (nonlinear_arith)
            requires
                limit >= 1,
                q == (total - 1) / (limit as int),
                r == (total - 1) % (limit as int),
        ;
        assert((q + 1) * limit == q * limit + limit) by (nonlinear_arith);
        assert(q >= 0) by (nonlinear_arith)
            requires
                q == (total - 1) / (limit as int),
                total >= 1,
                limit >= 1,
        ;
    }
}

} // verus!
