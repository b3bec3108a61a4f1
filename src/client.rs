use vstd::prelude::*;

use crate::error::{ClientError, ValidationKind};
use crate::fields::{
    distinct_names, has_duplicates, in_scope, name_seq, project_fields, Field, Schema,
};
use crate::query::{GetQuery, ListQuery, QueryParam};
use crate::update::{
    batch_problem, validate_batch, BatchRecord, UpdateMethod, UpdateMultipleRecordsPayload,
    UpdateRecordPayload,
};

verus! {

/// A record as the remote store returns it.
#[derive(Debug, Clone)]
pub struct Record {
    /// Assigned by the store; empty only before the record is created.
    pub id: String,
    pub fields: Vec<Field>,
    pub created_time: Option<String>,
}

/// One page of a list operation and the cursor of the next, if any.
#[derive(Debug, Clone)]
pub struct Page {
    pub records: Vec<Record>,
    pub offset: Option<String>,
}

/// HTTP verbs used by the records client.
#[derive(Debug, Clone, Copy, PartialEq, Eq, Structural)]
pub enum HttpMethod {
    Get,
    Post,
    Patch,
    Put,
    Delete,
}

/// The JSON body of a request.
#[derive(Debug, Clone)]
pub enum RequestBody {
    /// `{ fields: {...} }`
    Single { fields: Vec<Field> },
    /// `{ records: [{ id, fields }, ...], typecast }`
    Batch { records: Vec<BatchRecord>, typecast: Option<bool> },
}

/// Everything needed to send one request: verb, path segments below the
/// API root (`base`, `table`, then the record id if any), query parameters
/// and body.
#[derive(Debug, Clone)]
pub struct RequestPlan {
    pub method: HttpMethod,
    pub path: Vec<String>,
    pub params: Vec<QueryParam>,
    pub body: Option<RequestBody>,
}

/// The HTTP verb that carries an update with the given method.
pub open spec fn update_verb(method: UpdateMethod) -> HttpMethod {
    match method {
        UpdateMethod::Patch => HttpMethod::Patch,
        UpdateMethod::Put => HttpMethod::Put,
    }
}

pub fn http_method_for(method: UpdateMethod) -> (r: HttpMethod)
    ensures
        r == update_verb(method),
{
    match method {
        UpdateMethod::Patch => HttpMethod::Patch,
        UpdateMethod::Put => HttpMethod::Put,
    }
}

fn table_path(base: &String, table: &String) -> (r: Vec<String>)
    ensures
        r@ == seq![*base, *table],
{
    let mut r: Vec<String> = Vec::new();
    r.push(base.clone());
    r.push(table.clone());
    r
}

fn record_path(base: &String, table: &String, record_id: &String) -> (r: Vec<String>)
    ensures
        r@ == seq![*base, *table, *record_id],
{
    let mut r = table_path(base, table);
    r.push(record_id.clone());
    r
}

fn field_params(fields: &Vec<String>) -> (r: Vec<QueryParam>)
    ensures
        r@ == fields@.map_values(|f: String| QueryParam::Field(f)),
{
    let mut r: Vec<QueryParam> = Vec::new();
    let mut i: usize = 0;
    while i < fields.len()
        invariant
            i <= fields.len(),
            r@ == fields@.subrange(0, i as int).map_values(|f: String| QueryParam::Field(f)),
        decreases fields.len() - i,
    {
        r.push(QueryParam::Field(fields[i].clone()));
        assert(fields@.subrange(0, i + 1) =~= fields@.subrange(0, i as int).push(fields@[i as int]));
        assert(r@ =~= fields@.subrange(0, i + 1).map_values(|f: String| QueryParam::Field(f)));
        i = i + 1;
    }
    assert(fields@.subrange(0, fields@.len() as int) =~= fields@);
    r
}

/// GET `/{base}/{table}` with the parameters of `query`, or none.
pub fn plan_list_records(base: &String, table: &String, query: Option<&ListQuery>) -> (r: RequestPlan)
    ensures
        r.method == HttpMethod::Get,
        r.path@ == seq![*base, *table],
        r.params@ == match query {
            Some(q) => q.param_spec(),
            None => Seq::<QueryParam>::empty(),
        },
        r.body is None,
{
    let params = match query {
        Some(q) => q.params(),
        None => Vec::new(),
    };
    RequestPlan { method: HttpMethod::Get, path: table_path(base, table), params, body: None }
}

/// GET `/{base}/{table}/{record_id}`, asking for the fields of `query`.
/// An empty id is rejected before anything is sent.
pub fn plan_get_record(base: &String, table: &String, record_id: &String, query: Option<&GetQuery>) -> (r:
    Result<RequestPlan, ClientError>)
    ensures
        r is Ok <==> record_id@.len() != 0,
        r matches Err(e) ==> e == ClientError::Validation(ValidationKind::EmptyRecordId),
        r matches Ok(p) ==> {
            &&& p.method == HttpMethod::Get
            &&& p.path@ == seq![*base, *table, *record_id]
            &&& p.params@ == match query {
                Some(q) => q.fields@.map_values(|f: String| QueryParam::Field(f)),
                None => Seq::<QueryParam>::empty(),
            }
            &&& p.body is None
        },
{
    if record_id.as_str().is_empty() {
        return Err(ClientError::Validation(ValidationKind::EmptyRecordId));
    }
    let params = match query {
        Some(q) => field_params(&q.fields),
        None => Vec::new(),
    };
    Ok(RequestPlan { method: HttpMethod::Get, path: record_path(base, table, record_id), params, body: None })
}

/// PATCH or PUT `/{base}/{table}/{record_id}` with `{ fields }`.
/// An empty id is rejected before anything is sent.
pub fn plan_update_record(
    base: &String,
    table: &String,
    record_id: &String,
    payload: UpdateRecordPayload,
    method: UpdateMethod,
) -> (r: Result<RequestPlan, ClientError>)
    ensures
        r is Ok <==> record_id@.len() != 0,
        r matches Err(e) ==> e == ClientError::Validation(ValidationKind::EmptyRecordId),
        r matches Ok(p) ==> {
            &&& p.method == update_verb(method)
            &&& p.path@ == seq![*base, *table, *record_id]
            &&& p.params@.len() == 0
            &&& p.body == Some(RequestBody::Single { fields: payload.fields })
        },
{
    if record_id.as_str().is_empty() {
        return Err(ClientError::Validation(ValidationKind::EmptyRecordId));
    }
    Ok(
        RequestPlan {
            method: http_method_for(method),
            path: record_path(base, table, record_id),
            params: Vec::new(),
            body: Some(RequestBody::Single { fields: payload.fields }),
        },
    )
}

/// One PATCH or PUT `/{base}/{table}` carrying the whole batch. A batch
/// with a local problem is rejected before anything is sent.
pub fn plan_update_multiple_records(
    base: &String,
    table: &String,
    payload: UpdateMultipleRecordsPayload,
    method: UpdateMethod,
) -> (r: Result<RequestPlan, ClientError>)
    ensures
        r is Ok <==> batch_problem(payload.records@) is None,
        r matches Err(e) ==> e == ClientError::Validation(batch_problem(payload.records@)->0),
        r matches Ok(p) ==> {
            &&& p.method == update_verb(method)
            &&& p.path@ == seq![*base, *table]
            &&& p.params@.len() == 0
            &&& p.body == Some(
                RequestBody::Batch { records: payload.records, typecast: payload.typecast },
            )
        },
{
    if let Some(k) = validate_batch(&payload.records) {
        return Err(ClientError::Validation(k));
    }
    Ok(
        RequestPlan {
            method: http_method_for(method),
            path: table_path(base, table),
            params: Vec::new(),
            body: Some(
                RequestBody::Batch { records: payload.records, typecast: payload.typecast },
            ),
        },
    )
}

/// POST `/{base}/{table}` with `{ fields }`; the store assigns the id.
pub fn plan_create_record(base: &String, table: &String, payload: UpdateRecordPayload) -> (r:
    RequestPlan)
    ensures
        r.method == HttpMethod::Post,
        r.path@ == seq![*base, *table],
        r.params@.len() == 0,
        r.body == Some(RequestBody::Single { fields: payload.fields }),
{
    RequestPlan {
        method: HttpMethod::Post,
        path: table_path(base, table),
        params: Vec::new(),
        body: Some(RequestBody::Single { fields: payload.fields }),
    }
}

/// DELETE `/{base}/{table}/{record_id}`. An empty id is rejected before
/// anything is sent.
pub fn plan_delete_record(base: &String, table: &String, record_id: &String) -> (r: Result<
    RequestPlan,
    ClientError,
>)
    ensures
        r is Ok <==> record_id@.len() != 0,
        r matches Err(e) ==> e == ClientError::Validation(ValidationKind::EmptyRecordId),
        r matches Ok(p) ==> {
            &&& p.method == HttpMethod::Delete
            &&& p.path@ == seq![*base, *table, *record_id]
            &&& p.params@.len() == 0
            &&& p.body is None
        },
{
    if record_id.as_str().is_empty() {
        return Err(ClientError::Validation(ValidationKind::EmptyRecordId));
    }
    Ok(
        RequestPlan {
            method: HttpMethod::Delete,
            path: record_path(base, table, record_id),
            params: Vec::new(),
            body: None,
        },
    )
}

/// The field names a list response is scoped to: those the query asks
/// for, or every declared field when it asks for none.
pub open spec fn list_scope(query: Option<&ListQuery>, schema: Schema) -> Seq<Seq<char>> {
    match query {
        Some(q) => if q.fields@.len() > 0 {
            name_seq(q.fields@)
        } else {
            schema.name_view()
        },
        None => schema.name_view(),
    }
}

/// The page as the caller sees it: records in server order, each with only
/// the fields in scope, and the cursor of the next page.
pub fn finish_list_records(query: Option<&ListQuery>, schema: &Schema, page: Page) -> (r: Page)
    ensures
        r.offset == page.offset,
        r.records@.len() == page.records@.len(),
        forall|i: int|
            0 <= i < r.records@.len() ==> {
                &&& (#[trigger] r.records@[i]).id == page.records@[i].id
                &&& r.records@[i].created_time == page.records@[i].created_time
                &&& r.records@[i].fields@ == page.records@[i].fields@.filter(
                    in_scope(list_scope(query, *schema)),
                )
            },
{
    let scope: &Vec<String> = match query {
        Some(q) => if q.fields.len() > 0 {
            &q.fields
        } else {
            &schema.names
        },
        None => &schema.names,
    };
    let ghost sc = name_seq(scope@);
    assert(sc == list_scope(query, *schema));
    let mut records: Vec<Record> = Vec::new();
    let mut i: usize = 0;
    while i < page.records.len()
        invariant
            i <= page.records.len(),
            sc == name_seq(scope@),
            records@.len() == i,
            forall|j: int|
                0 <= j < i ==> {
                    &&& (#[trigger] records@[j]).id == page.records@[j].id
                    &&& records@[j].created_time == page.records@[j].created_time
                    &&& records@[j].fields@ == page.records@[j].fields@.filter(in_scope(sc))
                },
        decreases page.records.len() - i,
    {
        let rec = &page.records[i];
        let created_time = match &rec.created_time {
            Some(t) => Some(t.clone()),
            None => None,
        };
        records.push(
            Record { id: rec.id.clone(), fields: project_fields(&rec.fields, scope), created_time },
        );
        i = i + 1;
    }
    Page { records, offset: page.offset }
}

/// The record a get or a single update returned, or
/// `InconsistentResponse` when it is not the record that was asked for.
pub fn finish_record(record_id: &String, record: Record) -> (r: Result<Record, ClientError>)
    ensures
        r is Ok <==> record.id@ == record_id@,
        r matches Ok(v) ==> v == record,
        r matches Err(e) ==> e == ClientError::InconsistentResponse,
{
    if record.id == *record_id {
        Ok(record)
    } else {
        Err(ClientError::InconsistentResponse)
    }
}

/// The record a create returned, or `InconsistentResponse` when the store
/// assigned it no id.
pub fn finish_create_record(record: Record) -> (r: Result<Record, ClientError>)
    ensures
        r is Ok <==> record.id@.len() > 0,
        r matches Ok(v) ==> v == record,
        r matches Err(e) ==> e == ClientError::InconsistentResponse,
{
    if record.id.as_str().is_empty() {
        Err(ClientError::InconsistentResponse)
    } else {
        Ok(record)
    }
}

/// Checks a delete confirmation: it must name the record and say it was
/// deleted.
pub fn finish_delete_record(record_id: &String, confirmed_id: &String, deleted: bool) -> (r: Result<
    (),
    ClientError,
>)
    ensures
        r is Ok <==> deleted && confirmed_id@ == record_id@,
        r matches Err(e) ==> e == ClientError::InconsistentResponse,
{
    if deleted && *confirmed_id == *record_id {
        Ok(())
    } else {
        Err(ClientError::InconsistentResponse)
    }
}

/// Whether each returned record answers the entry at the same position of
/// the batch.
pub open spec fn batch_matches(sent: Seq<BatchRecord>, got: Seq<Record>) -> bool {
    &&& got.len() == sent.len()
    &&& forall|i: int| 0 <= i < got.len() ==> (#[trigger] got[i]).id@ == sent[i].id@
}

/// The records a batch update returned, or `InconsistentResponse` when
/// they do not answer the batch entry by entry, in order.
pub fn finish_update_multiple_records(payload: &UpdateMultipleRecordsPayload, records: Vec<Record>) -> (r:
    Result<Vec<Record>, ClientError>)
    ensures
        r is Ok <==> batch_matches(payload.records@, records@),
        r matches Ok(v) ==> v@ == records@,
        r matches Err(e) ==> e == ClientError::InconsistentResponse,
        payload.wf() && r is Ok ==> forall|i: int|
            0 <= i < records@.len() ==> (#[trigger] records@[i]).id@.len() > 0,
{
    if records.len() != payload.records.len() {
        return Err(ClientError::InconsistentResponse);
    }
    let mut i: usize = 0;
    while i < records.len()
        invariant
            i <= records.len(),
            records.len() == payload.records.len(),
            forall|j: int| 0 <= j < i ==> (#[trigger] records@[j]).id@ == payload.records@[j].id@,
        decreases records.len() - i,
    {
        if records[i].id != payload.records[i].id {
            return Err(ClientError::InconsistentResponse);
        }
        i = i + 1;
    }
    proof {
        if payload.wf() {
            assert forall|j: int| 0 <= j < records@.len() implies (#[trigger] records@[j]).id@.len()
                > 0 by {
                if records@[j].id@.len() == 0 {
                    assert(payload.records@[j].id@.len() == 0);
                }
            }
        }
    }
    Ok(records)
}

/// The ids of a record sequence, in order.
pub open spec fn record_ids(s: Seq<Record>) -> Seq<Seq<char>> {
    s.map_values(|r: Record| r.id@)
}

/// The records gathered after one more page, unless an id would repeat.
pub open spec fn absorb_spec(gathered: Seq<Record>, page: Seq<Record>) -> Option<Seq<Record>> {
    if distinct_names(record_ids(gathered + page)) {
        Some(gathered + page)
    } else {
        None
    }
}

/// The pages one after another.
pub open spec fn concat_pages(pages: Seq<Seq<Record>>) -> Seq<Record>
    decreases pages.len(),
{
    if pages.len() == 0 {
        Seq::empty()
    } else {
        pages[0] + concat_pages(pages.drop_first())
    }
}

/// The records gathered after each of `pages` in turn, or `None` once an
/// id repeats.
pub open spec fn absorb_all(gathered: Seq<Record>, pages: Seq<Seq<Record>>) -> Option<Seq<Record>>
    decreases pages.len(),
{
    if pages.len() == 0 {
        Some(gathered)
    } else {
        match absorb_spec(gathered, pages[0]) {
            Some(g) => absorb_all(g, pages.drop_first()),
            None => None,
        }
    }
}

proof fn lemma_distinct_prefix(a: Seq<Record>, b: Seq<Record>)
    requires
        distinct_names(record_ids(a + b)),
    ensures
        distinct_names(record_ids(a)),
{
    assert forall|i: int, j: int|
        0 <= i < record_ids(a).len() && 0 <= j < record_ids(a).len() && i != j implies record_ids(
        a,
    )[i] != record_ids(a)[j] by {
        assert(record_ids(a + b)[i] == record_ids(a)[i]);
        assert(record_ids(a + b)[j] == record_ids(a)[j]);
    }
}

/// Following the cursor page by page over a listing whose pages hold no id
/// twice gathers every record of every page, once each and in order.
pub proof fn lemma_pagination_gathers_all(gathered: Seq<Record>, pages: Seq<Seq<Record>>)
    requires
        distinct_names(record_ids(gathered + concat_pages(pages))),
    ensures
        absorb_all(gathered, pages) == Some(gathered + concat_pages(pages)),
    decreases pages.len(),
{
    if pages.len() == 0 {
        assert(gathered + concat_pages(pages) =~= gathered);
    } else {
        let rest = pages.drop_first();
        assert(gathered + concat_pages(pages) =~= (gathered + pages[0]) + concat_pages(rest));
        lemma_distinct_prefix(gathered + pages[0], concat_pages(rest));
        lemma_pagination_gathers_all(gathered + pages[0], rest);
    }
}

/// The state of a paginated read: what has been gathered and where to go on.
#[derive(Debug, Clone)]
pub struct Listing {
    pub records: Vec<Record>,
    pub offset: Option<String>,
    /// Whether a first page has been absorbed.
    pub started: bool,
}

fn push_ids(ids: &mut Vec<String>, records: &Vec<Record>)
    ensures
        name_seq(final(ids)@) == name_seq(old(ids)@) + record_ids(records@),
{
    let ghost start = name_seq(ids@);
    let mut i: usize = 0;
    while i < records.len()
        invariant
            i <= records.len(),
            name_seq(ids@) == start + record_ids(records@.subrange(0, i as int)),
        decreases records.len() - i,
    {
        let ghost before = ids@;
        ids.push(records[i].id.clone());
        assert(ids@ == before.push(records@[i as int].id));
        assert(name_seq(ids@) =~= name_seq(before).push(records@[i as int].id@));
        assert(records@.subrange(0, i + 1) =~= records@.subrange(0, i as int).push(records@[i as int]));
        assert(record_ids(records@.subrange(0, i + 1)) =~= record_ids(records@.subrange(0, i as int)).push(
            records@[i as int].id@,
        ));
        assert(name_seq(ids@) =~= start + record_ids(records@.subrange(0, i + 1)));
        i = i + 1;
    }
    assert(records@.subrange(0, records@.len() as int) =~= records@);
}

impl Listing {
    /// No id has been gathered twice.
    pub open spec fn wf(&self) -> bool {
        distinct_names(record_ids(self.records@))
    }

    pub fn new() -> (r: Listing)
        ensures
            r.records@.len() == 0,
            r.offset is None,
            !r.started,
            r.wf(),
    {
        Listing { records: Vec::new(), offset: None, started: false }
    }

    /// Whether the last page absorbed carried no cursor.
    pub fn is_complete(&self) -> (r: bool)
        ensures
            r == (self.started && self.offset is None),
    {
        self.started && self.offset.is_none()
    }

    /// Adds one page. A page that would repeat an id is a detectable
    /// inconsistency: it is reported and nothing changes.
    pub fn absorb(&mut self, page: Page) -> (r: Result<(), ClientError>)
        ensures
            r is Ok <==> absorb_spec(old(self).records@, page.records@) is Some,
            r is Ok ==> {
                &&& final(self).records@ == absorb_spec(old(self).records@, page.records@)->0
                &&& final(self).offset == page.offset
                &&& final(self).started
            },
            r matches Err(e) ==> e == ClientError::InconsistentResponse && *final(self) == *old(self),
            old(self).wf() || r is Ok ==> final(self).wf(),
    {
        let mut ids: Vec<String> = Vec::new();
        push_ids(&mut ids, &self.records);
        push_ids(&mut ids, &page.records);
        assert(name_seq(ids@) =~= record_ids(self.records@ + page.records@));
        if has_duplicates(&ids) {
            return Err(ClientError::InconsistentResponse);
        }
        let mut incoming = page.records;
        self.records.append(&mut incoming);
        self.offset = page.offset;
        self.started = true;
        Ok(())
    }

    /// The query for the next page, or `None` when no cursor remains.
    pub fn next_query(&self, query: &ListQuery) -> (r: Option<ListQuery>)
        ensures
            r is Some <==> self.offset is Some,
            r matches Some(q) ==> {
                &&& q.fields@ == query.fields@
                &&& q.view == query.view
                &&& q.filter == query.filter
                &&& q.sort@ == query.sort@
                &&& q.page_size == query.page_size
                &&& q.offset == self.offset
            },
    {
        match &self.offset {
            Some(t) => Some(query.with_offset(t.clone())),
            None => None,
        }
    }
}

} // verus!
