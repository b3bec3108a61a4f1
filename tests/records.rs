use scipio_airtable::client::{
    finish_create_record, finish_delete_record, finish_list_records, finish_record,
    finish_update_multiple_records, plan_create_record, plan_delete_record,
    plan_get_record, plan_list_records, plan_update_multiple_records, plan_update_record,
    HttpMethod, Listing, Page, Record, RequestBody,
};
use scipio_airtable::error::{ClientError, ValidationKind};
use scipio_airtable::fields::{Field, Schema};
use scipio_airtable::query::{
    GetRecordQueryBuilder, ListRecordsQueryBuilder, QueryParam, SortDirection, SortKey,
};
use scipio_airtable::update::{
    apply_update, BatchRecord, UpdateMethod, UpdateMultipleRecordsPayload, UpdateRecordPayload,
};

fn s(v: &str) -> String {
    v.to_string()
}

fn field(name: &str, value: &str) -> Field {
    Field { name: s(name), value: s(value) }
}

fn customer_schema() -> Schema {
    Schema::new(vec![s("Name"), s("Email")]).unwrap()
}

fn record(id: &str, fields: Vec<Field>) -> Record {
    Record { id: s(id), fields, created_time: Some(s("2024-01-01T00:00:00.000Z")) }
}

fn pairs(fields: &[Field]) -> Vec<(String, String)> {
    fields.iter().map(|f| (f.name.clone(), f.value.clone())).collect()
}

fn expect_validation(r: Result<impl std::fmt::Debug, ClientError>, kind: ValidationKind) {
    match r {
        Err(ClientError::Validation(k)) => assert_eq!(k, kind),
        other => panic!("expected a validation error, got {:?}", other),
    }
}

#[test]
fn test_list_records() {
    let schema = customer_schema();
    let query = ListRecordsQueryBuilder::default()
        .fields(schema.names.clone())
        .view(s("Grid view"))
        .schema(schema.clone())
        .build()
        .unwrap();
    let plan = plan_list_records(&s("appBase"), &s("tblCustomers"), Some(&query));
    assert_eq!(plan.method, HttpMethod::Get);
    assert_eq!(plan.path, vec![s("appBase"), s("tblCustomers")]);
    assert!(plan.body.is_none());
    assert_eq!(plan.params.len(), 3);
    assert!(matches!(&plan.params[0], QueryParam::Field(f) if f == "Name"));
    assert!(matches!(&plan.params[1], QueryParam::Field(f) if f == "Email"));
    assert!(matches!(&plan.params[2], QueryParam::View(v) if v == "Grid view"));

    let page = Page {
        records: vec![
            record("rec1", vec![field("Name", "\"Ada\""), field("Secret", "1")]),
            record("rec2", vec![field("Email", "\"b@x.com\"")]),
        ],
        offset: Some(s("itr1/rec2")),
    };
    let out = finish_list_records(Some(&query), &schema, page);
    assert_eq!(out.offset.as_deref(), Some("itr1/rec2"));
    assert_eq!(out.records.len(), 2);
    assert_eq!(out.records[0].id, "rec1");
    assert_eq!(pairs(&out.records[0].fields), vec![(s("Name"), s("\"Ada\""))]);
    assert_eq!(pairs(&out.records[1].fields), vec![(s("Email"), s("\"b@x.com\""))]);
}

#[test]
fn list_scope_is_requested_subset() {
    let schema = customer_schema();
    let query = ListRecordsQueryBuilder::new().fields(vec![s("Email")]).build().unwrap();
    let page = Page {
        records: vec![record("rec1", vec![field("Name", "\"A\""), field("Email", "\"a@x.com\"")])],
        offset: None,
    };
    let out = finish_list_records(Some(&query), &schema, page.clone());
    assert_eq!(pairs(&out.records[0].fields), vec![(s("Email"), s("\"a@x.com\""))]);
    let all = finish_list_records(None, &schema, page);
    assert_eq!(all.records[0].fields.len(), 2);
    assert_eq!(all.records[0].created_time.as_deref(), Some("2024-01-01T00:00:00.000Z"));
}

#[test]
fn list_without_query_has_no_params() {
    let plan = plan_list_records(&s("b"), &s("t"), None);
    assert!(plan.params.is_empty());
}

#[test]
fn list_params_in_wire_order() {
    let query = ListRecordsQueryBuilder::new()
        .fields(vec![s("Name")])
        .filter(s("{Name} = 'A'"))
        .sort(vec![SortKey { field: s("Name"), direction: SortDirection::Desc }])
        .page_size(50)
        .offset(s("itr2"))
        .view(s("v"))
        .build()
        .unwrap();
    let params = query.params();
    assert_eq!(params.len(), 6);
    assert!(matches!(&params[0], QueryParam::Field(f) if f == "Name"));
    assert!(matches!(&params[1], QueryParam::View(v) if v == "v"));
    assert!(matches!(&params[2], QueryParam::Filter(v) if v == "{Name} = 'A'"));
    assert!(matches!(&params[3], QueryParam::Sort(k) if k.field == "Name" && k.direction == SortDirection::Desc));
    assert!(matches!(&params[4], QueryParam::PageSize(50)));
    assert!(matches!(&params[5], QueryParam::Offset(v) if v == "itr2"));
}

#[test]
fn builder_rejects_unknown_field() {
    let r = ListRecordsQueryBuilder::new()
        .fields(vec![s("Name"), s("Phone")])
        .schema(customer_schema())
        .build();
    expect_validation(r, ValidationKind::UnknownField);
}

#[test]
fn builder_accepts_unknown_field_without_schema() {
    let r = ListRecordsQueryBuilder::new().fields(vec![s("Phone")]).build();
    assert!(r.is_ok());
}

#[test]
fn builder_rejects_repeated_field() {
    let r = ListRecordsQueryBuilder::new().fields(vec![s("Name"), s("Name")]).build();
    expect_validation(r, ValidationKind::DuplicateFieldName);
    let r = GetRecordQueryBuilder::new().fields(vec![s("Email"), s("Email")]).build();
    expect_validation(r, ValidationKind::DuplicateFieldName);
}

#[test]
fn builder_checks_page_size() {
    expect_validation(ListRecordsQueryBuilder::new().page_size(0).build(), ValidationKind::PageSizeOutOfRange);
    expect_validation(ListRecordsQueryBuilder::new().page_size(101).build(), ValidationKind::PageSizeOutOfRange);
    assert_eq!(ListRecordsQueryBuilder::new().page_size(100).build().unwrap().page_size, Some(100));
}

#[test]
fn builder_is_reusable_after_build() {
    let b = ListRecordsQueryBuilder::new().view(s("v"));
    let q1 = b.build().unwrap();
    let q2 = b.build().unwrap();
    assert_eq!(q1.view, q2.view);
}

#[test]
fn get_builder_checks_schema() {
    let r = GetRecordQueryBuilder::default().fields(vec![s("Phone")]).schema(customer_schema()).build();
    expect_validation(r, ValidationKind::UnknownField);
    let q = GetRecordQueryBuilder::default().fields(vec![s("Name")]).schema(customer_schema()).build();
    assert_eq!(q.unwrap().fields, vec![s("Name")]);
}

#[test]
fn schema_rejects_repeated_name() {
    expect_validation(Schema::new(vec![s("A"), s("B"), s("A")]), ValidationKind::DuplicateFieldName);
    assert!(Schema::new(vec![]).is_ok());
}

#[test]
fn test_get_record() {
    let query = GetRecordQueryBuilder::default().build().unwrap();
    let plan = plan_get_record(&s("appBase"), &s("tbl"), &s("rec42"), Some(&query)).unwrap();
    assert_eq!(plan.method, HttpMethod::Get);
    assert_eq!(plan.path, vec![s("appBase"), s("tbl"), s("rec42")]);
    assert!(plan.params.is_empty());
    expect_validation(plan_get_record(&s("appBase"), &s("tbl"), &s(""), Some(&query)), ValidationKind::EmptyRecordId);
}

#[test]
fn get_record_params_carry_fields() {
    let query = GetRecordQueryBuilder::new().fields(vec![s("Email")]).build().unwrap();
    let plan = plan_get_record(&s("b"), &s("t"), &s("rec1"), Some(&query)).unwrap();
    assert_eq!(plan.params.len(), 1);
    assert!(matches!(&plan.params[0], QueryParam::Field(f) if f == "Email"));
}

#[test]
fn records_test_update_record() {
    let payload = UpdateRecordPayload::new(vec![field("Name", "\"Updated Test Customer\"")]).unwrap();
    let patch = plan_update_record(&s("b"), &s("t"), &s("rec1"), payload.clone(), UpdateMethod::Patch).unwrap();
    assert_eq!(patch.method, HttpMethod::Patch);
    assert_eq!(patch.path, vec![s("b"), s("t"), s("rec1")]);
    match patch.body {
        Some(RequestBody::Single { fields }) => {
            assert_eq!(pairs(&fields), vec![(s("Name"), s("\"Updated Test Customer\""))])
        }
        other => panic!("unexpected body {:?}", other),
    }
    let put = plan_update_record(&s("b"), &s("t"), &s("rec1"), payload.clone(), UpdateMethod::Put).unwrap();
    assert_eq!(put.method, HttpMethod::Put);
    expect_validation(
        plan_update_record(&s("b"), &s("t"), &s(""), payload, UpdateMethod::Put),
        ValidationKind::EmptyRecordId,
    );
}

#[test]
fn patch_merges_and_put_replaces() {
    let stored = vec![field("name", "\"A\""), field("email", "\"a@x.com\"")];
    let supplied = vec![field("name", "\"B\"")];
    let patched = apply_update(&stored, &supplied, UpdateMethod::Patch);
    assert_eq!(pairs(&patched), vec![(s("email"), s("\"a@x.com\"")), (s("name"), s("\"B\""))]);
    let put = apply_update(&stored, &supplied, UpdateMethod::Put);
    assert_eq!(pairs(&put), vec![(s("name"), s("\"B\""))]);
}

#[test]
fn put_with_no_fields_clears_record() {
    let stored = vec![field("name", "\"A\"")];
    let payload = UpdateRecordPayload::new(vec![]).unwrap();
    assert!(apply_update(&stored, &payload.fields, UpdateMethod::Put).is_empty());
    assert_eq!(apply_update(&stored, &payload.fields, UpdateMethod::Patch).len(), 1);
}

#[test]
fn payload_rejects_repeated_field() {
    let r = UpdateRecordPayload::new(vec![field("a", "1"), field("a", "2")]);
    expect_validation(r, ValidationKind::DuplicateFieldName);
}

fn batch_entry(id: &str, name: &str) -> BatchRecord {
    BatchRecord { id: s(id), fields: vec![field("Name", name)] }
}

#[test]
fn test_update_multiple_records() {
    let payload = UpdateMultipleRecordsPayload::new(
        vec![batch_entry("rec1", "\"Batch Update Customer 1\""), batch_entry("rec2", "\"Batch Update Customer 2\"")],
        Some(false),
    )
    .unwrap();
    let plan = plan_update_multiple_records(&s("b"), &s("t"), payload.clone(), UpdateMethod::Patch).unwrap();
    assert_eq!(plan.method, HttpMethod::Patch);
    assert_eq!(plan.path, vec![s("b"), s("t")]);
    match &plan.body {
        Some(RequestBody::Batch { records, typecast }) => {
            assert_eq!(records.len(), 2);
            assert_eq!(*typecast, Some(false));
        }
        other => panic!("unexpected body {:?}", other),
    }
    let put = plan_update_multiple_records(&s("b"), &s("t"), payload.clone(), UpdateMethod::Put).unwrap();
    assert_eq!(put.method, HttpMethod::Put);

    let response = vec![
        record("rec1", vec![field("Name", "\"Batch Update Customer 1\"")]),
        record("rec2", vec![field("Name", "\"Batch Update Customer 2\"")]),
    ];
    let out = finish_update_multiple_records(&payload, response).unwrap();
    assert_eq!(out.len(), 2);
    assert!(out[0].id.len() > 0);
    assert!(out[1].id.len() > 0);
    assert_eq!(out[0].fields[0].value, "\"Batch Update Customer 1\"");
    assert_eq!(out[1].fields[0].value, "\"Batch Update Customer 2\"");
}

#[test]
fn batch_response_out_of_order_is_reported() {
    let payload = UpdateMultipleRecordsPayload::new(vec![batch_entry("rec1", "1"), batch_entry("rec2", "2")], None).unwrap();
    let swapped = vec![record("rec2", vec![]), record("rec1", vec![])];
    assert!(matches!(finish_update_multiple_records(&payload, swapped), Err(ClientError::InconsistentResponse)));
    let short = vec![record("rec1", vec![])];
    assert!(matches!(finish_update_multiple_records(&payload, short), Err(ClientError::InconsistentResponse)));
}

#[test]
fn batch_validation() {
    let eleven: Vec<BatchRecord> = (0..11).map(|i| batch_entry(&format!("rec{}", i), "1")).collect();
    expect_validation(UpdateMultipleRecordsPayload::new(eleven, None), ValidationKind::BatchTooLarge);
    let ten: Vec<BatchRecord> = (0..10).map(|i| batch_entry(&format!("rec{}", i), "1")).collect();
    assert!(UpdateMultipleRecordsPayload::new(ten, None).is_ok());
    expect_validation(
        UpdateMultipleRecordsPayload::new(vec![batch_entry("rec1", "1"), batch_entry("", "2")], None),
        ValidationKind::EmptyRecordId,
    );
    let dup = BatchRecord { id: s("rec1"), fields: vec![field("a", "1"), field("a", "2")] };
    expect_validation(UpdateMultipleRecordsPayload::new(vec![dup], None), ValidationKind::DuplicateFieldName);
    let raw = UpdateMultipleRecordsPayload { records: vec![batch_entry("", "1")], typecast: None };
    expect_validation(plan_update_multiple_records(&s("b"), &s("t"), raw, UpdateMethod::Patch), ValidationKind::EmptyRecordId);
}

#[test]
fn create_and_delete_plans() {
    let payload = UpdateRecordPayload::new(vec![field("Name", "\"New\"")]).unwrap();
    let create = plan_create_record(&s("b"), &s("t"), payload);
    assert_eq!(create.method, HttpMethod::Post);
    assert_eq!(create.path, vec![s("b"), s("t")]);
    let delete = plan_delete_record(&s("b"), &s("t"), &s("rec9")).unwrap();
    assert_eq!(delete.method, HttpMethod::Delete);
    assert_eq!(delete.path, vec![s("b"), s("t"), s("rec9")]);
    expect_validation(plan_delete_record(&s("b"), &s("t"), &s("")), ValidationKind::EmptyRecordId);
}

#[test]
fn pagination_gathers_every_record_once() {
    let query = ListRecordsQueryBuilder::new().page_size(2).build().unwrap();
    let mut listing = Listing::new();
    assert!(!listing.is_complete());
    listing
        .absorb(Page { records: vec![record("rec1", vec![]), record("rec2", vec![])], offset: Some(s("itr/rec2")) })
        .unwrap();
    assert!(!listing.is_complete());
    let next = listing.next_query(&query).unwrap();
    assert_eq!(next.offset.as_deref(), Some("itr/rec2"));
    assert_eq!(next.page_size, Some(2));
    listing.absorb(Page { records: vec![record("rec3", vec![])], offset: None }).unwrap();
    assert!(listing.is_complete());
    assert!(listing.next_query(&query).is_none());
    let ids: Vec<&str> = listing.records.iter().map(|r| r.id.as_str()).collect();
    assert_eq!(ids, vec!["rec1", "rec2", "rec3"]);
}

#[test]
fn pagination_reports_repeated_record() {
    let mut listing = Listing::new();
    listing.absorb(Page { records: vec![record("rec1", vec![])], offset: Some(s("o")) }).unwrap();
    let r = listing.absorb(Page { records: vec![record("rec1", vec![])], offset: None });
    assert!(matches!(r, Err(ClientError::InconsistentResponse)));
    assert_eq!(listing.records.len(), 1);
    assert_eq!(listing.offset.as_deref(), Some("o"));
}

struct Customer;

impl scipio_airtable::fields::FieldMapper for Customer {
    fn field_names() -> Vec<String> {
        vec![s("Name"), s("Email")]
    }
}

struct Broken;

impl scipio_airtable::fields::FieldMapper for Broken {
    fn field_names() -> Vec<String> {
        vec![s("Name"), s("Name")]
    }
}

#[test]
fn schema_from_record_type() {
    assert_eq!(Schema::of::<Customer>().unwrap().names, vec![s("Name"), s("Email")]);
    expect_validation(Schema::of::<Broken>(), ValidationKind::DuplicateFieldName);
}

#[test]
fn single_record_responses_are_checked() {
    let got = finish_record(&s("rec1"), record("rec1", vec![field("Name", "\"A\"")])).unwrap();
    assert_eq!(got.id, "rec1");
    assert_eq!(got.fields.len(), 1);
    assert!(matches!(finish_record(&s("rec1"), record("rec2", vec![])), Err(ClientError::InconsistentResponse)));
    assert_eq!(finish_create_record(record("recNew", vec![])).unwrap().id, "recNew");
    assert!(matches!(finish_create_record(record("", vec![])), Err(ClientError::InconsistentResponse)));
    assert!(finish_delete_record(&s("rec1"), &s("rec1"), true).is_ok());
    assert!(matches!(finish_delete_record(&s("rec1"), &s("rec1"), false), Err(ClientError::InconsistentResponse)));
    assert!(matches!(finish_delete_record(&s("rec1"), &s("rec2"), true), Err(ClientError::InconsistentResponse)));
}
