use vstd::prelude::*;

use crate::error::{ClientError, ValidationKind};
use crate::fields::{
    distinct_names, field_names, has_duplicate_field, has_field_named, has_name,
    holds, Field,
};

verus! {

broadcast use vstd::seq_lib::group_seq_properties;

/// The most records one batch request may carry.
pub const MAX_BATCH_RECORDS: usize = 10;

/// How an update is applied by the remote store.
#[derive(Debug, Clone, Copy, PartialEq, Eq, Structural)]
pub enum UpdateMethod {
    /// Merge the supplied fields into the stored record.
    Patch,
    /// Replace the stored field set with the supplied fields.
    Put,
}

/// The fields sent in a single-record update; the id travels separately.
#[derive(Debug, Clone)]
pub struct UpdateRecordPayload {
    pub fields: Vec<Field>,
}

/// One entry of a batch update: the record's id and its fields.
#[derive(Debug, Clone)]
pub struct BatchRecord {
    pub id: String,
    pub fields: Vec<Field>,
}

/// A batch update: ordered entries and the optional type-coercion flag.
#[derive(Debug, Clone)]
pub struct UpdateMultipleRecordsPayload {
    pub records: Vec<BatchRecord>,
    pub typecast: Option<bool>,
}

/// The first local problem with a batch, in the order the checks run.
pub open spec fn batch_problem(records: Seq<BatchRecord>) -> Option<ValidationKind> {
    if records.len() > MAX_BATCH_RECORDS {
        Some(ValidationKind::BatchTooLarge)
    } else if exists|i: int| 0 <= i < records.len() && records[i].id@.len() == 0 {
        Some(ValidationKind::EmptyRecordId)
    } else if exists|i: int|
        0 <= i < records.len() && !distinct_names(field_names(records[i].fields@)) {
        Some(ValidationKind::DuplicateFieldName)
    } else {
        None
    }
}

/// The first local problem with a batch, if any.
pub fn validate_batch(records: &Vec<BatchRecord>) -> (r: Option<ValidationKind>)
    ensures
        r == batch_problem(records@),
{
    if records.len() > MAX_BATCH_RECORDS {
        return Some(ValidationKind::BatchTooLarge);
    }
    let mut i: usize = 0;
    while i < records.len()
        invariant
            i <= records.len(),
            records.len() <= MAX_BATCH_RECORDS,
            forall|j: int| 0 <= j < i ==> records@[j].id@.len() != 0,
        decreases records.len() - i,
    {
        if records[i].id.as_str().is_empty() {
            assert(records@[i as int].id@.len() == 0);
            return Some(ValidationKind::EmptyRecordId);
        }
        i = i + 1;
    }
    let mut i: usize = 0;
    while i < records.len()
        invariant
            i <= records.len(),
            records.len() <= MAX_BATCH_RECORDS,
            forall|j: int| 0 <= j < records.len() ==> records@[j].id@.len() != 0,
            forall|j: int| 0 <= j < i ==> distinct_names(field_names(records@[j].fields@)),
        decreases records.len() - i,
    {
        if has_duplicate_field(&records[i].fields) {
            assert(!distinct_names(field_names(records@[i as int].fields@)));
            return Some(ValidationKind::DuplicateFieldName);
        }
        i = i + 1;
    }
    None
}

impl UpdateRecordPayload {
    /// No two supplied fields share a name.
    pub open spec fn wf(&self) -> bool {
        distinct_names(field_names(self.fields@))
    }

    /// A payload over `fields`; an empty set is allowed (under Put it clears
    /// the record), a repeated name is not.
    pub fn new(fields: Vec<Field>) -> (r: Result<UpdateRecordPayload, ClientError>)
        ensures
            r is Ok <==> distinct_names(field_names(fields@)),
            r matches Ok(p) ==> p.fields@ == fields@ && p.wf(),
            r matches Err(e) ==> e == ClientError::Validation(ValidationKind::DuplicateFieldName),
    {
        if has_duplicate_field(&fields) {
            Err(ClientError::Validation(ValidationKind::DuplicateFieldName))
        } else {
            Ok(UpdateRecordPayload { fields })
        }
    }
}

impl UpdateMultipleRecordsPayload {
    /// Within the batch ceiling, every id non-empty, no repeated field name.
    pub open spec fn wf(&self) -> bool {
        batch_problem(self.records@) is None
    }

    /// A batch over `records`, checked before anything is sent.
    pub fn new(records: Vec<BatchRecord>, typecast: Option<bool>) -> (r: Result<
        UpdateMultipleRecordsPayload,
        ClientError,
    >)
        ensures
            r is Ok <==> batch_problem(records@) is None,
            r matches Ok(p) ==> p.records@ == records@ && p.typecast == typecast && p.wf(),
            r matches Err(e) ==> e == ClientError::Validation(batch_problem(records@)->0),
    {
        match validate_batch(&records) {
            Some(k) => Err(ClientError::Validation(k)),
            None => Ok(UpdateMultipleRecordsPayload { records, typecast }),
        }
    }
}

/// Holds of a stored field that `supplied` does not name.
pub open spec fn not_supplied(supplied: Seq<Field>) -> spec_fn(Field) -> bool {
    |f: Field| !has_name(supplied, f.name@)
}

/// The field set that the store holds after an update of `current`.
pub open spec fn updated(current: Seq<Field>, supplied: Seq<Field>, method: UpdateMethod) -> Seq<Field> {
    match method {
        UpdateMethod::Patch => current.filter(not_supplied(supplied)) + supplied,
        UpdateMethod::Put => supplied,
    }
}

/// The field set that results from applying `supplied` to `current` with
/// `method`: Patch keeps every stored field that is not supplied, Put keeps
/// only what is supplied (an empty set clears the record).
pub fn apply_update(current: &Vec<Field>, supplied: &Vec<Field>, method: UpdateMethod) -> (r: Vec<Field>)
    ensures
        r@ == updated(current@, supplied@, method),
        distinct_names(field_names(current@)) && distinct_names(field_names(supplied@))
            ==> distinct_names(field_names(r@)),
{
    let ghost keep = not_supplied(supplied@);
    let mut r: Vec<Field> = Vec::new();
    if method == UpdateMethod::Patch {
        let mut i: usize = 0;
        while i < current.len()
            invariant
                i <= current.len(),
                keep == not_supplied(supplied@),
                r@ == current@.subrange(0, i as int).filter(keep),
            decreases current.len() - i,
        {
            let ghost prefix = current@.subrange(0, i as int);
            assert(current@.subrange(0, i + 1) =~= prefix.push(current@[i as int]));
            proof {
                prefix.lemma_filter_push(current@[i as int], keep);
            }
            if !has_field_named(supplied, &current[i].name) {
                assert(keep(current@[i as int]));
                r.push(current[i].duplicate());
            } else {
                assert(!keep(current@[i as int]));
            }
            i = i + 1;
        }
        assert(current@.subrange(0, current@.len() as int) =~= current@);
    }
    let mut j: usize = 0;
    let ghost base = r@;
    while j < supplied.len()
        invariant
            j <= supplied.len(),
            r@ == base + supplied@.subrange(0, j as int),
        decreases supplied.len() - j,
    {
        r.push(supplied[j].duplicate());
        assert(supplied@.subrange(0, j + 1) =~= supplied@.subrange(0, j as int).push(supplied@[j as int]));
        j = j + 1;
    }
    assert(supplied@.subrange(0, supplied@.len() as int) =~= supplied@);
    assert(r@ =~= updated(current@, supplied@, method));
    proof {
        if distinct_names(field_names(current@)) && distinct_names(field_names(supplied@)) {
            lemma_update_keeps_names_distinct(current@, supplied@, method);
        }
    }
    r
}

proof fn lemma_filter_keeps_names_distinct(s: Seq<Field>, keep: spec_fn(Field) -> bool)
    requires
        distinct_names(field_names(s)),
    ensures
        distinct_names(field_names(s.filter(keep))),
        forall|i: int| 0 <= i < s.filter(keep).len() ==> keep(#[trigger] s.filter(keep)[i]),
    decreases s.len(),
{
    reveal(Seq::filter);
    if s.len() > 0 {
        let init = s.drop_last();
        assert forall|a: int, b: int|
            0 <= a < field_names(init).len() && 0 <= b < field_names(init).len() && a != b
            implies field_names(init)[a] != field_names(init)[b] by {
            assert(field_names(s)[a] != field_names(s)[b]);
        }
        lemma_filter_keeps_names_distinct(init, keep);
        let sub = init.filter(keep);
        if keep(s.last()) {
            let r = sub.push(s.last());
            assert forall|a: int, b: int|
                0 <= a < field_names(r).len() && 0 <= b < field_names(r).len() && a != b
                implies field_names(r)[a] != field_names(r)[b] by {
                if a < sub.len() && b < sub.len() {
                    assert(field_names(sub)[a] != field_names(sub)[b]);
                } else {
                    let m = if a < sub.len() { a } else { b };
                    assert(sub.contains(sub[m]));
                    init.lemma_filter_contains_rev(keep, sub[m]);
                    let k = choose|k: int| 0 <= k < init.len() && init[k] == sub[m];
                    assert(field_names(s)[k] != field_names(s)[s.len() - 1]);
                }
            }
        }
    }
}

/// An update of a record whose field names are distinct, with a payload
/// whose field names are distinct, again has distinct field names.
pub proof fn lemma_update_keeps_names_distinct(current: Seq<Field>, supplied: Seq<Field>, method: UpdateMethod)
    requires
        distinct_names(field_names(current)),
        distinct_names(field_names(supplied)),
    ensures
        distinct_names(field_names(updated(current, supplied, method))),
{
    if method == UpdateMethod::Patch {
        let keep = not_supplied(supplied);
        let kept = current.filter(keep);
        lemma_filter_keeps_names_distinct(current, keep);
        let r = kept + supplied;
        assert forall|a: int, b: int|
            0 <= a < field_names(r).len() && 0 <= b < field_names(r).len() && a != b
            implies field_names(r)[a] != field_names(r)[b] by {
            if a < kept.len() && b < kept.len() {
                assert(field_names(kept)[a] != field_names(kept)[b]);
            } else if a >= kept.len() && b >= kept.len() {
                assert(field_names(supplied)[a - kept.len()] != field_names(supplied)[b - kept.len()]);
            } else {
                let (m, n) = if a < kept.len() { (a, b - kept.len()) } else { (b, a - kept.len()) };
                assert(keep(kept[m]));
                if kept[m].name@ == supplied[n].name@ {
                    assert(has_name(supplied, kept[m].name@));
                }
            }
        }
    }
}

/// A Patch that supplies one field sets that field and leaves every other
/// stored field as it was.
pub proof fn lemma_patch_keeps_other_fields(current: Seq<Field>, changed: Field, k: Seq<char>, v: Seq<char>)
    requires
        k != changed.name@,
    ensures
        holds(updated(current, seq![changed], UpdateMethod::Patch), changed.name@, changed.value@),
        holds(updated(current, seq![changed], UpdateMethod::Patch), k, v) <==> holds(current, k, v),
{
    let supplied = seq![changed];
    let keep = not_supplied(supplied);
    let kept = current.filter(keep);
    let r = updated(current, supplied, UpdateMethod::Patch);
    assert(r == kept + supplied);
    assert(r[kept.len() as int] == changed);
    if holds(r, k, v) {
        let i = choose|i: int| 0 <= i < r.len() && r[i].name@ == k && r[i].value@ == v;
        assert(i < kept.len());
        assert(kept.contains(r[i]));
        current.lemma_filter_contains_rev(keep, r[i]);
        let m = choose|m: int| 0 <= m < current.len() && current[m] == r[i];
        assert(current[m].name@ == k && current[m].value@ == v);
    }
    if holds(current, k, v) {
        let m = choose|m: int| 0 <= m < current.len() && current[m].name@ == k && current[m].value@ == v;
        assert(!has_name(supplied, k));
        assert(keep(current[m]));
        current.lemma_filter_contains(keep, m);
        let i = choose|i: int| 0 <= i < kept.len() && kept[i] == current[m];
        assert(r[i] == current[m]);
    }
}

/// A Put that supplies one field leaves no other field stored.
pub proof fn lemma_put_clears_other_fields(current: Seq<Field>, changed: Field, k: Seq<char>)
    ensures
        holds(updated(current, seq![changed], UpdateMethod::Put), changed.name@, changed.value@),
        has_name(updated(current, seq![changed], UpdateMethod::Put), k) <==> k == changed.name@,
{
    let r = updated(current, seq![changed], UpdateMethod::Put);
    assert(r[0] == changed);
}

} // verus!
