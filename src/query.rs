use vstd::prelude::*;

use crate::error::{ClientError, ValidationKind};
use crate::fields::{copy_names, distinct_names, has_duplicates, name_seq, Schema};

verus! {

/// The documented ceiling on the number of records in one page.
pub const MAX_PAGE_SIZE: u32 = 100;

/// Direction of one sort key.
#[derive(Debug, Clone, Copy, PartialEq, Eq, Structural)]
pub enum SortDirection {
    Asc,
    Desc,
}

/// One key of a list ordering.
#[derive(Debug, Clone)]
pub struct SortKey {
    pub field: String,
    pub direction: SortDirection,
}

impl SortKey {
    /// A copy that is equal field by field.
    pub fn duplicate(&self) -> (r: SortKey)
        ensures
            r == *self,
    {
        SortKey { field: self.field.clone(), direction: self.direction }
    }
}

/// The validated parameters of a list operation. An empty `fields` asks for
/// every field.
#[derive(Debug, Clone)]
pub struct ListQuery {
    pub fields: Vec<String>,
    pub view: Option<String>,
    pub filter: Option<String>,
    pub sort: Vec<SortKey>,
    pub page_size: Option<u32>,
    pub offset: Option<String>,
}

/// The validated parameters of a get operation. An empty `fields` asks for
/// every field.
#[derive(Debug, Clone)]
pub struct GetQuery {
    pub fields: Vec<String>,
}

/// One query parameter of a list request, in wire order.
#[derive(Debug, Clone)]
pub enum QueryParam {
    Field(String),
    View(String),
    Filter(String),
    Sort(SortKey),
    PageSize(u32),
    Offset(String),
}

/// Some requested name is not declared by the bound schema.
pub open spec fn names_unknown(names: Seq<String>, schema: Option<Schema>) -> bool {
    schema matches Some(s) && exists|i: int|
        0 <= i < names.len() && !s.name_view().contains(#[trigger] names[i]@)
}

/// The first problem with a field selection, if any.
pub open spec fn selection_problem(names: Seq<String>, schema: Option<Schema>) -> Option<ValidationKind> {
    if !distinct_names(name_seq(names)) {
        Some(ValidationKind::DuplicateFieldName)
    } else if names_unknown(names, schema) {
        Some(ValidationKind::UnknownField)
    } else {
        None
    }
}

/// A page size outside `1..=MAX_PAGE_SIZE`.
pub open spec fn page_size_out_of_range(page_size: Option<u32>) -> bool {
    page_size matches Some(p) && (p == 0 || p > MAX_PAGE_SIZE)
}

/// Whether some of `names` is not declared by `schema`.
fn has_unknown_name(names: &Vec<String>, schema: &Option<Schema>) -> (r: bool)
    ensures
        r == names_unknown(names@, *schema),
{
    match schema {
        None => false,
        Some(s) => {
            let mut i: usize = 0;
            while i < names.len()
                invariant
                    i <= names.len(),
                    *schema == Some(*s),
                    forall|j: int| 0 <= j < i ==> s.name_view().contains(#[trigger] names@[j]@),
                decreases names.len() - i,
            {
                if !s.contains(&names[i]) {
                    assert(!s.name_view().contains(names@[i as int]@));
                    return true;
                }
                i = i + 1;
            }
            false
        },
    }
}

/// The checks shared by both builders: no repeated name, none undeclared.
fn check_selection(names: &Vec<String>, schema: &Option<Schema>) -> (r: Option<ValidationKind>)
    ensures
        r == selection_problem(names@, *schema),
{
    if has_duplicates(names) {
        Some(ValidationKind::DuplicateFieldName)
    } else if has_unknown_name(names, schema) {
        Some(ValidationKind::UnknownField)
    } else {
        None
    }
}

pub(crate) fn copy_opt(s: &Option<String>) -> (r: Option<String>)
    ensures
        r == *s,
{
    match s {
        Some(v) => Some(v.clone()),
        None => None,
    }
}

pub(crate) fn copy_sort(keys: &Vec<SortKey>) -> (r: Vec<SortKey>)
    ensures
        r@ == keys@,
{
    let mut r: Vec<SortKey> = Vec::new();
    let mut i: usize = 0;
    while i < keys.len()
        invariant
            i <= keys.len(),
            r@ == keys@.subrange(0, i as int),
        decreases keys.len() - i,
    {
        r.push(keys[i].duplicate());
        assert(keys@.subrange(0, i + 1) =~= keys@.subrange(0, i as int).push(keys@[i as int]));
        i = i + 1;
    }
    assert(keys@.subrange(0, keys@.len() as int) =~= keys@);
    r
}

/// Collects the parameters of a list operation; `build` checks them.
#[derive(Debug, Clone)]
pub struct ListRecordsQueryBuilder {
    pub fields: Vec<String>,
    pub view: Option<String>,
    pub filter: Option<String>,
    pub sort: Vec<SortKey>,
    pub page_size: Option<u32>,
    pub offset: Option<String>,
    /// The record type the query is bound to, when known.
    pub schema: Option<Schema>,
}

impl ListRecordsQueryBuilder {
    /// Nothing set: every field, no view, filter, ordering or cursor.
    pub open spec fn is_empty(&self) -> bool {
        &&& self.fields@.len() == 0
        &&& self.view is None
        &&& self.filter is None
        &&& self.sort@.len() == 0
        &&& self.page_size is None
        &&& self.offset is None
        &&& self.schema is None
    }

    /// The first problem `build` reports, if any.
    pub open spec fn problem(&self) -> Option<ValidationKind> {
        match selection_problem(self.fields@, self.schema) {
            Some(k) => Some(k),
            None => if page_size_out_of_range(self.page_size) {
                Some(ValidationKind::PageSizeOutOfRange)
            } else {
                None
            },
        }
    }

    pub fn new() -> (r: ListRecordsQueryBuilder)
        ensures
            r.is_empty(),
    {
        ListRecordsQueryBuilder {
            fields: Vec::new(),
            view: None,
            filter: None,
            sort: Vec::new(),
            page_size: None,
            offset: None,
            schema: None,
        }
    }

    pub fn fields(self, fields: Vec<String>) -> (r: ListRecordsQueryBuilder)
        ensures
            r == (ListRecordsQueryBuilder { fields, ..self }),
    {
        ListRecordsQueryBuilder { fields, ..self }
    }

    pub fn view(self, view: String) -> (r: ListRecordsQueryBuilder)
        ensures
            r == (ListRecordsQueryBuilder { view: Some(view), ..self }),
    {
        ListRecordsQueryBuilder { view: Some(view), ..self }
    }

    pub fn filter(self, filter: String) -> (r: ListRecordsQueryBuilder)
        ensures
            r == (ListRecordsQueryBuilder { filter: Some(filter), ..self }),
    {
        ListRecordsQueryBuilder { filter: Some(filter), ..self }
    }

    pub fn sort(self, sort: Vec<SortKey>) -> (r: ListRecordsQueryBuilder)
        ensures
            r == (ListRecordsQueryBuilder { sort, ..self }),
    {
        ListRecordsQueryBuilder { sort, ..self }
    }

    pub fn page_size(self, page_size: u32) -> (r: ListRecordsQueryBuilder)
        ensures
            r == (ListRecordsQueryBuilder { page_size: Some(page_size), ..self }),
    {
        ListRecordsQueryBuilder { page_size: Some(page_size), ..self }
    }

    pub fn offset(self, offset: String) -> (r: ListRecordsQueryBuilder)
        ensures
            r == (ListRecordsQueryBuilder { offset: Some(offset), ..self }),
    {
        ListRecordsQueryBuilder { offset: Some(offset), ..self }
    }

    /// Binds the query to a record type, so that `build` checks field names.
    pub fn schema(self, schema: Schema) -> (r: ListRecordsQueryBuilder)
        ensures
            r == (ListRecordsQueryBuilder { schema: Some(schema), ..self }),
    {
        ListRecordsQueryBuilder { schema: Some(schema), ..self }
    }

    /// The query as set, or the first local problem with it. Nothing is
    /// sent; the builder stays usable.
    pub fn build(&self) -> (r: Result<ListQuery, ClientError>)
        ensures
            r is Ok <==> self.problem() is None,
            r matches Err(e) ==> e == ClientError::Validation(self.problem()->0),
            r matches Ok(q) ==> {
                &&& q.fields@ == self.fields@
                &&& q.view == self.view
                &&& q.filter == self.filter
                &&& q.sort@ == self.sort@
                &&& q.page_size == self.page_size
                &&& q.offset == self.offset
            },
    {
        if let Some(k) = check_selection(&self.fields, &self.schema) {
            return Err(ClientError::Validation(k));
        }
        if let Some(p) = self.page_size {
            if p == 0 || p > MAX_PAGE_SIZE {
                return Err(ClientError::Validation(ValidationKind::PageSizeOutOfRange));
            }
        }
        Ok(
            ListQuery {
                fields: copy_names(&self.fields),
                view: copy_opt(&self.view),
                filter: copy_opt(&self.filter),
                sort: copy_sort(&self.sort),
                page_size: self.page_size,
                offset: copy_opt(&self.offset),
            },
        )
    }
}

/// A list query that names a field the bound record type does not declare
/// is rejected by local validation.
pub proof fn lemma_unknown_field_rejected(b: ListRecordsQueryBuilder, i: int)
    requires
        b.schema is Some,
        0 <= i < b.fields@.len(),
        !b.schema->0.name_view().contains(b.fields@[i]@),
    ensures
        b.problem() matches Some(k) && (k == ValidationKind::UnknownField || k
            == ValidationKind::DuplicateFieldName),
{
    assert(names_unknown(b.fields@, b.schema));
}

impl Default for ListRecordsQueryBuilder {
    fn default() -> (r: ListRecordsQueryBuilder)
        ensures
            r.is_empty(),
    {
        ListRecordsQueryBuilder::new()
    }
}

/// Collects the parameters of a get operation; `build` checks them.
#[derive(Debug, Clone)]
pub struct GetRecordQueryBuilder {
    pub fields: Vec<String>,
    /// The record type the query is bound to, when known.
    pub schema: Option<Schema>,
}

impl GetRecordQueryBuilder {
    pub fn new() -> (r: GetRecordQueryBuilder)
        ensures
            r.fields@.len() == 0,
            r.schema is None,
    {
        GetRecordQueryBuilder { fields: Vec::new(), schema: None }
    }

    pub fn fields(self, fields: Vec<String>) -> (r: GetRecordQueryBuilder)
        ensures
            r.fields == fields,
            r.schema == self.schema,
    {
        GetRecordQueryBuilder { fields, schema: self.schema }
    }

    /// Binds the query to a record type, so that `build` checks field names.
    pub fn schema(self, schema: Schema) -> (r: GetRecordQueryBuilder)
        ensures
            r.fields == self.fields,
            r.schema == Some(schema),
    {
        GetRecordQueryBuilder { fields: self.fields, schema: Some(schema) }
    }

    /// The query as set, or the first local problem with it.
    pub fn build(&self) -> (r: Result<GetQuery, ClientError>)
        ensures
            r is Ok <==> selection_problem(self.fields@, self.schema) is None,
            r matches Err(e) ==> e == ClientError::Validation(
                selection_problem(self.fields@, self.schema)->0,
            ),
            r matches Ok(q) ==> q.fields@ == self.fields@,
    {
        match check_selection(&self.fields, &self.schema) {
            Some(k) => Err(ClientError::Validation(k)),
            None => Ok(GetQuery { fields: copy_names(&self.fields) }),
        }
    }
}

impl Default for GetRecordQueryBuilder {
    fn default() -> (r: GetRecordQueryBuilder)
        ensures
            r.fields@.len() == 0,
            r.schema is None,
    {
        GetRecordQueryBuilder::new()
    }
}

/// An optional parameter as a sequence of zero or one.
pub open spec fn opt_param(v: Option<String>, wrap: spec_fn(String) -> QueryParam) -> Seq<QueryParam> {
    match v {
        Some(x) => seq![wrap(x)],
        None => seq![],
    }
}

impl ListQuery {
    /// The same query, continuing from the cursor `offset`.
    pub fn with_offset(&self, offset: String) -> (r: ListQuery)
        ensures
            r.fields@ == self.fields@,
            r.view == self.view,
            r.filter == self.filter,
            r.sort@ == self.sort@,
            r.page_size == self.page_size,
            r.offset == Some(offset),
    {
        let r = ListQuery {
            fields: copy_names(&self.fields),
            view: copy_opt(&self.view),
            filter: copy_opt(&self.filter),
            sort: copy_sort(&self.sort),
            page_size: self.page_size,
            offset: Some(offset),
        };
        r
    }

    /// The request parameters: each field, the view, the filter, each sort
    /// key, the page size and the cursor, in that order, the absent ones left out.
    pub open spec fn param_spec(&self) -> Seq<QueryParam> {
        self.fields@.map_values(|f: String| QueryParam::Field(f))
            + opt_param(self.view, |v: String| QueryParam::View(v))
            + opt_param(self.filter, |v: String| QueryParam::Filter(v))
            + self.sort@.map_values(|k: SortKey| QueryParam::Sort(k))
            + match self.page_size {
            Some(p) => seq![QueryParam::PageSize(p)],
            None => seq![],
        } + opt_param(self.offset, |v: String| QueryParam::Offset(v))
    }

    /// The query parameters of the list request.
    pub fn params(&self) -> (r: Vec<QueryParam>)
        ensures
            r@ == self.param_spec(),
    {
        let mut r: Vec<QueryParam> = Vec::new();
        let mut i: usize = 0;
        while i < self.fields.len()
            invariant
                i <= self.fields.len(),
                r@ == self.fields@.subrange(0, i as int).map_values(|f: String| QueryParam::Field(f)),
            decreases self.fields.len() - i,
        {
            r.push(QueryParam::Field(self.fields[i].clone()));
            assert(self.fields@.subrange(0, i + 1) =~= self.fields@.subrange(0, i as int).push(
                self.fields@[i as int],
            ));
            assert(r@ =~= self.fields@.subrange(0, i + 1).map_values(|f: String| QueryParam::Field(f)));
            i = i + 1;
        }
        assert(self.fields@.subrange(0, self.fields@.len() as int) =~= self.fields@);
        let ghost s1 = r@;
        if let Some(v) = &self.view {
            r.push(QueryParam::View(v.clone()));
        }
        assert(r@ =~= s1 + opt_param(self.view, |v: String| QueryParam::View(v)));
        let ghost s2 = r@;
        if let Some(v) = &self.filter {
            r.push(QueryParam::Filter(v.clone()));
        }
        assert(r@ =~= s2 + opt_param(self.filter, |v: String| QueryParam::Filter(v)));
        let ghost s3 = r@;
        let mut i: usize = 0;
        while i < self.sort.len()
            invariant
                i <= self.sort.len(),
                r@ == s3 + self.sort@.subrange(0, i as int).map_values(|k: SortKey| QueryParam::Sort(k)),
            decreases self.sort.len() - i,
        {
            r.push(QueryParam::Sort(self.sort[i].duplicate()));
            assert(self.sort@.subrange(0, i + 1) =~= self.sort@.subrange(0, i as int).push(
                self.sort@[i as int],
            ));
            assert(r@ =~= s3 + self.sort@.subrange(0, i + 1).map_values(
                |k: SortKey| QueryParam::Sort(k),
            ));
            i = i + 1;
        }
        assert(self.sort@.subrange(0, self.sort@.len() as int) =~= self.sort@);
        let ghost s4 = r@;
        if let Some(p) = self.page_size {
            r.push(QueryParam::PageSize(p));
        }
        let ghost s5 = r@;
        if let Some(v) = &self.offset {
            r.push(QueryParam::Offset(v.clone()));
        }
        assert(r@ =~= s5 + opt_param(self.offset, |v: String| QueryParam::Offset(v)));
        assert(r@ =~= self.param_spec());
        r
    }
}

} // verus!
