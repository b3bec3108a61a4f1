use vstd::prelude::*;

use crate::error::{ClientError, ValidationKind};

verus! {

/// One named field of a record; the value is its JSON text.
#[derive(Debug, Clone)]
pub struct Field {
    pub name: String,
    pub value: String,
}

impl Field {
    /// A copy that is equal field by field.
    pub fn duplicate(&self) -> (r: Field)
        ensures
            r == *self,
    {
        Field { name: self.name.clone(), value: self.value.clone() }
    }
}

/// The names of a sequence of strings, as character sequences.
pub open spec fn name_seq(v: Seq<String>) -> Seq<Seq<char>> {
    v.map_values(|s: String| s@)
}

/// No name occurs twice.
pub open spec fn distinct_names(v: Seq<Seq<char>>) -> bool {
    forall|i: int, j: int| 0 <= i < v.len() && 0 <= j < v.len() && i != j ==> v[i] != v[j]
}

/// The field names of a field sequence, in order.
pub open spec fn field_names(s: Seq<Field>) -> Seq<Seq<char>> {
    s.map_values(|f: Field| f.name@)
}

/// Some field of `s` carries the name `k`.
pub open spec fn has_name(s: Seq<Field>, k: Seq<char>) -> bool {
    exists|i: int| 0 <= i < s.len() && s[i].name@ == k
}

/// Some field of `s` carries the name `k` and the value `v`.
pub open spec fn holds(s: Seq<Field>, k: Seq<char>, v: Seq<char>) -> bool {
    exists|i: int| 0 <= i < s.len() && s[i].name@ == k && s[i].value@ == v
}

/// The index of `name` in `names`, if it occurs.
pub fn position_of(names: &Vec<String>, name: &String) -> (r: Option<usize>)
    ensures
        match r {
            Some(i) => i < names.len() && names@[i as int]@ == name@,
            None => !name_seq(names@).contains(name@),
        },
{
    let mut i: usize = 0;
    while i < names.len()
        invariant
            i <= names.len(),
            forall|j: int| 0 <= j < i ==> names@[j]@ != name@,
        decreases names.len() - i,
    {
        if names[i] == *name {
            return Some(i);
        }
        i = i + 1;
    }
    proof {
        if name_seq(names@).contains(name@) {
            let j = choose|j: int| 0 <= j < name_seq(names@).len() && name_seq(names@)[j] == name@;
            assert(names@[j]@ == name@);
        }
    }
    None
}

/// Whether `name` is one of `names`.
pub fn contains_name(names: &Vec<String>, name: &String) -> (r: bool)
    ensures
        r == name_seq(names@).contains(name@),
{
    match position_of(names, name) {
        Some(i) => {
            assert(name_seq(names@)[i as int] == name@);
            true
        },
        None => false,
    }
}

/// Whether some name occurs twice in `names`.
pub fn has_duplicates(names: &Vec<String>) -> (r: bool)
    ensures
        r == !distinct_names(name_seq(names@)),
{
    let n = names.len();
    let mut i: usize = 0;
    while i < n
        invariant
            n == names.len(),
            i <= n,
            forall|a: int, b: int| 0 <= a < i && 0 <= b < n && a != b ==> names@[a]@ != names@[b]@,
        decreases n - i,
    {
        let mut j: usize = 0;
        while j < n
            invariant
                n == names.len(),
                i < n,
                j <= n,
                forall|a: int, b: int| 0 <= a < i && 0 <= b < n && a != b ==> names@[a]@ != names@[b]@,
                forall|b: int| 0 <= b < j && b != i ==> names@[i as int]@ != names@[b]@,
            decreases n - j,
        {
            if j != i && names[i] == names[j] {
                assert(name_seq(names@)[i as int] == name_seq(names@)[j as int]);
                return true;
            }
            j = j + 1;
        }
        i = i + 1;
    }
    proof {
        assert forall|a: int, b: int|
            0 <= a < name_seq(names@).len() && 0 <= b < name_seq(names@).len() && a != b
            implies name_seq(names@)[a] != name_seq(names@)[b] by {
            assert(names@[a]@ != names@[b]@);
        }
    }
    false
}

/// Whether some field of `fields` carries the name `name`.
pub fn has_field_named(fields: &Vec<Field>, name: &String) -> (r: bool)
    ensures
        r == has_name(fields@, name@),
{
    let mut i: usize = 0;
    while i < fields.len()
        invariant
            i <= fields.len(),
            forall|j: int| 0 <= j < i ==> fields@[j].name@ != name@,
        decreases fields.len() - i,
    {
        if fields[i].name == *name {
            return true;
        }
        i = i + 1;
    }
    false
}

/// Whether two fields of `fields` share a name.
pub fn has_duplicate_field(fields: &Vec<Field>) -> (r: bool)
    ensures
        r == !distinct_names(field_names(fields@)),
{
    let n = fields.len();
    let mut i: usize = 0;
    while i < n
        invariant
            n == fields.len(),
            i <= n,
            forall|a: int, b: int|
                0 <= a < i && 0 <= b < n && a != b ==> fields@[a].name@ != fields@[b].name@,
        decreases n - i,
    {
        let mut j: usize = 0;
        while j < n
            invariant
                n == fields.len(),
                i < n,
                j <= n,
                forall|a: int, b: int|
                    0 <= a < i && 0 <= b < n && a != b ==> fields@[a].name@ != fields@[b].name@,
                forall|b: int| 0 <= b < j && b != i ==> fields@[i as int].name@ != fields@[b].name@,
            decreases n - j,
        {
            if j != i && fields[i].name == fields[j].name {
                assert(field_names(fields@)[i as int] == field_names(fields@)[j as int]);
                return true;
            }
            j = j + 1;
        }
        i = i + 1;
    }
    proof {
        assert forall|a: int, b: int|
            0 <= a < field_names(fields@).len() && 0 <= b < field_names(fields@).len() && a != b
            implies field_names(fields@)[a] != field_names(fields@)[b] by {
            assert(fields@[a].name@ != fields@[b].name@);
        }
    }
    false
}

/// A copy of a string sequence.
pub fn copy_names(names: &Vec<String>) -> (r: Vec<String>)
    ensures
        r@ == names@,
{
    let mut r: Vec<String> = Vec::new();
    let mut i: usize = 0;
    while i < names.len()
        invariant
            i <= names.len(),
            r@ == names@.subrange(0, i as int),
        decreases names.len() - i,
    {
        r.push(names[i].clone());
        assert(names@.subrange(0, i + 1) =~= names@.subrange(0, i as int).push(names@[i as int]));
        i = i + 1;
    }
    assert(names@.subrange(0, names@.len() as int) =~= names@);
    r
}

/// Holds of a field whose name is one of `scope`.
pub open spec fn in_scope(scope: Seq<Seq<char>>) -> spec_fn(Field) -> bool {
    |f: Field| scope.contains(f.name@)
}

/// The fields of `fields` whose names are in `scope`, in their order.
pub fn project_fields(fields: &Vec<Field>, scope: &Vec<String>) -> (r: Vec<Field>)
    ensures
        r@ == fields@.filter(in_scope(name_seq(scope@))),
{
    let ghost keep = in_scope(name_seq(scope@));
    let mut r: Vec<Field> = Vec::new();
    let mut i: usize = 0;
    while i < fields.len()
        invariant
            i <= fields.len(),
            keep == in_scope(name_seq(scope@)),
            r@ == fields@.subrange(0, i as int).filter(keep),
        decreases fields.len() - i,
    {
        let ghost prefix = fields@.subrange(0, i as int);
        assert(fields@.subrange(0, i + 1) =~= prefix.push(fields@[i as int]));
        proof {
            prefix.lemma_filter_push(fields@[i as int], keep);
        }
        if contains_name(scope, &fields[i].name) {
            r.push(fields[i].duplicate());
        }
        i = i + 1;
    }
    assert(fields@.subrange(0, fields@.len() as int) =~= fields@);
    r
}

/// Scoping keeps exactly the fields whose names are in scope, with their values.
pub proof fn lemma_scoped_fields(s: Seq<Field>, scope: Seq<Seq<char>>, k: Seq<char>, v: Seq<char>)
    ensures
        holds(s.filter(in_scope(scope)), k, v) <==> scope.contains(k) && holds(s, k, v),
        forall|i: int|
            0 <= i < s.filter(in_scope(scope)).len() ==> scope.contains(
                #[trigger] s.filter(in_scope(scope))[i].name@,
            ),
{
    let keep = in_scope(scope);
    let kept = s.filter(keep);
    assert forall|i: int| 0 <= i < kept.len() implies scope.contains(#[trigger] kept[i].name@) by {
        s.lemma_filter_pred(keep, i);
    }
    if holds(kept, k, v) {
        let i = choose|i: int| 0 <= i < kept.len() && kept[i].name@ == k && kept[i].value@ == v;
        s.lemma_filter_pred(keep, i);
        assert(kept.contains(kept[i]));
        s.lemma_filter_contains_rev(keep, kept[i]);
        let m = choose|m: int| 0 <= m < s.len() && s[m] == kept[i];
        assert(s[m].name@ == k && s[m].value@ == v);
    }
    if scope.contains(k) && holds(s, k, v) {
        let m = choose|m: int| 0 <= m < s.len() && s[m].name@ == k && s[m].value@ == v;
        assert(keep(s[m]));
        s.lemma_filter_contains(keep, m);
        let i = choose|i: int| 0 <= i < kept.len() && kept[i] == s[m];
        assert(kept[i].name@ == k && kept[i].value@ == v);
    }
}

/// The declared, ordered field names of a record type.
#[derive(Debug, Clone)]
pub struct Schema {
    pub names: Vec<String>,
}

/// A record type that declares the remote fields it maps to.
pub trait FieldMapper {
    /// The remote field names, in order.
    fn field_names() -> Vec<String>;
}

impl Schema {
    /// The names as character sequences.
    pub open spec fn name_view(&self) -> Seq<Seq<char>> {
        name_seq(self.names@)
    }

    /// No two fields share a name.
    pub open spec fn wf(&self) -> bool {
        distinct_names(self.name_view())
    }

    /// A schema over `names`; rejected when a name occurs twice.
    pub fn new(names: Vec<String>) -> (r: Result<Schema, ClientError>)
        ensures
            distinct_names(name_seq(names@)) <==> r is Ok,
            r matches Ok(s) ==> s.names@ == names@ && s.wf(),
            r matches Err(e) ==> e == ClientError::Validation(ValidationKind::DuplicateFieldName),
    {
        if has_duplicates(&names) {
            Err(ClientError::Validation(ValidationKind::DuplicateFieldName))
        } else {
            Ok(Schema { names })
        }
    }

    /// The schema a record type declares; rejected when it names a field twice.
    pub fn of<T: FieldMapper>() -> (r: Result<Schema, ClientError>)
        ensures
            r matches Ok(s) ==> s.wf(),
            r matches Err(e) ==> e == ClientError::Validation(ValidationKind::DuplicateFieldName),
    {
        Schema::new(T::field_names())
    }

    /// Whether `name` is one of the declared fields.
    pub fn contains(&self, name: &String) -> (r: bool)
        ensures
            r == self.name_view().contains(name@),
    {
        contains_name(&self.names, name)
    }
}

} // verus!
