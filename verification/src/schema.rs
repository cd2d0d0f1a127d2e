use vstd::prelude::*;

verus! {

/// The column types that can cross the wire. The set is closed: a schema
/// descriptor is a tagged message, so an executor can only ever receive one
/// of these.
#[derive(Clone, Copy, PartialEq, Eq, Structural, Debug)]
pub enum DataType {
    Boolean,
    Int32,
    Int64,
    Utf8,
}

/// One named, typed column of a schema.
#[derive(Clone, PartialEq, Eq, Debug)]
pub struct Field {
    pub name: String,
    pub data_type: DataType,
    pub nullable: bool,
}

/// Mathematical image of a [`Field`].
pub ghost struct SpecField {
    pub name: Seq<char>,
    pub data_type: DataType,
    pub nullable: bool,
}

impl View for Field {
    type V = SpecField;

    open spec fn view(&self) -> SpecField {
        SpecField { name: self.name@, data_type: self.data_type, nullable: self.nullable }
    }
}

/// An ordered sequence of named, typed columns: the in-memory schema
/// representation every operator exposes and every expression is bound
/// against.
#[derive(Clone, PartialEq, Eq, Debug)]
pub struct Schema {
    pub fields: Vec<Field>,
}

impl View for Schema {
    type V = Seq<SpecField>;

    open spec fn view(&self) -> Seq<SpecField> {
        self.fields@.map_values(|f: Field| f@)
    }
}

/// First index at or after `i` whose field is called `name`, if any.
pub open spec fn index_of_from(fields: Seq<SpecField>, name: Seq<char>, i: int) -> Option<int>
    decreases fields.len() - i,
{
    if i < 0 || i >= fields.len() {
        None
    } else if fields[i].name == name {
        Some(i)
    } else {
        index_of_from(fields, name, i + 1)
    }
}

/// Index of the first field called `name`, if any. Column references resolve
/// by name through this function; a `None` is a binding error.
pub open spec fn spec_index_of(fields: Seq<SpecField>, name: Seq<char>) -> Option<int> {
    index_of_from(fields, name, 0)
}

pub proof fn lemma_index_of_from(fields: Seq<SpecField>, name: Seq<char>, i: int)
    requires
        0 <= i <= fields.len(),
    ensures
        match index_of_from(fields, name, i) {
            Some(j) => i <= j < fields.len() && fields[j].name == name,
            None => forall|j: int| i <= j < fields.len() ==> fields[j].name != name,
        },
    decreases fields.len() - i,
{
    if i < fields.len() && fields[i].name != name {
        lemma_index_of_from(fields, name, i + 1);
    }
}

/// A found index points at a field with the looked-up name.
pub proof fn lemma_spec_index_of(fields: Seq<SpecField>, name: Seq<char>)
    ensures
        match spec_index_of(fields, name) {
            Some(j) => 0 <= j < fields.len() && fields[j].name == name,
            None => forall|j: int| 0 <= j < fields.len() ==> fields[j].name != name,
        },
{
    lemma_index_of_from(fields, name, 0);
}

impl Schema {
    /// Number of columns.
    pub fn len(&self) -> (r: usize)
        ensures
            r == self@.len(),
    {
        self.fields.len()
    }

    /// Resolve a column name to its index: the first match wins, and `None`
    /// means the schema has no column of that name.
    pub fn index_of(&self, name: &String) -> (r: Option<usize>)
        ensures
            match r {
                Some(i) => spec_index_of(self@, name@) == Some(i as int),
                None => spec_index_of(self@, name@) is None,
            },
    {
        let n = self.fields.len();
        let mut i: usize = 0;
        while i < n
            invariant
                0 <= i <= n,
                n == self.fields.len(),
                spec_index_of(self@, name@) == index_of_from(self@, name@, i as int),
            decreases n - i,
        {
            if self.fields[i].name == *name {
                return Some(i);
            }
            i = i + 1;
        }
        None
    }
}

/// Copy of a field; verified rather than derived so that the copy is known to
/// equal the original.
pub fn clone_field(f: &Field) -> (r: Field)
    ensures
        r == *f,
{
    Field { name: f.name.clone(), data_type: f.data_type, nullable: f.nullable }
}

/// A wire schema descriptor: the embedded form that scan, shuffle-read and
/// empty-relation nodes carry, since for those kinds the schema cannot be
/// inferred from a child operator.
#[derive(Clone, PartialEq, Eq, Debug)]
pub struct SchemaNode {
    pub columns: Vec<Field>,
}

/// What decoding a wire schema descriptor yields: its columns, in order.
pub open spec fn spec_decode_schema(sn: SchemaNode) -> Seq<SpecField> {
    sn.columns@.map_values(|f: Field| f@)
}

/// Decode a wire schema descriptor into the in-memory schema: every column
/// kept, in wire order, names and types unchanged.
pub fn decode_schema(sn: &SchemaNode) -> (r: Schema)
    ensures
        r@ == spec_decode_schema(*sn),
{
    let n = sn.columns.len();
    let mut fields: Vec<Field> = Vec::new();
    let mut i: usize = 0;
    while i < n
        invariant
            0 <= i <= n,
            n == sn.columns.len(),
            fields@ == sn.columns@.subrange(0, i as int),
        decreases n - i,
    {
        fields.push(clone_field(&sn.columns[i]));
        proof {
            assert(fields@ =~= sn.columns@.subrange(0, i + 1));
        }
        i = i + 1;
    }
    proof {
        assert(sn.columns@.subrange(0, n as int) =~= sn.columns@);
    }
    Schema { fields }
}

} // verus!
