use vstd::prelude::*;

verus! {

/// The type of a column.
#[derive(Debug, Clone, PartialEq, Eq)]
pub enum DataType {
    Null,
    Boolean,
    Int8,
    Int16,
    Int32,
    Int64,
    UInt8,
    UInt16,
    UInt32,
    UInt64,
    Float16,
    Float32,
    Float64,
    Utf8,
    LargeUtf8,
    Binary,
    LargeBinary,
    Date32,
    Date64,
    /// Any other type, by its name; plans only carry it from field to field.
    Other(String),
}

impl DataType {
    /// A type equal to this one.
    pub fn duplicate(&self) -> (r: DataType)
        ensures
            r == *self,
    {
        match self {
            DataType::Null => DataType::Null,
            DataType::Boolean => DataType::Boolean,
            DataType::Int8 => DataType::Int8,
            DataType::Int16 => DataType::Int16,
            DataType::Int32 => DataType::Int32,
            DataType::Int64 => DataType::Int64,
            DataType::UInt8 => DataType::UInt8,
            DataType::UInt16 => DataType::UInt16,
            DataType::UInt32 => DataType::UInt32,
            DataType::UInt64 => DataType::UInt64,
            DataType::Float16 => DataType::Float16,
            DataType::Float32 => DataType::Float32,
            DataType::Float64 => DataType::Float64,
            DataType::Utf8 => DataType::Utf8,
            DataType::LargeUtf8 => DataType::LargeUtf8,
            DataType::Binary => DataType::Binary,
            DataType::LargeBinary => DataType::LargeBinary,
            DataType::Date32 => DataType::Date32,
            DataType::Date64 => DataType::Date64,
            DataType::Other(name) => DataType::Other(name.clone()),
        }
    }
}

/// A named, typed column of a schema.
#[derive(Debug, Clone, PartialEq, Eq)]
pub struct Field {
    pub name: String,
    pub data_type: DataType,
}

/// What a field is: its name and its type.
pub type FieldView = (Seq<char>, DataType);

impl View for Field {
    type V = FieldView;

    open spec fn view(&self) -> FieldView {
        (self.name@, self.data_type)
    }
}

impl Field {
    pub fn new(name: &str, data_type: DataType) -> (r: Field)
        ensures
            r@ == (name@, data_type),
    {
        Field { name: name.to_owned(), data_type }
    }

    pub fn name(&self) -> (r: &String)
        ensures
            r@ == self@.0,
    {
        &self.name
    }

    pub fn data_type(&self) -> (r: &DataType)
        ensures
            *r == self@.1,
    {
        &self.data_type
    }

    /// A field equal to this one.
    pub fn duplicate(&self) -> (r: Field)
        ensures
            r == *self,
    {
        Field { name: self.name.clone(), data_type: self.data_type.duplicate() }
    }
}

/// An ordered sequence of fields.
#[derive(Debug, Clone, PartialEq, Eq)]
pub struct Schema {
    pub fields: Vec<Field>,
}

pub open spec fn fields_view(fields: Seq<Field>) -> Seq<FieldView> {
    fields.map_values(|f: Field| f@)
}

impl View for Schema {
    type V = Seq<FieldView>;

    open spec fn view(&self) -> Seq<FieldView> {
        fields_view(self.fields@)
    }
}

/// The fields of `schema` at the positions that `projection` lists, in that
/// order; the whole schema where there is no projection.
pub open spec fn projected(schema: Seq<FieldView>, projection: Option<Seq<usize>>) -> Seq<FieldView> {
    match projection {
        None => schema,
        Some(p) => Seq::new(p.len(), |i: int| schema[p[i] as int]),
    }
}

/// Every position that `projection` lists is a field of the schema.
pub open spec fn projection_in_range(len: nat, projection: Option<Seq<usize>>) -> bool {
    match projection {
        None => true,
        Some(p) => indices_in_range(len, p),
    }
}

pub open spec fn indices_in_range(len: nat, p: Seq<usize>) -> bool {
    forall|i: int| 0 <= i < p.len() ==> (#[trigger] p[i]) < len
}

impl Schema {
    pub fn new(fields: Vec<Field>) -> (r: Schema)
        ensures
            r.fields@ == fields@,
    {
        Schema { fields }
    }

    pub fn empty() -> (r: Schema)
        ensures
            r@ == Seq::<FieldView>::empty(),
    {
        let r = Schema { fields: Vec::new() };
        assert(r@ =~= Seq::<FieldView>::empty());
        r
    }

    pub fn fields(&self) -> (r: &Vec<Field>)
        ensures
            r@ == self.fields@,
    {
        &self.fields
    }

    pub fn field(&self, i: usize) -> (r: &Field)
        requires
            i < self@.len(),
        ensures
            *r == self.fields@[i as int],
            r@ == self@[i as int],
    {
        &self.fields[i]
    }

    /// A schema with the same fields.
    pub fn duplicate(&self) -> (r: Schema)
        ensures
            r@ == self@,
    {
        let mut fields: Vec<Field> = Vec::new();
        let mut i: usize = 0;
        while i < self.fields.len()
            invariant
                i <= self.fields@.len(),
                fields@ == self.fields@.subrange(0, i as int),
            decreases self.fields@.len() - i,
        {
            fields.push(self.fields[i].duplicate());
            i += 1;
            assert(fields@ =~= self.fields@.subrange(0, i as int));
        }
        assert(fields@ =~= self.fields@);
        Schema { fields }
    }

    /// The fields at the given positions, in the order given. `None` where a
    /// position is past the last field.
    pub fn select(&self, projection: &Vec<usize>) -> (r: Option<Schema>)
        ensures
            r.is_some() == projection_in_range(self@.len(), Some(projection@)),
            r matches Some(s) ==> s@ == projected(self@, Some(projection@)),
    {
        let mut fields: Vec<Field> = Vec::new();
        let mut i: usize = 0;
        while i < projection.len()
            invariant
                i <= projection@.len(),
                fields@.len() == i,
                forall|j: int| 0 <= j < i ==> (#[trigger] projection@[j]) < self@.len(),
                forall|j: int| 0 <= j < i ==> (#[trigger] fields@[j])@ == self@[projection@[j] as int],
            decreases projection@.len() - i,
        {
            let k = projection[i];
            if k >= self.fields.len() {
                assert(self@.len() == self.fields@.len());
                assert(!(projection@[i as int] < self@.len()));
                assert(!indices_in_range(self@.len(), projection@));
                return None;
            }
            fields.push(self.fields[k].duplicate());
            i += 1;
        }
        let r = Schema { fields };
        assert(r@ =~= projected(self@, Some(projection@)));
        Some(r)
    }
}

} // verus!
