//! Data schemas: named, typed fields, looked up by name.
use vstd::prelude::*;

verus! {

/// A field of a data schema. The type is only carried along.
pub struct DataField<D> {
    pub name: String,
    pub data_type: D,
}

/// What a `DataField` is: a name and a type.
pub struct FieldModel<D> {
    pub name: Seq<char>,
    pub data_type: D,
}

impl<D> View for DataField<D> {
    type V = FieldModel<D>;

    open spec fn view(&self) -> FieldModel<D> {
        FieldModel { name: self.name@, data_type: self.data_type }
    }
}

/// The fields of a data block, in the order of its columns.
pub struct DataSchema<D> {
    pub fields: Vec<DataField<D>>,
}

impl<D> View for DataSchema<D> {
    type V = Seq<FieldModel<D>>;

    open spec fn view(&self) -> Seq<FieldModel<D>> {
        self.fields@.map_values(|field: DataField<D>| field@)
    }
}

/// The first field of that name is the one at `i`.
pub open spec fn is_index_of<D>(fields: Seq<FieldModel<D>>, name: Seq<char>, i: int) -> bool {
    &&& 0 <= i < fields.len()
    &&& fields[i].name == name
    &&& forall|j: int| 0 <= j < i ==> (#[trigger] fields[j]).name != name
}

/// Some field has that name.
pub open spec fn has_field<D>(fields: Seq<FieldModel<D>>, name: Seq<char>) -> bool {
    exists|i: int| 0 <= i < fields.len() && (#[trigger] fields[i]).name == name
}

/// The position of the first field of that name, where there is one.
pub open spec fn index_of_field<D>(fields: Seq<FieldModel<D>>, name: Seq<char>) -> Option<int> {
    if has_field(fields, name) {
        Some(choose|i: int| is_index_of(fields, name, i))
    } else {
        None
    }
}

/// A field that `is_index_of` points at is the one that `index_of_field` finds.
pub proof fn lemma_index_of_field<D>(fields: Seq<FieldModel<D>>, name: Seq<char>, i: int)
    requires
        is_index_of(fields, name, i),
    ensures
        index_of_field(fields, name) == Some(i),
{
    assert(fields[i].name == name);
    let found = choose|k: int| is_index_of(fields, name, k);
    assert(is_index_of(fields, name, found));
    if found < i {
        assert(fields[found].name != name);
    } else if i < found {
        assert(fields[i].name != name);
    }
}

/// Where some field has the name, `index_of_field` points at the first such field.
pub proof fn lemma_index_found<D>(fields: Seq<FieldModel<D>>, name: Seq<char>)
    requires
        has_field(fields, name),
    ensures
        is_index_of(fields, name, index_of_field(fields, name)->0),
{
    let some = choose|i: int| 0 <= i < fields.len() && (#[trigger] fields[i]).name == name;
    lemma_first_exists(fields, name, some);
}

proof fn lemma_first_exists<D>(fields: Seq<FieldModel<D>>, name: Seq<char>, i: int)
    requires
        0 <= i < fields.len(),
        fields[i].name == name,
    ensures
        exists|k: int| is_index_of(fields, name, k),
    decreases i,
{
    if forall|j: int| 0 <= j < i ==> (#[trigger] fields[j]).name != name {
        assert(is_index_of(fields, name, i));
    } else {
        let j = choose|j: int| 0 <= j < i && (#[trigger] fields[j]).name == name;
        lemma_first_exists(fields, name, j);
    }
}

/// Every field of `output` is found in `input` by its name.
pub open spec fn all_found<D>(
    output: Seq<FieldModel<D>>,
    input: Seq<FieldModel<D>>,
) -> bool {
    forall|k: int| 0 <= k < output.len() ==> has_field(input, (#[trigger] output[k]).name)
}

/// `k` is the first field of `output` whose name `input` does not have.
pub open spec fn is_first_missing<D>(
    output: Seq<FieldModel<D>>,
    input: Seq<FieldModel<D>>,
    k: int,
) -> bool {
    &&& 0 <= k < output.len()
    &&& !has_field(input, output[k].name)
    &&& forall|j: int| 0 <= j < k ==> has_field(input, (#[trigger] output[j]).name)
}

/// The projection of a block of schema `input` to the fields of `output`: for each of these, its
/// position in `input`. Where a name is missing from `input`, the first such name.
pub open spec fn projection_of<D>(
    output: Seq<FieldModel<D>>,
    input: Seq<FieldModel<D>>,
) -> Result<Seq<usize>, Seq<char>> {
    if all_found(output, input) {
        Ok(Seq::new(output.len(), |k: int| index_of_field(input, output[k].name)->0 as usize))
    } else {
        Err(output[choose|k: int| is_first_missing(output, input, k)].name)
    }
}

/// A lookup by name gives the position of a field of that name before which there is no other, and
/// fails only where no field has the name.
pub proof fn lemma_lookup_by_name<D>(fields: Seq<FieldModel<D>>, name: Seq<char>)
    ensures
        match index_of_field(fields, name) {
            Some(i) => {
                &&& 0 <= i < fields.len()
                &&& fields[i].name == name
                &&& forall|j: int| 0 <= j < i ==> (#[trigger] fields[j]).name != name
            },
            None => forall|j: int| 0 <= j < fields.len() ==> (#[trigger] fields[j]).name != name,
        },
{
    if has_field(fields, name) {
        lemma_index_found(fields, name);
    }
}

/// A projection has one column for each field of the output, in order: the first column of the
/// input that goes by the name of the field. There is none exactly where the input lacks a name of
/// the output, and the first such name is then reported.
pub proof fn lemma_projection<D>(output: Seq<FieldModel<D>>, input: Seq<FieldModel<D>>)
    requires
        input.len() <= usize::MAX,
    ensures
        match projection_of(output, input) {
            Ok(columns) => {
                &&& columns.len() == output.len()
                &&& forall|k: int|
                    0 <= k < output.len() ==> {
                        &&& (#[trigger] columns[k]) < input.len()
                        &&& input[columns[k] as int].name == output[k].name
                    }
                &&& forall|k: int, j: int|
                    0 <= k < output.len() && 0 <= j < #[trigger] columns[k] ==> (
                    #[trigger] input[j]).name != output[k].name
            },
            Err(name) => exists|k: int|
                {
                    &&& 0 <= k < output.len()
                    &&& (#[trigger] output[k]).name == name
                    &&& index_of_field(input, name) is None
                    &&& forall|i: int|
                        0 <= i < k ==> index_of_field(input, (#[trigger] output[i]).name) is Some
                },
        },
{
    if all_found(output, input) {
        let columns = projection_of(output, input)->Ok_0;
        assert forall|k: int| 0 <= k < output.len() implies {
            &&& (#[trigger] columns[k]) < input.len()
            &&& input[columns[k] as int].name == output[k].name
        } by {
            lemma_index_found(input, output[k].name);
        }
        assert forall|k: int, j: int|
            0 <= k < output.len() && 0 <= j < #[trigger] columns[k] implies (
        #[trigger] input[j]).name != output[k].name by {
            lemma_index_found(input, output[k].name);
        }
    } else {
        let some = choose|k: int|
            0 <= k < output.len() && !has_field(input, (#[trigger] output[k]).name);
        lemma_first_missing_exists(output, input, some);
        let missing = choose|k: int| is_first_missing(output, input, k);
        assert(is_first_missing(output, input, missing));
        let name = output[missing].name;
        assert(output[missing].name == name);
    }
}

proof fn lemma_first_missing_exists<D>(
    output: Seq<FieldModel<D>>,
    input: Seq<FieldModel<D>>,
    k: int,
)
    requires
        0 <= k < output.len(),
        !has_field(input, output[k].name),
    ensures
        exists|m: int| is_first_missing(output, input, m),
    decreases k,
{
    if forall|j: int| 0 <= j < k ==> has_field(input, (#[trigger] output[j]).name) {
        assert(is_first_missing(output, input, k));
    } else {
        let j = choose|j: int| 0 <= j < k && !has_field(input, (#[trigger] output[j]).name);
        lemma_first_missing_exists(output, input, j);
    }
}

/// The model of a schema has its fields in order, with their names and types.
pub proof fn lemma_schema_model<D>(schema: DataSchema<D>)
    ensures
        schema@.len() == schema.fields@.len(),
        forall|k: int|
            0 <= k < schema.fields@.len() ==> {
                &&& (#[trigger] schema@[k]).name == schema.fields@[k].name@
                &&& schema@[k].data_type == schema.fields@[k].data_type
            },
{
}

impl<D> DataSchema<D> {
    /// The number of fields.
    pub fn num_fields(&self) -> (res: usize)
        ensures
            res == self@.len(),
            res == self.fields@.len(),
    {
        self.fields.len()
    }

    /// The position of the first field of that name.
    pub fn index_of(&self, name: &String) -> (res: Option<usize>)
        ensures
            match res {
                Some(i) => index_of_field(self@, name@) == Some(i as int) && i < self@.len(),
                None => index_of_field(self@, name@) is None,
            },
            match res {
                Some(i) => {
                    &&& i < self.fields@.len()
                    &&& self.fields@[i as int].name@ == name@
                    &&& forall|j: int| 0 <= j < i ==> (#[trigger] self.fields@[j]).name@ != name@
                },
                None => forall|j: int|
                    0 <= j < self.fields@.len() ==> (#[trigger] self.fields@[j]).name@ != name@,
            },
    {
        let ghost fields = self@;
        let mut i: usize = 0;
        while i < self.fields.len()
            invariant
                i <= self.fields.len(),
                fields == self@,
                forall|j: int| 0 <= j < i ==> (#[trigger] fields[j]).name != name@,
                forall|j: int| 0 <= j < i ==> (#[trigger] self.fields@[j]).name@ != name@,
            decreases self.fields.len() - i,
        {
            assert(fields[i as int] == self.fields[i as int]@);
            if self.fields[i].name == *name {
                proof {
                    lemma_index_of_field(fields, name@, i as int);
                }
                return Some(i);
            }
            i = i + 1;
        }
        None
    }

    /// The columns of a block of schema `input` that make up a block of this schema, in order, or
    /// the first name that `input` does not have.
    pub fn projection_from(&self, input: &DataSchema<D>) -> (res: Result<Vec<usize>, String>)
        ensures
            match res {
                Ok(columns) => projection_of(self@, input@) == Ok::<Seq<usize>, Seq<char>>(
                    columns@,
                ),
                Err(name) => projection_of(self@, input@) == Err::<Seq<usize>, Seq<char>>(name@),
            },
            res matches Ok(columns) ==> {
                &&& columns@.len() == self.fields@.len()
                &&& forall|k: int|
                    0 <= k < columns@.len() ==> {
                        &&& (#[trigger] columns@[k]) < input.fields@.len()
                        &&& input.fields@[columns@[k] as int].name@ == self.fields@[k].name@
                    }
            },
    {
        let ghost output = self@;
        let mut columns: Vec<usize> = Vec::with_capacity(self.fields.len());
        let mut k: usize = 0;
        while k < self.fields.len()
            invariant
                k <= self.fields.len(),
                output == self@,
                columns@.len() == k,
                forall|j: int|
                    0 <= j < k ==> {
                        &&& has_field(input@, (#[trigger] output[j]).name)
                        &&& index_of_field(input@, output[j].name)->0 == columns@[j]
                    },
                forall|j: int|
                    0 <= j < k ==> {
                        &&& (#[trigger] columns@[j]) < input.fields@.len()
                        &&& input.fields@[columns@[j] as int].name@ == self.fields@[j].name@
                    },
            decreases self.fields.len() - k,
        {
            assert(output[k as int] == self.fields[k as int]@);
            match input.index_of(&self.fields[k].name) {
                Some(column) => {
                    columns.push(column);
                },
                None => {
                    let name = self.fields[k].name.clone();
                    proof {
                        assert(is_first_missing(output, input@, k as int));
                        let missing = choose|m: int| is_first_missing(output, input@, m);
                        assert(is_first_missing(output, input@, missing));
                        if missing < k {
                            assert(has_field(input@, output[missing].name));
                        } else if k < missing {
                            assert(has_field(input@, output[k as int].name));
                        }
                    }
                    return Err(name);
                },
            }
            k = k + 1;
        }
        proof {
            assert(all_found(output, input@));
            assert(columns@ =~= projection_of(output, input@)->Ok_0);
        }
        Ok(columns)
    }
}

} // verus!
