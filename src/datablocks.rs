use vstd::prelude::*;
use vstd::string::StringExecFns;

use crate::datavalues::{ArrayModel, DataArray, DataType};
use crate::error::{ErrorModel, FuseQueryError, FuseQueryResult};

verus! {

/// The index of the first entry of `names` equal to `name`.
pub open spec fn first_named(names: Seq<Seq<char>>, name: Seq<char>) -> Option<nat>
    decreases names.len(),
{
    if names.len() == 0 {
        None
    } else if names[0] == name {
        Some(0)
    } else {
        match first_named(names.drop_first(), name) {
            Some(i) => Some(i + 1),
            None => None,
        }
    }
}

/// `first_named` finds the first match, and finds nothing only when no
/// entry matches.
pub proof fn lemma_first_named(names: Seq<Seq<char>>, name: Seq<char>)
    ensures
        match first_named(names, name) {
            Some(i) => i < names.len() && names[i as int] == name && forall|j: int|
                0 <= j < i ==> names[j] != name,
            None => forall|j: int| 0 <= j < names.len() ==> names[j] != name,
        },
    decreases names.len(),
{
    if names.len() > 0 {
        lemma_first_named(names.drop_first(), name);
        if names[0] != name {
            match first_named(names.drop_first(), name) {
                Some(i) => {
                    assert forall|j: int| 0 <= j < i + 1 implies names[j] != name by {
                        if j > 0 {
                            assert(names[j] == names.drop_first()[j - 1]);
                        }
                    }
                },
                None => {
                    assert forall|j: int| 0 <= j < names.len() implies names[j] != name by {
                        if j > 0 {
                            assert(names[j] == names.drop_first()[j - 1]);
                        }
                    }
                },
            }
        }
    }
}

/// Something found by name: a column name, a schema field.
pub trait Named {
    spec fn name_view(&self) -> Seq<char>;

    fn name_ref(&self) -> (r: &String)
        ensures
            r@ == self.name_view(),
    ;
}

impl Named for String {
    open spec fn name_view(&self) -> Seq<char> {
        self@
    }

    fn name_ref(&self) -> (r: &String) {
        self
    }
}

impl Named for DataField {
    open spec fn name_view(&self) -> Seq<char> {
        self.name@
    }

    fn name_ref(&self) -> (r: &String) {
        &self.name
    }
}

/// Finds the first of `items` called `name`.
fn position<T: Named>(items: &Vec<T>, name: &String) -> (r: Option<usize>)
    ensures
        match r {
            Some(i) => first_named(items@.map_values(|t: T| t.name_view()), name@) == Some(i as nat),
            None => first_named(items@.map_values(|t: T| t.name_view()), name@) is None,
        },
{
    let ghost view = items@.map_values(|t: T| t.name_view());
    proof {
        lemma_first_named(view, name@);
    }
    let mut i: usize = 0;
    while i < items.len()
        invariant
            i <= items@.len(),
            view == items@.map_values(|t: T| t.name_view()),
            forall|j: int| 0 <= j < i ==> view[j] != name@,
            match first_named(view, name@) {
                Some(k) => k < view.len() && view[k as int] == name@ && forall|j: int|
                    0 <= j < k ==> view[j] != name@,
                None => forall|j: int| 0 <= j < view.len() ==> view[j] != name@,
            },
        decreases items@.len() - i,
    {
        if *items[i].name_ref() == *name {
            assert(view[i as int] == name@);
            return Some(i);
        }
        i = i + 1;
    }
    None
}

/// A well-formed column of `rows` rows.
pub open spec fn fits_rows(a: DataArray, rows: nat) -> bool {
    a.wf() && a@.cells.len() == rows
}

/// A batch of rows: named columns of one common length.
#[derive(Debug)]
pub struct DataBlock {
    pub num_rows: usize,
    pub names: Vec<String>,
    pub columns: Vec<DataArray>,
}

/// What a block means: its row count and its named columns.
pub struct BlockModel {
    pub rows: nat,
    pub names: Seq<Seq<char>>,
    pub columns: Seq<ArrayModel>,
}

impl BlockModel {
    /// The first column called `name`, if any.
    pub open spec fn column(self, name: Seq<char>) -> Option<ArrayModel> {
        match first_named(self.names, name) {
            Some(i) => Some(self.columns[i as int]),
            None => None,
        }
    }

    /// One name per column, and every column has the block's row count.
    pub open spec fn wf(self) -> bool {
        &&& self.names.len() == self.columns.len()
        &&& forall|i: int| 0 <= i < self.columns.len() ==> #[trigger] self.columns[i].cells.len() == self.rows
    }
}

impl View for DataBlock {
    type V = BlockModel;

    open spec fn view(&self) -> BlockModel {
        BlockModel {
            rows: self.num_rows as nat,
            names: self.names@.map_values(|s: String| s@),
            columns: self.columns@.map_values(|a: DataArray| a@),
        }
    }
}

impl DataBlock {
    pub open spec fn wf(&self) -> bool {
        &&& self@.wf()
        &&& forall|i: int| 0 <= i < self.columns@.len() ==> #[trigger] self.columns@[i].wf()
    }

    /// Builds a block; fails unless there is one name per column and every
    /// column is well formed with `num_rows` rows.
    pub fn create(num_rows: usize, names: Vec<String>, columns: Vec<DataArray>) -> (r: FuseQueryResult<
        DataBlock,
    >)
        ensures
            match r {
                Ok(b) => b.wf() && b.num_rows == num_rows && b.names == names && b.columns == columns,
                Err(e) => e@ == ErrorModel::Internal("Columns do not match the block's rows"@),
            },
            r is Ok <==> (DataBlock { num_rows, names, columns }).wf(),
    {
        let ghost b = DataBlock { num_rows, names, columns };
        let mut ok = true;
        let mut i: usize = 0;
        while i < columns.len()
            invariant
                i <= columns@.len(),
                ok <==> forall|j: int| 0 <= j < i ==> #[trigger] fits_rows(columns@[j], num_rows as nat),
            decreases columns@.len() - i,
        {
            let c = &columns[i];
            let good = match &c.validity {
                None => true,
                Some(m) => m.len() == c.values.len(),
            };
            let fits = good && c.len() == num_rows;
            assert(fits == fits_rows(columns@[i as int], num_rows as nat));
            ok = ok && fits;
            i = i + 1;
        }
        assert(forall|j: int| 0 <= j < columns@.len() ==> #[trigger] b@.columns[j] == columns@[j]@);
        assert(forall|j: int| 0 <= j < columns@.len() ==> #[trigger] b.columns@[j] == columns@[j]);
        let all_fit = ok;
        ok = ok && names.len() == columns.len();
        proof {
            if all_fit {
                assert forall|j: int| 0 <= j < b@.columns.len() implies #[trigger] b@.columns[j].cells.len()
                    == b@.rows by {
                    assert(fits_rows(columns@[j], num_rows as nat));
                }
                assert forall|j: int| 0 <= j < b.columns@.len() implies #[trigger] b.columns@[j].wf() by {
                    assert(fits_rows(columns@[j], num_rows as nat));
                }
            } else {
                let j = choose|j: int| 0 <= j < columns@.len() && !fits_rows(columns@[j], num_rows as nat);
                assert(b@.columns[j] == columns@[j]@);
                assert(b.columns@[j] == columns@[j]);
            }
        }
        if ok {
            Ok(DataBlock { num_rows, names, columns })
        } else {
            Err(FuseQueryError::Internal(String::from_str("Columns do not match the block's rows")))
        }
    }

    pub fn num_rows(&self) -> (r: usize)
        ensures
            r == self@.rows,
    {
        self.num_rows
    }

    /// The first column called `name`, if any.
    pub fn column_by_name(&self, name: &String) -> (r: Option<&DataArray>)
        requires
            self.wf(),
        ensures
            match r {
                Some(a) => self@.column(name@) == Some(a@) && a.wf() && a@.cells.len() == self@.rows,
                None => self@.column(name@) is None,
            },
    {
        assert(self.names@.map_values(|t: String| t.name_view()) =~= self@.names);
        match position(&self.names, name) {
            Some(i) => {
                proof {
                    lemma_first_named(self@.names, name@);
                }
                Some(&self.columns[i])
            },
            None => None,
        }
    }
}

/// A column descriptor.
#[derive(Debug)]
pub struct DataField {
    pub name: String,
    pub data_type: DataType,
    pub nullable: bool,
}

/// The ordered column descriptors of a block.
#[derive(Debug)]
pub struct DataSchema {
    pub fields: Vec<DataField>,
}

impl DataSchema {
    pub open spec fn names(&self) -> Seq<Seq<char>> {
        self.fields@.map_values(|f: DataField| f.name@)
    }

    /// The first field called `name`, if any.
    pub open spec fn field(&self, name: Seq<char>) -> Option<DataField> {
        match first_named(self.names(), name) {
            Some(i) => Some(self.fields@[i as int]),
            None => None,
        }
    }

    pub fn field_by_name(&self, name: &String) -> (r: Option<&DataField>)
        ensures
            match r {
                Some(f) => self.field(name@) == Some(*f),
                None => self.field(name@) is None,
            },
    {
        assert(self.fields@.map_values(|t: DataField| t.name_view()) =~= self.names());
        match position(&self.fields, name) {
            Some(i) => {
                proof {
                    lemma_first_named(self.names(), name@);
                }
                Some(&self.fields[i])
            },
            None => None,
        }
    }
}

} // verus!
