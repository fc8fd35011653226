//! Result rows as the display layer sees them: each row maps column names to
//! text.

use vstd::prelude::*;
use crate::values::{value_text, value_to_string, SqlValue};

verus! {

/// The mapping that a list of (name, text) entries stands for. Where a name
/// occurs more than once, the entry nearest the end decides.
pub open spec fn entries_map(entries: Seq<(String, String)>) -> Map<Seq<char>, Seq<char>>
    decreases entries.len(),
{
    if entries.len() == 0 {
        Map::empty()
    } else {
        entries_map(entries.drop_last()).insert(entries.last().0@, entries.last().1@)
    }
}

/// No two entries carry the same name.
pub open spec fn distinct_names(entries: Seq<(String, String)>) -> bool {
    forall|i: int, j: int|
        0 <= i < j < entries.len() ==> (#[trigger] entries[i]).0@ != (#[trigger] entries[j]).0@
}

/// The text for column `i` of a row of values: the text of the value, and
/// nothing where the row has no value for the column.
pub open spec fn column_text(values: Seq<SqlValue>, i: int) -> Seq<char> {
    if 0 <= i < values.len() {
        value_text(values[i])
    } else {
        Seq::empty()
    }
}

/// The mapping built by inserting the text for column `i` under `names[i]`
/// for each of the first `n` columns in turn, a later column replacing an
/// earlier one of the same name.
pub open spec fn columns_map(names: Seq<String>, values: Seq<SqlValue>, n: nat) -> Map<
    Seq<char>,
    Seq<char>,
>
    decreases n,
{
    if n == 0 {
        Map::empty()
    } else {
        columns_map(names, values, (n - 1) as nat).insert(
            names[n - 1]@,
            column_text(values, n - 1),
        )
    }
}

/// The names of the first `n` columns, as a set.
pub open spec fn column_names(names: Seq<String>, n: nat) -> Set<Seq<char>>
    decreases n,
{
    if n == 0 {
        Set::empty()
    } else {
        column_names(names, (n - 1) as nat).insert(names[n - 1]@)
    }
}

/// The keys of the mapping built from columns are the column names, whatever
/// the values are.
pub proof fn lemma_columns_map_domain(names: Seq<String>, values: Seq<SqlValue>, n: nat)
    ensures
        columns_map(names, values, n).dom() == column_names(names, n),
    decreases n,
{
    if n > 0 {
        lemma_columns_map_domain(names, values, (n - 1) as nat);
    }
}

/// One result row: a mapping from column name to the text of its value.
///
/// The row is kept as a list of entries, not as a hash map: of a hash map
/// with strings for keys the verifier knows nothing. The entries keep the
/// order in which their names were first inserted, and no name occurs twice.
#[derive(Debug)]
pub struct TextRow {
    entries: Vec<(String, String)>,
}

impl View for TextRow {
    type V = Map<Seq<char>, Seq<char>>;

    closed spec fn view(&self) -> Map<Seq<char>, Seq<char>> {
        entries_map(self.entries@)
    }
}

/// A name is a key of the mapping exactly if some entry carries it.
proof fn lemma_entries_map_domain(entries: Seq<(String, String)>, name: Seq<char>)
    ensures
        entries_map(entries).contains_key(name) <==> exists|i: int|
            0 <= i < entries.len() && (#[trigger] entries[i]).0@ == name,
    decreases entries.len(),
{
    if entries.len() > 0 {
        let front = entries.drop_last();
        lemma_entries_map_domain(front, name);
        if exists|i: int| 0 <= i < entries.len() && (#[trigger] entries[i]).0@ == name {
            let i = choose|i: int| 0 <= i < entries.len() && (#[trigger] entries[i]).0@ == name;
            if i < entries.len() - 1 {
                assert(front[i].0@ == name);
            }
        }
    }
}

/// Entries with distinct names stay so without the last of them.
proof fn lemma_distinct_front(entries: Seq<(String, String)>)
    requires
        distinct_names(entries),
        entries.len() > 0,
    ensures
        distinct_names(entries.drop_last()),
{
    let front = entries.drop_last();
    assert forall|a: int, b: int| 0 <= a < b < front.len() implies (#[trigger] front[a]).0@ != (
    #[trigger] front[b]).0@ by {
        assert(entries[a].0@ != entries[b].0@);
    }
}

/// Among entries with distinct names, each entry decides the text under its
/// name.
proof fn lemma_entries_map_value(entries: Seq<(String, String)>, i: int)
    requires
        distinct_names(entries),
        0 <= i < entries.len(),
    ensures
        entries_map(entries).contains_key(entries[i].0@),
        entries_map(entries)[entries[i].0@] == entries[i].1@,
    decreases entries.len(),
{
    if i < entries.len() - 1 {
        lemma_distinct_front(entries);
        lemma_entries_map_value(entries.drop_last(), i);
    }
}

/// Replacing the entry that carries a name by another with the same name
/// keeps the names distinct and replaces the text under that name.
proof fn lemma_entries_map_update(entries: Seq<(String, String)>, i: int, entry: (String, String))
    requires
        distinct_names(entries),
        0 <= i < entries.len(),
        entry.0@ == entries[i].0@,
    ensures
        distinct_names(entries.update(i, entry)),
        entries_map(entries.update(i, entry)) == entries_map(entries).insert(entry.0@, entry.1@),
    decreases entries.len(),
{
    let updated = entries.update(i, entry);
    let front = entries.drop_last();
    assert forall|a: int, b: int| 0 <= a < b < updated.len() implies (#[trigger] updated[a]).0@ != (
    #[trigger] updated[b]).0@ by {
        assert(entries[a].0@ != entries[b].0@);
    }
    if i == entries.len() - 1 {
        assert(updated.drop_last() == front);
        assert(entries_map(entries).insert(entry.0@, entry.1@) == entries_map(front).insert(
            entry.0@,
            entry.1@,
        ));
    } else {
        lemma_distinct_front(entries);
        lemma_entries_map_update(front, i, entry);
        assert(updated.drop_last() == front.update(i, entry));
        assert(entries_map(updated) == entries_map(front).insert(entry.0@, entry.1@).insert(
            entries.last().0@,
            entries.last().1@,
        ));
    }
}

impl TextRow {
    /// The invariant of a row: no name occurs twice among its entries.
    #[verifier::type_invariant]
    spec fn wf(&self) -> bool {
        distinct_names(self.entries@)
    }

    /// The names of the row in the order of their first insertion.
    spec fn names(&self) -> Seq<Seq<char>> {
        Seq::new(self.entries@.len(), |i: int| self.entries@[i].0@)
    }

    /// A row without columns.
    pub fn new() -> (row: TextRow)
        ensures
            row@ == Map::<Seq<char>, Seq<char>>::empty(),
    {
        TextRow { entries: Vec::new() }
    }

    /// The number of columns in the row.
    pub fn len(&self) -> (n: usize)
        ensures
            self@.dom().finite(),
            n == self@.dom().len(),
    {
        proof {
            use_type_invariant(self);
            self.lemma_names_are_domain();
            self.names().unique_seq_to_set();
            vstd::seq_lib::seq_to_set_is_finite(self.names());
        }
        self.entries.len()
    }

    /// The names of a row are exactly the keys of its mapping, each once.
    proof fn lemma_names_are_domain(&self)
        requires
            self.wf(),
        ensures
            self.names().no_duplicates(),
            self.names().to_set() == self@.dom(),
    {
        let names = self.names();
        assert forall|i: int, j: int| 0 <= i < names.len() && 0 <= j < names.len() && i
            != j implies names[i] != names[j] by {
            if i < j {
                assert(self.entries@[i].0@ != self.entries@[j].0@);
            } else {
                assert(self.entries@[j].0@ != self.entries@[i].0@);
            }
        }
        assert forall|name: Seq<char>| names.to_set().contains(name) <==> self@.dom().contains(
            name,
        ) by {
            lemma_entries_map_domain(self.entries@, name);
            if self@.dom().contains(name) {
                let i = choose|i: int|
                    0 <= i < self.entries@.len() && (#[trigger] self.entries@[i]).0@ == name;
                assert(names[i] == name);
            }
        }
    }

    /// The text stored under `name`, if the row has such a column.
    pub fn get(&self, name: &str) -> (found: Option<&String>)
        ensures
            found is Some <==> self@.contains_key(name@),
            found matches Some(text) ==> text@ == self@[name@],
    {
        proof {
            use_type_invariant(self);
        }
        let key = name.to_owned();
        let mut i: usize = 0;
        while i < self.entries.len()
            invariant
                i <= self.entries.len(),
                distinct_names(self.entries@),
                key@ == name@,
                forall|k: int| 0 <= k < i ==> (#[trigger] self.entries@[k]).0@ != name@,
            decreases self.entries.len() - i,
        {
            if self.entries[i].0 == key {
                proof {
                    lemma_entries_map_value(self.entries@, i as int);
                }
                return Some(&self.entries[i].1);
            }
            i = i + 1;
        }
        proof {
            lemma_entries_map_domain(self.entries@, name@);
        }
        None
    }

    /// The row with `text` stored under `name`, in place of what the row held
    /// under that name before.
    pub fn with_entry(self, name: String, text: String) -> (row: TextRow)
        ensures
            row@ == self@.insert(name@, text@),
    {
        proof {
            use_type_invariant(&self);
        }
        let mut entries = self.entries;
        let ghost before = entries@;
        let mut i: usize = 0;
        while i < entries.len()
            invariant
                i <= entries.len(),
                entries@ == before,
                before == self.entries@,
                distinct_names(before),
                forall|k: int| 0 <= k < i ==> (#[trigger] before[k]).0@ != name@,
            decreases entries.len() - i,
        {
            if entries[i].0 == name {
                proof {
                    lemma_entries_map_update(before, i as int, (name, text));
                }
                entries.set(i, (name, text));
                return TextRow { entries };
            }
            i = i + 1;
        }
        proof {
            let grown = before.push((name, text));
            assert(grown.drop_last() == before);
            assert forall|a: int, b: int| 0 <= a < b < grown.len() implies (#[trigger] grown[a]).0@
                != (#[trigger] grown[b]).0@ by {
                if b < before.len() {
                    assert(before[a].0@ != before[b].0@);
                } else {
                    assert(before[a].0@ != name@);
                }
            }
        }
        entries.push((name, text));
        TextRow { entries }
    }

    /// The (name, text) pairs of the row, in the order of first insertion.
    pub fn entries(&self) -> (entries: &Vec<(String, String)>)
        ensures
            distinct_names(entries@),
            entries_map(entries@) == self@,
    {
        proof {
            use_type_invariant(self);
        }
        &self.entries
    }
}

/// Builds the row for one result row from the column names and the values
/// read for them.
///
/// A column for which the row holds no value is shown as the empty string,
/// and a value beyond the last column is not shown.
pub fn row_from_columns(names: &Vec<String>, values: &Vec<SqlValue>) -> (row: TextRow)
    ensures
        row@ == columns_map(names@, values@, names@.len()),
{
    let mut row = TextRow::new();
    let mut i: usize = 0;
    while i < names.len()
        invariant
            i <= names.len(),
            row@ == columns_map(names@, values@, i as nat),
        decreases names.len() - i,
    {
        let text = if i < values.len() {
            value_to_string(&values[i])
        } else {
            String::new()
        };
        row = row.with_entry(names[i].clone(), text);
        i = i + 1;
    }
    row
}

/// What a query returned: the column names, and for each row the values of
/// those columns in the same order.
#[derive(Clone, Debug, PartialEq, Eq)]
pub struct ResultSet {
    pub columns: Vec<String>,
    pub rows: Vec<Vec<SqlValue>>,
}

impl ResultSet {
    /// Every row holds one value for each column.
    pub open spec fn wf(&self) -> bool {
        forall|i: int|
            0 <= i < self.rows@.len() ==> (#[trigger] self.rows@[i])@.len() == self.columns@.len()
    }
}

/// All rows have the same keys.
pub open spec fn uniform_rows(rows: Seq<TextRow>) -> bool {
    forall|i: int, j: int|
        0 <= i < rows.len() && 0 <= j < rows.len() ==> (#[trigger] rows[i])@.dom() == (
        #[trigger] rows[j])@.dom()
}

/// Renders a result set for the display layer: one mapping per row, in the
/// order of the rows, from each column name to the text of its value.
pub fn text_rows(results: &ResultSet) -> (rows: Vec<TextRow>)
    ensures
        rows@.len() == results.rows@.len(),
        forall|i: int|
            0 <= i < rows@.len() ==> (#[trigger] rows@[i])@ == columns_map(
                results.columns@,
                results.rows@[i]@,
                results.columns@.len(),
            ),
        uniform_rows(rows@),
{
    let mut rows: Vec<TextRow> = Vec::new();
    let mut i: usize = 0;
    while i < results.rows.len()
        invariant
            i <= results.rows.len(),
            rows@.len() == i,
            forall|k: int|
                0 <= k < rows@.len() ==> (#[trigger] rows@[k])@ == columns_map(
                    results.columns@,
                    results.rows@[k]@,
                    results.columns@.len(),
                ),
        decreases results.rows.len() - i,
    {
        let row = row_from_columns(&results.columns, &results.rows[i]);
        rows.push(row);
        i = i + 1;
    }
    proof {
        assert forall|a: int, b: int| 0 <= a < rows@.len() && 0 <= b < rows@.len() implies (
        #[trigger] rows@[a])@.dom() == (#[trigger] rows@[b])@.dom() by {
            lemma_columns_map_domain(
                results.columns@,
                results.rows@[a]@,
                results.columns@.len(),
            );
            lemma_columns_map_domain(
                results.columns@,
                results.rows@[b]@,
                results.columns@.len(),
            );
        }
    }
    rows
}

} // verus!
