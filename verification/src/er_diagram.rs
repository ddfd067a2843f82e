//! The entity-relationship diagram: its tables and the relationships between
//! them, taken from the foreign keys of the database or, where it has none,
//! guessed from the names of the columns.

use crate::text::{
    byte_len, byte_length, chars_of, decimal, has_prefix, lowercase, occurs_here, push_decimal,
    push_range, push_str, same_text, string_of,
};
use vstd::prelude::*;

verus! {

/// What the diagram asks its owner to do.
#[derive(Debug, Clone, Copy, PartialEq, Eq, Structural)]
pub struct ERDiagramResponse {
    /// Load the tables again.
    pub refresh_requested: bool,
    /// Lay the tables out again.
    pub layout_requested: bool,
    /// Fit the diagram into the view.
    pub fit_view_requested: bool,
}

impl Default for ERDiagramResponse {
    fn default() -> (r: Self)
        ensures
            r == (ERDiagramResponse {
                refresh_requested: false,
                layout_requested: false,
                fit_view_requested: false,
            }),
    {
        ERDiagramResponse {
            refresh_requested: false,
            layout_requested: false,
            fit_view_requested: false,
        }
    }
}

/// The keys that the diagram reacts to while the pointer is over it.
#[derive(Debug, Clone, Copy, PartialEq, Eq, Structural)]
pub struct DiagramKeys {
    pub r: bool,
    pub l: bool,
    pub f: bool,
}

impl ERDiagramResponse {
    /// Adds what the keys ask for: `R` to load again, `L` to lay out again,
    /// `F` to fit the view.
    pub fn with_keys(self, keys: &DiagramKeys) -> (r: ERDiagramResponse)
        ensures
            r == (ERDiagramResponse {
                refresh_requested: self.refresh_requested || keys.r,
                layout_requested: self.layout_requested || keys.l,
                fit_view_requested: self.fit_view_requested || keys.f,
            }),
    {
        ERDiagramResponse {
            refresh_requested: self.refresh_requested || keys.r,
            layout_requested: self.layout_requested || keys.l,
            fit_view_requested: self.fit_view_requested || keys.f,
        }
    }
}

/// A column of a table in the diagram.
#[derive(Debug, Clone)]
pub struct ERColumn {
    pub name: String,
    pub data_type: String,
    pub is_primary_key: bool,
    pub is_foreign_key: bool,
    pub nullable: bool,
    pub default_value: Option<String>,
}

/// A table in the diagram.
#[derive(Debug, Clone)]
pub struct ERTable {
    pub name: String,
    pub columns: Vec<ERColumn>,
    /// Whether the table is picked out.
    pub selected: bool,
}

impl ERTable {
    /// A table without columns.
    pub fn new(name: String) -> (table: ERTable)
        ensures
            table.name == name,
            table.columns@.len() == 0,
            !table.selected,
    {
        ERTable { name, columns: Vec::new(), selected: false }
    }
}

/// How many rows of one table go with one row of the other.
#[derive(Debug, Clone, Copy, PartialEq, Eq, Structural)]
pub enum RelationType {
    OneToOne,
    OneToMany,
    ManyToMany,
}

/// A relationship: a column of one table refers to a column of another.
#[derive(Debug, Clone)]
pub struct Relationship {
    pub from_table: String,
    pub from_column: String,
    pub to_table: String,
    pub to_column: String,
    pub relation_type: RelationType,
}

/// The mathematical content of a `Relationship`.
pub struct Link {
    pub from_table: Seq<char>,
    pub from_column: Seq<char>,
    pub to_table: Seq<char>,
    pub to_column: Seq<char>,
    pub relation_type: RelationType,
}

impl View for Relationship {
    type V = Link;

    open spec fn view(&self) -> Link {
        Link {
            from_table: self.from_table@,
            from_column: self.from_column@,
            to_table: self.to_table@,
            to_column: self.to_column@,
            relation_type: self.relation_type,
        }
    }
}

/// The contents of the relationships in `v`, in order.
pub open spec fn links(v: Seq<Relationship>) -> Seq<Link> {
    v.map_values(|r: Relationship| r@)
}

/// A foreign key of the database.
#[derive(Debug, Clone)]
pub struct ForeignKeyInfo {
    pub from_table: String,
    pub from_column: String,
    pub to_table: String,
    pub to_column: String,
}

/// Whether `s` ends with `p`.
pub open spec fn has_suffix(s: Seq<char>, p: Seq<char>) -> bool {
    p.len() <= s.len() && s.subrange(s.len() - p.len(), s.len() as int) == p
}

/// `s` without `p` at its end, as often as `p` stands there.
pub open spec fn without_suffix(s: Seq<char>, p: Seq<char>) -> Seq<char>
    decreases s.len(),
{
    if p.len() > 0 && has_suffix(s, p) {
        without_suffix(s.take(s.len() - p.len()), p)
    } else {
        s
    }
}

/// The name that a column refers to, judged by its lower-case name: a name
/// that ends in `_id` refers to what stands before it; else a name of more
/// than two bytes that ends in `id` refers to what stands before that.
pub open spec fn referred_name(column: Seq<char>) -> Option<Seq<char>> {
    if has_suffix(column, "_id"@) {
        Some(without_suffix(column, "_id"@))
    } else if has_suffix(column, "id"@) && byte_len(column) > 2 {
        Some(without_suffix(column, "id"@))
    } else {
        None
    }
}

/// Whether a table with the lower-case name `table` goes by the name `name`:
/// it is called `name`, `names` or `name_info`, or its name starts with
/// `name_`.
pub open spec fn goes_by(table: Seq<char>, name: Seq<char>) -> bool {
    table == name || table == name + "s"@ || table == name + "_info"@ || has_prefix(
        table,
        name + "_"@,
    )
}

/// Whether `v` ends with `p`.
fn ends_with(v: &Vec<char>, p: &Vec<char>) -> (r: bool)
    ensures
        r == has_suffix(v@, p@),
{
    if p.len() > v.len() {
        return false;
    }
    let at: usize = v.len() - p.len();
    occurs_here(v, p, at)
}

/// `v` without `p` at its end, as often as `p` stands there.
fn strip_suffix_all(v: &Vec<char>, p: &Vec<char>) -> (r: Vec<char>)
    ensures
        r@ == without_suffix(v@, p@),
{
    let mut end: usize = v.len();
    if p.len() == 0 {
        let mut out: Vec<char> = Vec::new();
        push_range(&mut out, v, 0, end);
        assert(out@ =~= v@);
        return out;
    }
    assert(v@.take(end as int) =~= v@);
    loop
        invariant
            p@.len() > 0,
            end <= v@.len(),
            without_suffix(v@.take(end as int), p@) == without_suffix(v@, p@),
        decreases end,
    {
        let mut head: Vec<char> = Vec::new();
        push_range(&mut head, v, 0, end);
        assert(head@ =~= v@.take(end as int));
        if !ends_with(&head, p) {
            return head;
        }
        assert(v@.take(end as int).take(end - p@.len()) =~= v@.take(end - p@.len()));
        end = end - p.len();
    }
}

/// The name that a column refers to, given its lower-case name.
pub fn reference_of(column: &str) -> (name: Option<String>)
    ensures
        match name {
            Some(n) => referred_name(column@) == Some(n@),
            None => referred_name(column@) is None,
        },
{
    let v = chars_of(column);
    let long = chars_of("_id");
    let short = chars_of("id");
    if ends_with(&v, &long) {
        Some(string_of(&strip_suffix_all(&v, &long)))
    } else if ends_with(&v, &short) && byte_length(column) > 2 {
        Some(string_of(&strip_suffix_all(&v, &short)))
    } else {
        None
    }
}

/// Whether a table goes by a name, given the table's lower-case name.
pub fn is_called(table: &str, name: &str) -> (r: bool)
    ensures
        r == goes_by(table@, name@),
{
    if same_text(table, name) {
        return true;
    }
    let t = chars_of(table);
    let mut plural = chars_of(name);
    push_str(&mut plural, "s");
    if same_text(table, string_of(&plural).as_str()) {
        return true;
    }
    let mut info = chars_of(name);
    push_str(&mut info, "_info");
    if same_text(table, string_of(&info).as_str()) {
        return true;
    }
    let mut stem = chars_of(name);
    push_str(&mut stem, "_");
    occurs_here(&t, &stem, 0)
}

/// The index of the first table at or after `k` that the column of table
/// `from` may refer to by the name `name`: a table other than `from` that
/// goes by the name.
pub open spec fn target_from(tables: Seq<ERTable>, from: int, name: Seq<char>, k: int) -> Option<
    int,
>
    decreases tables.len() - k,
{
    if 0 <= k < tables.len() {
        if tables[k].name@ != tables[from].name@ && goes_by(lowercase(tables[k].name@), name) {
            Some(k)
        } else {
            target_from(tables, from, name, k + 1)
        }
    } else {
        None
    }
}

/// The relationship that column `c` of table `t` gives rise to: none for a
/// primary key or a column whose name refers to nothing or to no table.
pub open spec fn column_link(tables: Seq<ERTable>, t: int, c: int) -> Option<Link> {
    let column = tables[t].columns@[c];
    if column.is_primary_key {
        None
    } else {
        match referred_name(lowercase(column.name@)) {
            Some(name) => match target_from(tables, t, name, 0) {
                Some(k) => Some(
                    Link {
                        from_table: tables[t].name@,
                        from_column: column.name@,
                        to_table: tables[k].name@,
                        to_column: "id"@,
                        relation_type: RelationType::OneToMany,
                    },
                ),
                None => None,
            },
            None => None,
        }
    }
}

/// `found` with the relationship of one column, if it has one.
pub open spec fn with_link(found: Seq<Link>, link: Option<Link>) -> Seq<Link> {
    match link {
        Some(l) => found.push(l),
        None => found,
    }
}

/// The relationships of the first `c` columns of table `t`.
pub open spec fn table_links(tables: Seq<ERTable>, t: int, c: int) -> Seq<Link>
    decreases c,
{
    if c <= 0 {
        Seq::empty()
    } else {
        with_link(table_links(tables, t, c - 1), column_link(tables, t, c - 1))
    }
}

/// The relationships of the first `t` tables.
pub open spec fn inferred_links(tables: Seq<ERTable>, t: int) -> Seq<Link>
    decreases t,
{
    if t <= 0 {
        Seq::empty()
    } else {
        inferred_links(tables, t - 1) + table_links(
            tables,
            t - 1,
            tables[t - 1].columns@.len() as int,
        )
    }
}

/// The index of the first table that the column of table `from` may refer to
/// by the name `name`.
fn find_target(tables: &Vec<ERTable>, lower_names: &Vec<String>, from: usize, name: &str) -> (r:
    Option<usize>)
    requires
        from < tables@.len(),
        lower_names@.len() == tables@.len(),
        forall|i: int|
            0 <= i < tables@.len() ==> (#[trigger] lower_names@[i])@ == lowercase(
                tables@[i].name@,
            ),
    ensures
        match r {
            Some(k) => k < tables@.len() && target_from(tables@, from as int, name@, 0) == Some(
                k as int,
            ),
            None => target_from(tables@, from as int, name@, 0) is None,
        },
{
    let mut k: usize = 0;
    while k < tables.len()
        invariant
            k <= tables@.len(),
            from < tables@.len(),
            lower_names@.len() == tables@.len(),
            forall|i: int|
                0 <= i < tables@.len() ==> (#[trigger] lower_names@[i])@ == lowercase(
                    tables@[i].name@,
                ),
            target_from(tables@, from as int, name@, k as int) == target_from(
                tables@,
                from as int,
                name@,
                0,
            ),
        decreases tables@.len() - k,
    {
        if !same_text(tables[k].name.as_str(), tables[from].name.as_str()) && is_called(
            lower_names[k].as_str(),
            name,
        ) {
            return Some(k);
        }
        k += 1;
    }
    None
}

/// Guesses the relationships between `tables` from the names of their
/// columns: a column that is no primary key and is called `x_id` or `xid`
/// refers to the column `id` of the first other table that goes by the name
/// `x`.
pub fn infer_relationships_from_columns(tables: &Vec<ERTable>) -> (found: Vec<Relationship>)
    ensures
        links(found@) == inferred_links(tables@, tables@.len() as int),
{
    let mut lower_names: Vec<String> = Vec::new();
    let mut i: usize = 0;
    while i < tables.len()
        invariant
            i <= tables@.len(),
            lower_names@.len() == i,
            forall|j: int|
                0 <= j < i ==> (#[trigger] lower_names@[j])@ == lowercase(tables@[j].name@),
        decreases tables@.len() - i,
    {
        lower_names.push(tables[i].name.as_str().to_lowercase());
        i += 1;
    }
    let mut found: Vec<Relationship> = Vec::new();
    let mut t: usize = 0;
    assert(links(found@) =~= inferred_links(tables@, 0));
    while t < tables.len()
        invariant
            t <= tables@.len(),
            lower_names@.len() == tables@.len(),
            forall|j: int|
                0 <= j < tables@.len() ==> (#[trigger] lower_names@[j])@ == lowercase(
                    tables@[j].name@,
                ),
            links(found@) == inferred_links(tables@, t as int),
        decreases tables@.len() - t,
    {
        let table = &tables[t];
        let ghost base = links(found@);
        let mut c: usize = 0;
        assert(links(found@) =~= base + table_links(tables@, t as int, 0));
        while c < table.columns.len()
            invariant
                t < tables@.len(),
                *table == tables@[t as int],
                c <= table.columns@.len(),
                lower_names@.len() == tables@.len(),
                forall|j: int|
                    0 <= j < tables@.len() ==> (#[trigger] lower_names@[j])@ == lowercase(
                        tables@[j].name@,
                    ),
                links(found@) == base + table_links(tables@, t as int, c as int),
            decreases table.columns@.len() - c,
        {
            let column = &table.columns[c];
            let ghost before = found@;
            let ghost so_far = table_links(tables@, t as int, c as int);
            if !column.is_primary_key {
                let lower = column.name.as_str().to_lowercase();
                if let Some(name) = reference_of(lower.as_str()) {
                    if let Some(k) = find_target(tables, &lower_names, t, name.as_str()) {
                        let link = Relationship {
                            from_table: table.name.clone(),
                            from_column: column.name.clone(),
                            to_table: tables[k].name.clone(),
                            to_column: "id".to_owned(),
                            relation_type: RelationType::OneToMany,
                        };
                        found.push(link);
                        assert(links(found@) =~= links(before).push(link@));
                        assert(column_link(tables@, t as int, c as int) == Some(link@));
                        assert(base + so_far.push(link@) =~= (base + so_far).push(link@));
                    }
                }
            }
            c += 1;
        }
        t += 1;
    }
    found
}

/// The relationship that a foreign key states.
pub open spec fn key_link(key: ForeignKeyInfo) -> Link {
    Link {
        from_table: key.from_table@,
        from_column: key.from_column@,
        to_table: key.to_table@,
        to_column: key.to_column@,
        relation_type: RelationType::OneToMany,
    }
}

/// The relationships that foreign keys state, in order.
pub open spec fn key_links(keys: Seq<ForeignKeyInfo>) -> Seq<Link> {
    keys.map_values(|k: ForeignKeyInfo| key_link(k))
}

/// The relationships that the foreign keys of the database state, in order.
pub fn relationships_from_keys(keys: &Vec<ForeignKeyInfo>) -> (found: Vec<Relationship>)
    ensures
        links(found@) == key_links(keys@),
{
    let mut found: Vec<Relationship> = Vec::new();
    let mut i: usize = 0;
    while i < keys.len()
        invariant
            i <= keys@.len(),
            found@.len() == i,
            forall|j: int| 0 <= j < i ==> (#[trigger] found@[j])@ == key_link(keys@[j]),
        decreases keys@.len() - i,
    {
        let key = &keys[i];
        found.push(
            Relationship {
                from_table: key.from_table.clone(),
                from_column: key.from_column.clone(),
                to_table: key.to_table.clone(),
                to_column: key.to_column.clone(),
                relation_type: RelationType::OneToMany,
            },
        );
        i += 1;
    }
    assert(links(found@) =~= key_links(keys@));
    found
}

/// The relationships to show once the foreign keys have arrived: those that
/// the keys state or, where the database has none, those guessed from the
/// names of the columns.
pub open spec fn links_for(tables: Seq<ERTable>, keys: Seq<ForeignKeyInfo>) -> Seq<Link> {
    if keys.len() > 0 {
        key_links(keys)
    } else {
        inferred_links(tables, tables.len() as int)
    }
}

/// Takes in the foreign keys of the database: marks the columns that they
/// start from, and gives the relationships to show.
pub fn foreign_keys_fetched(tables: &mut Vec<ERTable>, keys: &Vec<ForeignKeyInfo>) -> (found: Vec<
    Relationship,
>)
    ensures
        same_but_marks(old(tables)@, final(tables)@),
        forall|t: int, c: int|
            0 <= t < old(tables)@.len() && 0 <= c < old(tables)@[t].columns@.len() ==> (
            #[trigger] final(tables)@[t].columns@[c]).is_foreign_key == (old(
                tables,
            )@[t].columns@[c].is_foreign_key || exists|i: int|
                0 <= i < keys@.len() && key_is(
                    old(tables)@,
                    (#[trigger] keys@[i]).from_table@,
                    keys@[i].from_column@,
                    t,
                    c,
                )),
        links(found@) == links_for(old(tables)@, keys@),
{
    if keys.len() == 0 {
        return infer_relationships_from_columns(tables);
    }
    mark_foreign_keys(tables, keys);
    relationships_from_keys(keys)
}

/// Whether every table has columns: the diagram is loaded once it has tables
/// and this holds.
pub fn all_loaded(tables: &Vec<ERTable>) -> (r: bool)
    ensures
        r == forall|i: int| 0 <= i < tables@.len() ==> (#[trigger] tables@[i]).columns@.len() > 0,
{
    let mut i: usize = 0;
    while i < tables.len()
        invariant
            i <= tables@.len(),
            forall|j: int| 0 <= j < i ==> (#[trigger] tables@[j]).columns@.len() > 0,
        decreases tables@.len() - i,
    {
        if tables[i].columns.len() == 0 {
            return false;
        }
        i += 1;
    }
    true
}

/// The index of the first table at or after `k` that is called `name`.
pub open spec fn table_named(tables: Seq<ERTable>, name: Seq<char>, k: int) -> Option<int>
    decreases tables.len() - k,
{
    if 0 <= k < tables.len() {
        if tables[k].name@ == name {
            Some(k)
        } else {
            table_named(tables, name, k + 1)
        }
    } else {
        None
    }
}

/// The index of the first column at or after `k` that is called `name`.
pub open spec fn column_named(columns: Seq<ERColumn>, name: Seq<char>, k: int) -> Option<int>
    decreases columns.len() - k,
{
    if 0 <= k < columns.len() {
        if columns[k].name@ == name {
            Some(k)
        } else {
            column_named(columns, name, k + 1)
        }
    } else {
        None
    }
}

/// The row of its table in which a column is drawn: the index of the first
/// column called `column`, or the first row if none is called so.
pub fn column_row(table: &ERTable, column: &str) -> (row: usize)
    ensures
        row == match column_named(table.columns@, column@, 0) {
            Some(k) => k,
            None => 0,
        },
{
    let mut c: usize = 0;
    while c < table.columns.len() && !same_text(table.columns[c].name.as_str(), column)
        invariant
            c <= table.columns@.len(),
            column_named(table.columns@, column@, c as int) == column_named(
                table.columns@,
                column@,
                0,
            ),
        decreases table.columns@.len() - c,
    {
        c += 1;
    }
    if c < table.columns.len() {
        c
    } else {
        0
    }
}

/// Whether the foreign key from `column` of `table` is column `c` of table
/// `t`: the first table of that name, and its first column of that name.
pub open spec fn key_is(tables: Seq<ERTable>, table: Seq<char>, column: Seq<char>, t: int, c: int) -> bool {
    table_named(tables, table, 0) == Some(t) && column_named(tables[t].columns@, column, 0)
        == Some(c)
}

/// Whether `after` is `before` with the same tables and columns, and nothing
/// changed but marks of foreign keys.
pub open spec fn same_but_marks(before: Seq<ERTable>, after: Seq<ERTable>) -> bool {
    &&& after.len() == before.len()
    &&& forall|t: int|
        0 <= t < before.len() ==> {
            &&& (#[trigger] after[t]).name == before[t].name
            &&& after[t].selected == before[t].selected
            &&& after[t].columns@.len() == before[t].columns@.len()
        }
    &&& forall|t: int, c: int|
        0 <= t < before.len() && 0 <= c < before[t].columns@.len() ==> {
            &&& (#[trigger] after[t].columns@[c]).name == before[t].columns@[c].name
            &&& after[t].columns@[c].data_type == before[t].columns@[c].data_type
            &&& after[t].columns@[c].is_primary_key == before[t].columns@[c].is_primary_key
            &&& after[t].columns@[c].nullable == before[t].columns@[c].nullable
            &&& after[t].columns@[c].default_value == before[t].columns@[c].default_value
        }
}

/// Marks the column that a foreign key starts from: the column `column` of
/// the table `table`, if the diagram holds them.
pub fn mark_foreign_key(tables: &mut Vec<ERTable>, table: &str, column: &str)
    ensures
        same_but_marks(old(tables)@, final(tables)@),
        forall|t: int, c: int|
            0 <= t < old(tables)@.len() && 0 <= c < old(tables)@[t].columns@.len() ==> (
            #[trigger] final(tables)@[t].columns@[c]).is_foreign_key == (old(
                tables,
            )@[t].columns@[c].is_foreign_key || key_is(old(tables)@, table@, column@, t, c)),
{
    let mut t: usize = 0;
    while t < tables.len() && !same_text(tables[t].name.as_str(), table)
        invariant
            tables@ == old(tables)@,
            t <= tables@.len(),
            table_named(tables@, table@, t as int) == table_named(tables@, table@, 0),
        decreases tables@.len() - t,
    {
        t += 1;
    }
    if t == tables.len() {
        return;
    }
    assert(table_named(tables@, table@, 0) == Some(t as int));
    let mut c: usize = 0;
    while c < tables[t].columns.len() && !same_text(tables[t].columns[c].name.as_str(), column)
        invariant
            tables@ == old(tables)@,
            t < tables@.len(),
            c <= tables@[t as int].columns@.len(),
            column_named(tables@[t as int].columns@, column@, c as int) == column_named(
                tables@[t as int].columns@,
                column@,
                0,
            ),
        decreases tables@[t as int].columns@.len() - c,
    {
        c += 1;
    }
    if c == tables[t].columns.len() {
        return;
    }
    assert(column_named(tables@[t as int].columns@, column@, 0) == Some(c as int));
    let entry = &mut tables[t];
    let cell = &mut entry.columns[c];
    cell.is_foreign_key = true;
}

/// Marks the columns that the foreign keys start from.
pub fn mark_foreign_keys(tables: &mut Vec<ERTable>, keys: &Vec<ForeignKeyInfo>)
    ensures
        same_but_marks(old(tables)@, final(tables)@),
        forall|t: int, c: int|
            0 <= t < old(tables)@.len() && 0 <= c < old(tables)@[t].columns@.len() ==> (
            #[trigger] final(tables)@[t].columns@[c]).is_foreign_key == (old(
                tables,
            )@[t].columns@[c].is_foreign_key || exists|i: int|
                0 <= i < keys@.len() && key_is(
                    old(tables)@,
                    (#[trigger] keys@[i]).from_table@,
                    keys@[i].from_column@,
                    t,
                    c,
                )),
{
    let mut i: usize = 0;
    while i < keys.len()
        invariant
            i <= keys@.len(),
            same_but_marks(old(tables)@, tables@),
            forall|t: int, c: int|
                0 <= t < old(tables)@.len() && 0 <= c < old(tables)@[t].columns@.len() ==> (
                #[trigger] tables@[t].columns@[c]).is_foreign_key == (old(
                    tables,
                )@[t].columns@[c].is_foreign_key || exists|j: int|
                    0 <= j < i && key_is(
                        old(tables)@,
                        (#[trigger] keys@[j]).from_table@,
                        keys@[j].from_column@,
                        t,
                        c,
                    )),
        decreases keys@.len() - i,
    {
        let ghost before = tables@;
        let key = &keys[i];
        mark_foreign_key(tables, key.from_table.as_str(), key.from_column.as_str());
        proof {
            lemma_same_names(old(tables)@, before, key.from_table@, key.from_column@);
            assert forall|t: int, c: int|
                0 <= t < old(tables)@.len() && 0 <= c < old(tables)@[t].columns@.len() implies (
            #[trigger] tables@[t].columns@[c]).is_foreign_key == (old(
                tables,
            )@[t].columns@[c].is_foreign_key || exists|j: int|
                0 <= j < i + 1 && key_is(
                    old(tables)@,
                    (#[trigger] keys@[j]).from_table@,
                    keys@[j].from_column@,
                    t,
                    c,
                )) by {
                let was = before[t].columns@[c].is_foreign_key;
                let hit = key_is(before, key.from_table@, key.from_column@, t, c);
                assert(before[t].columns@[c].name == old(tables)@[t].columns@[c].name);
                assert(hit == key_is(old(tables)@, key.from_table@, key.from_column@, t, c));
                if hit {
                    assert(key_is(
                        old(tables)@,
                        keys@[i as int].from_table@,
                        keys@[i as int].from_column@,
                        t,
                        c,
                    ));
                }
            }
        }
        i += 1;
    }
}

/// Tables with the same names and columns with the same names give every
/// foreign key the same place.
pub proof fn lemma_same_names(a: Seq<ERTable>, b: Seq<ERTable>, table: Seq<char>, column: Seq<char>)
    requires
        same_but_marks(a, b),
    ensures
        forall|t: int, c: int|
            0 <= t < a.len() && 0 <= c < a[t].columns@.len() ==> key_is(a, table, column, t, c)
                == key_is(b, table, column, t, c),
{
    lemma_table_named(a, b, table, 0);
    assert forall|t: int, c: int| 0 <= t < a.len() && 0 <= c < a[t].columns@.len() implies key_is(
        a,
        table,
        column,
        t,
        c,
    ) == key_is(b, table, column, t, c) by {
        lemma_column_named(a, b, t, column, 0);
    }
}

/// The first table of a name is the same in `a` and in `b`.
proof fn lemma_table_named(a: Seq<ERTable>, b: Seq<ERTable>, name: Seq<char>, k: int)
    requires
        same_but_marks(a, b),
        0 <= k,
    ensures
        table_named(a, name, k) == table_named(b, name, k),
    decreases a.len() - k,
{
    if k < a.len() {
        assert(b[k].name == a[k].name);
        lemma_table_named(a, b, name, k + 1);
    }
}

/// The first column of a name in table `t` is the same in `a` and in `b`.
proof fn lemma_column_named(a: Seq<ERTable>, b: Seq<ERTable>, t: int, name: Seq<char>, k: int)
    requires
        same_but_marks(a, b),
        0 <= t < a.len(),
        0 <= k,
    ensures
        column_named(a[t].columns@, name, k) == column_named(b[t].columns@, name, k),
    decreases a[t].columns@.len() - k,
{
    assert(b[t].columns@.len() == a[t].columns@.len());
    if k < a[t].columns@.len() {
        assert(b[t].columns@[k].name == a[t].columns@[k].name);
        lemma_column_named(a, b, t, name, k + 1);
    }
}

/// A column as the database describes it.
#[derive(Debug, Clone)]
pub struct ColumnInfo {
    pub name: String,
    pub data_type: String,
    pub is_primary_key: bool,
    pub is_nullable: bool,
    pub default_value: Option<String>,
}

/// Whether two optional texts hold the same.
pub open spec fn same_option(a: Option<String>, b: Option<String>) -> bool {
    match (a, b) {
        (Some(x), Some(y)) => x@ == y@,
        (None, None) => true,
        _ => false,
    }
}

/// Whether `column` shows what `info` describes: the same name, type, key,
/// nullability and default, and no mark of a foreign key.
pub open spec fn shows(column: ERColumn, info: ColumnInfo) -> bool {
    &&& column.name@ == info.name@
    &&& column.data_type@ == info.data_type@
    &&& column.is_primary_key == info.is_primary_key
    &&& !column.is_foreign_key
    &&& column.nullable == info.is_nullable
    &&& same_option(column.default_value, info.default_value)
}

/// The columns of the diagram for the columns that the database describes.
pub fn columns_of(infos: &Vec<ColumnInfo>) -> (columns: Vec<ERColumn>)
    ensures
        columns@.len() == infos@.len(),
        forall|i: int| 0 <= i < infos@.len() ==> shows(#[trigger] columns@[i], infos@[i]),
{
    let mut columns: Vec<ERColumn> = Vec::new();
    let mut i: usize = 0;
    while i < infos.len()
        invariant
            i <= infos@.len(),
            columns@.len() == i,
            forall|j: int| 0 <= j < i ==> shows(#[trigger] columns@[j], infos@[j]),
        decreases infos@.len() - i,
    {
        let info = &infos[i];
        let default_value = match &info.default_value {
            Some(text) => Some(text.clone()),
            None => None,
        };
        columns.push(
            ERColumn {
                name: info.name.clone(),
                data_type: info.data_type.clone(),
                is_primary_key: info.is_primary_key,
                is_foreign_key: false,
                nullable: info.is_nullable,
                default_value,
            },
        );
        i += 1;
    }
    columns
}

/// Whether `after` is `before` with the columns of the first table called
/// `table` replaced by what `infos` describes, and nothing changed if no
/// table is called so.
pub open spec fn with_columns(
    before: Seq<ERTable>,
    after: Seq<ERTable>,
    table: Seq<char>,
    infos: Seq<ColumnInfo>,
) -> bool {
    &&& after.len() == before.len()
    &&& forall|t: int|
        0 <= t < before.len() && table_named(before, table, 0) != Some(t) ==> #[trigger] after[t]
            == before[t]
    &&& match table_named(before, table, 0) {
        Some(k) => {
            &&& after[k].name == before[k].name
            &&& after[k].selected == before[k].selected
            &&& after[k].columns@.len() == infos.len()
            &&& forall|c: int|
                0 <= c < infos.len() ==> shows(#[trigger] after[k].columns@[c], infos[c])
        },
        None => true,
    }
}

/// Whether the diagram is loaded: it has tables, and each has columns.
pub open spec fn loaded(tables: Seq<ERTable>) -> bool {
    tables.len() > 0 && forall|i: int|
        0 <= i < tables.len() ==> (#[trigger] tables[i]).columns@.len() > 0
}

/// What the window does after the columns of a table have arrived.
#[derive(Debug, Clone, Copy, PartialEq, Eq, Structural)]
pub struct ColumnsArrived {
    /// The table to measure again.
    pub measured: Option<usize>,
    /// Whether the tables are to be laid out in a grid.
    pub laid_out: bool,
    /// How many relationships were guessed, where any were.
    pub guessed: Option<usize>,
}

/// Takes in the columns of the table called `table`. The first table of that
/// name gets them and is to be measured again. Once the diagram is loaded
/// the tables are to be laid out, and a diagram without relationships gets
/// those guessed from the names of the columns, if there are any.
pub fn columns_fetched(
    tables: &mut Vec<ERTable>,
    relationships: &mut Vec<Relationship>,
    table: &str,
    infos: &Vec<ColumnInfo>,
) -> (r: ColumnsArrived)
    ensures
        with_columns(old(tables)@, final(tables)@, table@, infos@),
        match r.measured {
            Some(k) => table_named(old(tables)@, table@, 0) == Some(k as int),
            None => table_named(old(tables)@, table@, 0) is None,
        },
        r.laid_out == loaded(final(tables)@),
        ({
            let guess = inferred_links(final(tables)@, final(tables)@.len() as int);
            if loaded(final(tables)@) && old(relationships)@.len() == 0 && guess.len() > 0 {
                links(final(relationships)@) == guess && r.guessed == Some(guess.len() as usize)
            } else {
                final(relationships)@ == old(relationships)@ && r.guessed is None
            }
        }),
{
    let mut t: usize = 0;
    while t < tables.len() && !same_text(tables[t].name.as_str(), table)
        invariant
            tables@ == old(tables)@,
            t <= tables@.len(),
            table_named(tables@, table@, t as int) == table_named(tables@, table@, 0),
        decreases tables@.len() - t,
    {
        t += 1;
    }
    let mut measured: Option<usize> = None;
    if t < tables.len() {
        let columns = columns_of(infos);
        let entry = &mut tables[t];
        entry.columns = columns;
        measured = Some(t);
    }
    let laid_out = tables.len() > 0 && all_loaded(tables);
    let mut guessed: Option<usize> = None;
    if laid_out && relationships.len() == 0 {
        let guess = infer_relationships_from_columns(tables);
        if guess.len() > 0 {
            guessed = Some(guess.len());
            *relationships = guess;
        }
    }
    ColumnsArrived { measured, laid_out, guessed }
}

/// Tables without columns for the names of the database's tables, in order.
pub fn empty_tables(names: &Vec<String>) -> (tables: Vec<ERTable>)
    ensures
        tables@.len() == names@.len(),
        forall|i: int|
            0 <= i < names@.len() ==> {
                &&& (#[trigger] tables@[i]).name@ == names@[i]@
                &&& tables@[i].columns@.len() == 0
                &&& !tables@[i].selected
            },
{
    let mut tables: Vec<ERTable> = Vec::new();
    let mut i: usize = 0;
    while i < names.len()
        invariant
            i <= names@.len(),
            tables@.len() == i,
            forall|j: int|
                0 <= j < i ==> {
                    &&& (#[trigger] tables@[j]).name@ == names@[j]@
                    &&& tables@[j].columns@.len() == 0
                    &&& !tables@[j].selected
                },
        decreases names@.len() - i,
    {
        tables.push(ERTable::new(names[i].clone()));
        i += 1;
    }
    tables
}

/// What the window says of a diagram whose relationships have arrived.
pub open spec fn diagram_summary(tables: nat, relationships: nat) -> Seq<char> {
    if relationships > 0 {
        "ER图: "@ + decimal(tables) + " 张表, "@ + decimal(relationships) + " 个关系"@
    } else {
        "ER图: "@ + decimal(tables) + " 张表（未发现外键关系）"@
    }
}

/// What the window says of a diagram whose relationships have arrived: the
/// number of tables and of relationships, or that there are none.
pub fn diagram_message(tables: usize, relationships: usize) -> (text: String)
    ensures
        text@ == diagram_summary(tables as nat, relationships as nat),
{
    let mut out = chars_of("ER图: ");
    push_decimal(&mut out, tables);
    if relationships > 0 {
        push_str(&mut out, " 张表, ");
        push_decimal(&mut out, relationships);
        push_str(&mut out, " 个关系");
    } else {
        push_str(&mut out, " 张表（未发现外键关系）");
    }
    string_of(&out)
}

/// What the window says of relationships that were guessed.
pub fn guessed_message(relationships: usize) -> (text: String)
    ensures
        text@ == "ER图: 推断出 "@ + decimal(relationships as nat) + " 个关系"@,
{
    let mut out = chars_of("ER图: 推断出 ");
    push_decimal(&mut out, relationships);
    push_str(&mut out, " 个关系");
    string_of(&out)
}

/// The name by which the messages call the database: its own, or a word for
/// none chosen.
pub fn database_label(selected: &Option<String>) -> (label: String)
    ensures
        label@ == match *selected {
            Some(name) => name@,
            None => "未选择"@,
        },
{
    match selected {
        Some(name) => name.clone(),
        None => "未选择".to_owned(),
    }
}

/// What the window says while the tables of the diagram load.
pub fn loading_message(tables: usize, database: &str) -> (text: String)
    ensures
        text@ == "ER图: 加载 "@ + decimal(tables as nat) + " 张表，正在获取结构... ("@ + database@
            + ")"@,
{
    let mut out = chars_of("ER图: 加载 ");
    push_decimal(&mut out, tables);
    push_str(&mut out, " 张表，正在获取结构... (");
    push_str(&mut out, database);
    push_str(&mut out, ")");
    string_of(&out)
}

/// What the window says of a database without tables.
pub fn no_tables_message(database: &str) -> (text: String)
    ensures
        text@ == "数据库 "@ + database@ + " 没有表，请先选择数据库"@,
{
    let mut out = chars_of("数据库 ");
    push_str(&mut out, database);
    push_str(&mut out, " 没有表，请先选择数据库");
    string_of(&out)
}

/// What the window says where the columns of a table could not be had.
pub fn columns_error_message(table: &str, error: &str) -> (text: String)
    ensures
        text@ == "获取表 "@ + table@ + " 结构失败: "@ + error@,
{
    let mut out = chars_of("获取表 ");
    push_str(&mut out, table);
    push_str(&mut out, " 结构失败: ");
    push_str(&mut out, error);
    string_of(&out)
}

/// What the window says where the foreign keys could not be had.
pub fn keys_error_message(error: &str) -> (text: String)
    ensures
        text@ == "加载外键关系失败: "@ + error@,
{
    let mut out = chars_of("加载外键关系失败: ");
    push_str(&mut out, error);
    string_of(&out)
}

} // verus!
