//! One query tab, and the title that a statement gives it.

use crate::result::QueryResult;
use crate::text::{
    byte_len, byte_length, byte_offset, char_index, chars_of, find, find_text, has_prefix,
    is_boundary, is_space, locate, offset_of, push_range, skip_whitespace, starts_with,
    string_of, trim, trimmed, uppercase,
};
use vstd::prelude::*;

verus! {

/// Whether `c` is a digit or one of the letters `a` to `f`.
pub open spec fn is_lower_hex(c: char) -> bool {
    0x30 <= c as u32 <= 0x39 || 0x61 <= c as u32 <= 0x66
}

/// Whether `id` has the form of a random UUID written with hyphens:
/// `xxxxxxxx-xxxx-4xxx-xxxx-xxxxxxxxxxxx`, each `x` a lower-case hexadecimal
/// digit.
pub open spec fn is_tab_id(id: Seq<char>) -> bool {
    &&& id.len() == 36
    &&& forall|i: int|
        0 <= i < 36 ==> if i == 8 || i == 13 || i == 18 || i == 23 {
            #[trigger] id[i] == '-'
        } else {
            is_lower_hex(id[i])
        }
    &&& id[14] == '4'
}

/// A fresh identifier for a tab. Wraps `Uuid::new_v4` of the crate `uuid` and
/// the `Display` form of the result. Assumed: the text has the form of a
/// version 4 UUID with hyphens and lower-case digits. Which digits it has is
/// random, so nothing is said of them; two calls may give the same text.
/// `Uuid::new_v4` panics where the operating system has no random numbers to
/// give.
#[verifier::external_body]
fn fresh_id() -> (id: String)
    ensures
        is_tab_id(id@),
{
    uuid::Uuid::new_v4().to_string()
}

/// One query tab.
#[derive(Debug, Clone)]
pub struct QueryTab {
    /// The tab's identifier.
    pub id: String,
    /// The title on the tab.
    pub title: String,
    /// The SQL text.
    pub sql: String,
    /// The result of the last query.
    pub result: Option<QueryResult>,
    /// Whether a query is running.
    pub executing: bool,
    /// The last message about a query.
    pub last_message: Option<String>,
    /// How long the last query took, in milliseconds.
    pub query_time_ms: Option<u64>,
    /// Whether the text has changes that are not saved.
    pub modified: bool,
    /// The table that the tab shows, if it was opened for one.
    pub table_name: Option<String>,
}

/// Whether a table name ends before `c`.
pub open spec fn ends_name(c: char) -> bool {
    is_space(c) || c == ';' || c == ',' || c == ')'
}

/// The first index at or after `i` whose character ends a table name, or the
/// length of `s`.
pub open spec fn name_end(s: Seq<char>, i: int) -> int
    decreases s.len() - i,
{
    if 0 <= i < s.len() && !ends_name(s[i]) {
        name_end(s, i + 1)
    } else {
        i
    }
}

/// `name_end` stays inside the text.
pub proof fn lemma_name_end(s: Seq<char>, i: int)
    requires
        0 <= i <= s.len(),
    ensures
        i <= name_end(s, i) <= s.len(),
    decreases s.len() - i,
{
    if i < s.len() && !ends_name(s[i]) {
        lemma_name_end(s, i + 1);
    }
}

/// The title for a statement that names no table, by the keyword that its
/// upper-case form `upper` starts with.
pub open spec fn keyword_title(upper: Seq<char>) -> Seq<char> {
    if has_prefix(upper, "SELECT"@) {
        "SELECT 查询"@
    } else if has_prefix(upper, "INSERT"@) {
        "INSERT 操作"@
    } else if has_prefix(upper, "UPDATE"@) {
        "UPDATE 操作"@
    } else if has_prefix(upper, "DELETE"@) {
        "DELETE 操作"@
    } else if has_prefix(upper, "CREATE"@) {
        "CREATE 操作"@
    } else if has_prefix(upper, "ALTER"@) {
        "ALTER 操作"@
    } else if has_prefix(upper, "DROP"@) {
        "DROP 操作"@
    } else {
        "新查询"@
    }
}

/// The byte offset in `sql` at which the table name is looked for: four bytes
/// behind the offset at which `FROM` first stands in `upper`.
pub open spec fn name_offset(upper: Seq<char>) -> Option<int> {
    match find(upper, "FROM"@) {
        Some(k) => Some(byte_offset(upper, k) as int + 4),
        None => None,
    }
}

/// Whether a title can be made for `sql`, whose trimmed upper-case form is
/// `upper`: either `upper` holds no `FROM`, or the offset behind it is the
/// start of a character of `sql` or its end.
pub open spec fn title_defined(sql: Seq<char>, upper: Seq<char>) -> bool {
    match name_offset(upper) {
        Some(pos) => is_boundary(sql, pos),
        None => true,
    }
}

/// The table name that `sql` holds at the byte offset `pos`: whitespace is
/// passed over, and the name runs up to the next whitespace, `;`, `,` or `)`.
pub open spec fn name_at(sql: Seq<char>, pos: int) -> Seq<char> {
    let rest = sql.skip(char_index(sql, pos));
    let start = skip_whitespace(rest, 0);
    rest.subrange(start, name_end(rest, start))
}

/// The title for the statement `sql`, whose trimmed upper-case form is
/// `upper`: `查询` and the table name where `FROM` is followed by a name of 1
/// to 20 bytes, else the title that the leading keyword gives.
pub open spec fn title_of(sql: Seq<char>, upper: Seq<char>) -> Seq<char> {
    match name_offset(upper) {
        Some(pos) => {
            let name = name_at(sql, pos);
            if 0 < name.len() && byte_len(name) <= 20 {
                "查询 "@ + name
            } else {
                keyword_title(upper)
            }
        },
        None => keyword_title(upper),
    }
}

/// The title that the leading keyword of `upper` gives.
fn keyword_title_for(upper: &Vec<char>) -> (title: String)
    ensures
        title@ == keyword_title(upper@),
{
    let text: &str = if starts_with(upper, "SELECT") {
        "SELECT 查询"
    } else if starts_with(upper, "INSERT") {
        "INSERT 操作"
    } else if starts_with(upper, "UPDATE") {
        "UPDATE 操作"
    } else if starts_with(upper, "DELETE") {
        "DELETE 操作"
    } else if starts_with(upper, "CREATE") {
        "CREATE 操作"
    } else if starts_with(upper, "ALTER") {
        "ALTER 操作"
    } else if starts_with(upper, "DROP") {
        "DROP 操作"
    } else {
        "新查询"
    };
    text.to_owned()
}

/// The table name that `sql` holds from the character with index `j` on.
fn name_from(sql: &Vec<char>, j: usize) -> (name: Vec<char>)
    requires
        j <= sql.len(),
    ensures
        ({
            let rest = sql@.skip(j as int);
            let start = skip_whitespace(rest, 0);
            name@ == rest.subrange(start, name_end(rest, start))
        }),
{
    let n: usize = sql.len();
    let ghost rest = sql@.skip(j as int);
    let mut a: usize = j;
    while a < n && sql[a].is_whitespace()
        invariant
            n == sql.len(),
            j <= a <= n,
            rest == sql@.skip(j as int),
            skip_whitespace(rest, a - j) == skip_whitespace(rest, 0),
        decreases n - a,
    {
        a += 1;
    }
    let mut b: usize = a;
    while b < n && !(sql[b].is_whitespace() || sql[b] == ';' || sql[b] == ',' || sql[b] == ')')
        invariant
            n == sql.len(),
            j <= a <= b <= n,
            rest == sql@.skip(j as int),
            name_end(rest, b - j) == name_end(rest, a - j),
        decreases n - b,
    {
        b += 1;
    }
    let mut name: Vec<char> = Vec::new();
    push_range(&mut name, sql, a, b);
    assert(name@ =~= rest.subrange(a - j, b - j));
    name
}

/// The sum of the UTF-8 widths of the characters of `v`, if it is at most
/// `limit`.
fn byte_len_within(v: &Vec<char>, limit: usize) -> (r: bool)
    ensures
        r == (byte_len(v@) <= limit),
{
    let (k, _) = locate(v, limit);
    proof {
        crate::text::lemma_chars_within(v@, 0, limit as int);
        crate::text::lemma_byte_offset_step_zero(v@);
        assert(v@.take(v@.len() as int) =~= v@);
        if k < v.len() {
            crate::text::lemma_byte_offset_monotonic(v@, k as int + 1, v@.len() as int);
        }
    }
    k == v.len()
}

impl QueryTab {
    /// Whether the tab is new: it has no text, no result and no table, and
    /// nothing is running or changed.
    pub open spec fn is_blank(&self) -> bool {
        &&& self.sql@ == Seq::<char>::empty()
        &&& self.result is None
        &&& !self.executing
        &&& self.last_message is None
        &&& self.query_time_ms is None
        &&& !self.modified
        &&& self.table_name is None
    }

    /// A new tab, titled `新查询`, with an identifier of its own.
    pub fn new() -> (tab: QueryTab)
        ensures
            tab.is_blank(),
            tab.title@ == "新查询"@,
            is_tab_id(tab.id@),
    {
        QueryTab {
            id: fresh_id(),
            title: "新查询".to_owned(),
            sql: String::new(),
            result: None,
            executing: false,
            last_message: None,
            query_time_ms: None,
            modified: false,
            table_name: None,
        }
    }

    /// The title for the statement `sql`, given its trimmed upper-case form.
    /// There is none where `FROM` in `upper` points between the bytes of a
    /// character of `sql`, or behind its end.
    pub fn title_from_upper(sql: &str, upper: &str) -> (title: Option<String>)
        ensures
            title is Some == title_defined(sql@, upper@),
            title is Some ==> title->0@ == title_of(sql@, upper@),
    {
        let up = chars_of(upper);
        let pattern = chars_of("FROM");
        match find_text(&up, &pattern) {
            Some(k) => {
                let upper_bytes = byte_length(upper);
                let sql_bytes = byte_length(sql);
                let offset = offset_of(&up, k);
                if offset > usize::MAX - 4 {
                    proof {
                        crate::text::lemma_chars_within(sql@, 0, offset + 4);
                        crate::text::lemma_byte_offset_step_zero(sql@);
                        let end = char_index(sql@, offset + 4);
                        crate::text::lemma_byte_offset_monotonic(sql@, end, sql@.len() as int);
                        assert(sql@.take(sql@.len() as int) =~= sql@);
                    }
                    return None;
                }
                let text = chars_of(sql);
                let (j, exact) = locate(&text, offset + 4);
                if !exact {
                    return None;
                }
                let name = name_from(&text, j);
                if name.len() > 0 && byte_len_within(&name, 20) {
                    let mut title = chars_of("查询 ");
                    let n: usize = name.len();
                    push_range(&mut title, &name, 0, n);
                    assert(title@ =~= "查询 "@ + name@);
                    Some(string_of(&title))
                } else {
                    Some(keyword_title_for(&up))
                }
            },
            None => Some(keyword_title_for(&up)),
        }
    }

    /// The title for the statement `sql`, if one can be made.
    pub fn try_extract_title(sql: &str) -> (title: Option<String>)
        ensures
            title is Some == title_defined(sql@, uppercase(trim(sql@))),
            title is Some ==> title->0@ == title_of(sql@, uppercase(trim(sql@))),
    {
        let text = chars_of(sql);
        let core = string_of(&trimmed(&text));
        let upper = core.as_str().to_uppercase();
        Self::title_from_upper(sql, upper.as_str())
    }

    /// The title for the statement `sql`.
    pub fn extract_title(sql: &str) -> (title: String)
        requires
            title_defined(sql@, uppercase(trim(sql@))),
        ensures
            title@ == title_of(sql@, uppercase(trim(sql@))),
    {
        match Self::try_extract_title(sql) {
            Some(title) => title,
            None => String::new(),
        }
    }

    /// Whether `tab` is a tab just made for the statement `sql`: it holds the
    /// statement, is titled after it and counts as changed.
    pub open spec fn made_from_sql(tab: QueryTab, sql: Seq<char>) -> bool {
        &&& tab.sql@ == sql
        &&& tab.title@ == title_of(sql, uppercase(trim(sql)))
        &&& tab.modified
        &&& tab.result is None
        &&& !tab.executing
        &&& tab.last_message is None
        &&& tab.query_time_ms is None
        &&& tab.table_name is None
        &&& is_tab_id(tab.id@)
    }

    /// A tab for the statement `sql`.
    pub fn from_sql(sql: &str) -> (tab: QueryTab)
        requires
            title_defined(sql@, uppercase(trim(sql@))),
        ensures
            Self::made_from_sql(tab, sql@),
    {
        let mut tab = QueryTab::new();
        tab.sql = sql.to_owned();
        tab.title = Self::extract_title(sql);
        tab.modified = true;
        tab
    }

    /// A tab for the statement `sql`, if a title can be made for it.
    pub fn try_from_sql(sql: &str) -> (tab: Option<QueryTab>)
        ensures
            tab is Some == title_defined(sql@, uppercase(trim(sql@))),
            tab is Some ==> Self::made_from_sql(tab->0, sql@),
    {
        match Self::try_extract_title(sql) {
            Some(_) => Some(Self::from_sql(sql)),
            None => None,
        }
    }

    /// Whether `tab` is a tab just made to show `table_name` with the
    /// statement `sql`: it is titled after the table and not changed.
    pub open spec fn made_from_table(tab: QueryTab, table_name: Seq<char>, sql: Seq<char>) -> bool {
        &&& tab.sql@ == sql
        &&& tab.title@ == table_name
        &&& tab.table_name is Some
        &&& tab.table_name->0@ == table_name
        &&& !tab.modified
        &&& tab.result is None
        &&& !tab.executing
        &&& tab.last_message is None
        &&& tab.query_time_ms is None
        &&& is_tab_id(tab.id@)
    }

    /// A tab that shows the table `table_name` with the statement `sql`.
    pub fn from_table(table_name: &str, sql: &str) -> (tab: QueryTab)
        ensures
            Self::made_from_table(tab, table_name@, sql@),
    {
        let mut tab = QueryTab::new();
        tab.sql = sql.to_owned();
        tab.title = table_name.to_owned();
        tab.table_name = Some(table_name.to_owned());
        tab
    }

    /// Whether the title follows the text: it does unless the tab shows a
    /// table.
    pub open spec fn title_follows_sql(&self) -> bool {
        self.table_name is None
    }

    /// Whether `update_title` can run: the tab shows a table, or a title can
    /// be made for its text.
    pub open spec fn can_update_title(&self) -> bool {
        self.title_follows_sql() ==> title_defined(self.sql@, uppercase(trim(self.sql@)))
    }

    /// Whether `after` is `before` once its title has been brought up to
    /// date: a tab that shows a table keeps its title, another is titled
    /// after its text. Nothing else changes.
    pub open spec fn title_updated(before: QueryTab, after: QueryTab) -> bool {
        &&& after.title@ == if before.title_follows_sql() {
            title_of(before.sql@, uppercase(trim(before.sql@)))
        } else {
            before.title@
        }
        &&& after.id == before.id
        &&& after.sql == before.sql
        &&& after.result == before.result
        &&& after.executing == before.executing
        &&& after.last_message == before.last_message
        &&& after.query_time_ms == before.query_time_ms
        &&& after.modified == before.modified
        &&& after.table_name == before.table_name
    }

    /// Brings the title up to date with the text.
    pub fn update_title(&mut self)
        requires
            old(self).can_update_title(),
        ensures
            Self::title_updated(*old(self), *final(self)),
    {
        if self.table_name.is_none() {
            self.title = Self::extract_title(self.sql.as_str());
        }
    }

    /// Brings the title up to date with the text where that can be done, and
    /// says whether it could.
    pub fn try_update_title(&mut self) -> (done: bool)
        ensures
            done == old(self).can_update_title(),
            done ==> Self::title_updated(*old(self), *final(self)),
            !done ==> *final(self) == *old(self),
    {
        if self.table_name.is_none() {
            match Self::try_extract_title(self.sql.as_str()) {
                Some(_) => {
                    self.update_title();
                    true
                },
                None => false,
            }
        } else {
            self.update_title();
            true
        }
    }

    /// The title on the tab.
    pub fn title(&self) -> (title: &str)
        ensures
            title@ == self.title@,
    {
        self.title.as_str()
    }
}

impl Default for QueryTab {
    fn default() -> (tab: Self)
        ensures
            tab.is_blank(),
            tab.title@ == "新查询"@,
            is_tab_id(tab.id@),
    {
        QueryTab::new()
    }
}

} // verus!
