//! The manager of the query tabs: it opens, closes and switches them, and
//! numbers the tabs it opens.

use crate::query_tabs::tab::{is_tab_id, title_defined, title_of, QueryTab};
use crate::text::{
    chars_of, decimal, has_prefix, lemma_parse_decimal, parse_number, parse_usize, push_decimal,
    push_range, same_text, starts_with, string_of, trim, uppercase,
};
use vstd::prelude::*;

verus! {

/// The tabs and which of them is active.
pub struct QueryTabManager {
    /// The tabs, from left to right.
    pub tabs: Vec<QueryTab>,
    /// The index of the active tab.
    pub active_index: usize,
    /// How many tabs there can be.
    pub max_tabs: usize,
}

/// The number of a tab titled `查询 N`, for a title of this form.
pub open spec fn tab_number(title: Seq<char>) -> Option<usize> {
    if has_prefix(title, "查询 "@) {
        parse_usize(title.skip("查询 "@.len() as int))
    } else {
        None
    }
}

/// Whether a tab in `tabs` has the number `n`.
pub open spec fn number_in_use(tabs: Seq<QueryTab>, n: usize) -> bool {
    exists|i: int| 0 <= i < tabs.len() && tab_number(#[trigger] tabs[i].title@) == Some(n)
}

/// The title of the tab with number `n`.
pub open spec fn numbered_title(n: usize) -> Seq<char> {
    "查询 "@ + decimal(n as nat)
}

/// The tab with number `n` is titled so that the number can be read back.
pub proof fn lemma_numbered_title(n: usize)
    ensures
        tab_number(numbered_title(n)) == Some(n),
{
    let prefix = "查询 "@;
    let title = numbered_title(n);
    assert(title.subrange(0, prefix.len() as int) =~= prefix);
    assert(title.skip(prefix.len() as int) =~= decimal(n as nat));
    lemma_parse_decimal(n);
}

/// Whether `s` is in ascending order.
pub open spec fn ascending(s: Seq<usize>) -> bool {
    forall|i: int, j: int| 0 <= i <= j < s.len() ==> s[i] <= s[j]
}

/// Puts `x` into the ascending vector `v`, behind the elements that are not
/// greater.
fn insert_ascending(v: &mut Vec<usize>, x: usize)
    requires
        ascending(old(v)@),
    ensures
        ascending(final(v)@),
        final(v)@.len() == old(v)@.len() + 1,
        forall|y: usize| final(v)@.contains(y) <==> (old(v)@.contains(y) || y == x),
{
    let mut i: usize = 0;
    while i < v.len() && v[i] <= x
        invariant
            i <= v.len(),
            v@ == old(v)@,
            forall|j: int| 0 <= j < i ==> v@[j] <= x,
        decreases v.len() - i,
    {
        i += 1;
    }
    v.insert(i, x);
    proof {
        let before = old(v)@;
        let after = v@;
        assert(after.len() == before.len() + 1);
        assert(after[i as int] == x);
        assert forall|k: int| 0 <= k < i implies after[k] == before[k] by {}
        assert forall|k: int| i < k < after.len() implies after[k] == before[k - 1] by {}
        assert forall|a: int, b: int| 0 <= a <= b < after.len() implies after[a] <= after[b] by {
            if b < i {
            } else if a > i {
                assert(before[a - 1] <= before[b - 1]);
            } else if a == i && b > i {
                assert(before[i as int] <= before[b - 1]);
            } else if a < i && b > i {
                assert(before[a] <= before[b - 1]);
            }
        }
        assert forall|y: usize| after.contains(y) <==> (before.contains(y) || y == x) by {
            if after.contains(y) {
                let k = choose|k: int| 0 <= k < after.len() && after[k] == y;
                if k < i {
                    assert(before[k] == y);
                } else if k > i {
                    assert(before[k - 1] == y);
                }
            }
            if before.contains(y) {
                let k = choose|k: int| 0 <= k < before.len() && before[k] == y;
                if k < i {
                    assert(after[k] == y);
                } else {
                    assert(after[k + 1] == y);
                }
            }
        }
    }
}

/// The number of the tab titled `title`, if it is titled `查询 N`.
fn number_of(title: &str) -> (n: Option<usize>)
    ensures
        n == tab_number(title@),
{
    let text = chars_of(title);
    if starts_with(&text, "查询 ") {
        let prefix = chars_of("查询 ");
        let mut rest: Vec<char> = Vec::new();
        push_range(&mut rest, &text, prefix.len(), text.len());
        assert(rest@ =~= title@.skip("查询 "@.len() as int));
        parse_number(&rest)
    } else {
        None
    }
}

impl QueryTabManager {
    /// Whether there is a tab and the active index points at one.
    pub open spec fn wf(&self) -> bool {
        self.tabs@.len() > 0 && self.active_index < self.tabs@.len()
    }

    /// The smallest number from 1 on that no tab has.
    pub open spec fn next_number(tabs: Seq<QueryTab>, n: usize) -> bool {
        &&& n >= 1
        &&& !number_in_use(tabs, n)
        &&& forall|m: usize| 1 <= m < n ==> number_in_use(tabs, m)
    }

    /// The smallest number from 1 on that no tab in `tabs` has.
    pub open spec fn smallest_free(tabs: Seq<QueryTab>) -> usize {
        choose|n: usize| Self::next_number(tabs, n)
    }

    /// There is one smallest free number at most.
    pub proof fn lemma_next_number_unique(tabs: Seq<QueryTab>, a: usize, b: usize)
        requires
            Self::next_number(tabs, a),
        ensures
            Self::next_number(tabs, b) ==> a == b,
            Self::smallest_free(tabs) == a,
    {
        let c = Self::smallest_free(tabs);
        assert(Self::next_number(tabs, c));
        if a < c {
            assert(number_in_use(tabs, a));
        }
        if c < a {
            assert(number_in_use(tabs, c));
        }
        if Self::next_number(tabs, b) {
            if a < b {
                assert(number_in_use(tabs, a));
            }
            if b < a {
                assert(number_in_use(tabs, b));
            }
        }
    }

    /// One tab, number 1, which is active; room for twenty tabs.
    pub fn new() -> (manager: QueryTabManager)
        ensures
            manager.wf(),
            manager.tabs@.len() == 1,
            manager.active_index == 0,
            manager.max_tabs == 20,
            manager.tabs@[0].title@ == numbered_title(1),
            manager.tabs@[0].is_blank(),
    {
        let mut manager = QueryTabManager { tabs: Vec::new(), active_index: 0, max_tabs: 20 };
        manager.new_tab();
        proof {
            let none = Seq::<QueryTab>::empty();
            assert(Self::next_number(none, 1));
            Self::lemma_next_number_unique(none, 1, Self::smallest_free(none));
        }
        manager
    }

    /// The smallest number from 1 on that no tab has.
    pub fn find_next_number(&self) -> (n: usize)
        requires
            self.tabs@.len() < usize::MAX,
        ensures
            Self::next_number(self.tabs@, n),
            n == Self::smallest_free(self.tabs@),
    {
        let n = self.first_free_number();
        proof {
            Self::lemma_next_number_unique(self.tabs@, n, n);
        }
        n
    }

    /// The smallest number from 1 on that is not among the numbers of the
    /// tabs, found by sorting those numbers and walking up them.
    fn first_free_number(&self) -> (n: usize)
        requires
            self.tabs@.len() < usize::MAX,
        ensures
            Self::next_number(self.tabs@, n),
    {
        let mut used: Vec<usize> = Vec::new();
        let mut i: usize = 0;
        while i < self.tabs.len()
            invariant
                i <= self.tabs@.len(),
                used@.len() <= i,
                ascending(used@),
                forall|y: usize|
                    used@.contains(y) <==> number_in_use(self.tabs@.take(i as int), y),
            decreases self.tabs@.len() - i,
        {
            let ghost seen = self.tabs@.take(i as int);
            let ghost seen_next = self.tabs@.take(i as int + 1);
            let ghost old_used = used@;
            let number = number_of(self.tabs[i].title.as_str());
            if let Some(x) = number {
                insert_ascending(&mut used, x);
            }
            proof {
                assert forall|y: usize|
                    used@.contains(y) <==> number_in_use(seen_next, y) by {
                    if number_in_use(seen_next, y) {
                        let k = choose|k: int|
                            0 <= k < seen_next.len() && tab_number(#[trigger] seen_next[k].title@)
                                == Some(y);
                        if k < i {
                            assert(tab_number(seen[k].title@) == Some(y));
                            assert(number_in_use(seen, y));
                        }
                    }
                    if old_used.contains(y) {
                        assert(number_in_use(seen, y));
                        let k = choose|k: int|
                            0 <= k < seen.len() && tab_number(#[trigger] seen[k].title@) == Some(
                                y,
                            );
                        assert(tab_number(seen_next[k].title@) == Some(y));
                    }
                    if number == Some(y) {
                        assert(tab_number(seen_next[i as int].title@) == Some(y));
                    }
                }
            }
            i += 1;
        }
        assert(self.tabs@.take(self.tabs@.len() as int) =~= self.tabs@);
        assert(used@.len() < usize::MAX);
        let mut next: usize = 1;
        let mut j: usize = 0;
        while j < used.len()
            invariant
                j <= used@.len(),
                used@.len() < usize::MAX,
                ascending(used@),
                1 <= next <= j + 1,
                forall|k: int| 0 <= k < j ==> used@[k] < next,
                forall|m: usize| 1 <= m < next ==> used@.contains(m),
                forall|y: usize| used@.contains(y) <==> number_in_use(self.tabs@, y),
            decreases used@.len() - j,
        {
            let number: usize = used[j];
            if number == next {
                next += 1;
            } else if number > next {
                proof {
                    assert forall|k: int| 0 <= k < used@.len() implies used@[k] != next by {
                        if k >= j {
                            assert(used@[j as int] <= used@[k]);
                        }
                    }
                    assert(!used@.contains(next));
                    assert forall|m: usize| 1 <= m < next implies number_in_use(
                        self.tabs@,
                        m,
                    ) by {
                        assert(used@.contains(m));
                    }
                }
                return next;
            }
            j += 1;
        }
        proof {
            assert(!used@.contains(next));
            assert forall|m: usize| 1 <= m < next implies number_in_use(self.tabs@, m) by {
                assert(used@.contains(m));
            }
        }
        next
    }
}

impl QueryTabManager {
    /// Whether `tabs` is `before` with one tab more at its end.
    pub open spec fn one_more(before: Seq<QueryTab>, tabs: Seq<QueryTab>) -> bool {
        tabs.len() == before.len() + 1 && tabs.drop_last() == before
    }

    /// Opens a tab with the smallest free number and makes it active. Where
    /// `max_tabs` tabs are open already, nothing changes. Returns the index
    /// of the active tab.
    pub fn new_tab(&mut self) -> (index: usize)
        ensures
            index == final(self).active_index,
            final(self).max_tabs == old(self).max_tabs,
            old(self).tabs@.len() >= old(self).max_tabs ==> *final(self) == *old(self),
            old(self).tabs@.len() < old(self).max_tabs ==> {
                &&& Self::one_more(old(self).tabs@, final(self).tabs@)
                &&& index == old(self).tabs@.len()
                &&& final(self).tabs@.last().is_blank()
                &&& is_tab_id(final(self).tabs@.last().id@)
                &&& Self::next_number(old(self).tabs@, Self::smallest_free(old(self).tabs@))
                &&& final(self).tabs@.last().title@ == numbered_title(
                    Self::smallest_free(old(self).tabs@),
                )
            },
            old(self).wf() ==> final(self).wf(),
    {
        if self.tabs.len() >= self.max_tabs {
            return self.active_index;
        }
        let number = self.find_next_number();
        let mut title = chars_of("查询 ");
        push_decimal(&mut title, number);
        let mut tab = QueryTab::new();
        tab.title = string_of(&title);
        self.tabs.push(tab);
        assert(self.tabs@.drop_last() =~= old(self).tabs@);
        self.active_index = self.tabs.len() - 1;
        self.active_index
    }

    /// Whether the tab `after` is `before` with the text `sql` and the title
    /// brought up to date with it.
    pub open spec fn sql_replaced(before: QueryTab, sql: Seq<char>, after: QueryTab) -> bool {
        &&& after.sql@ == sql
        &&& after.title@ == if before.title_follows_sql() {
            title_of(sql, uppercase(trim(sql)))
        } else {
            before.title@
        }
        &&& after.id == before.id
        &&& after.result == before.result
        &&& after.executing == before.executing
        &&& after.last_message == before.last_message
        &&& after.query_time_ms == before.query_time_ms
        &&& after.modified == before.modified
        &&& after.table_name == before.table_name
    }

    /// Whether there is room for one tab more.
    pub open spec fn has_room(&self) -> bool {
        self.tabs@.len() < self.max_tabs
    }

    /// Whether the manager can take the statement `sql`: a title is needed
    /// for it where a tab is opened or the active tab follows its text, and
    /// then one can be made.
    pub open spec fn takes_sql(&self, sql: Seq<char>) -> bool {
        (self.has_room() || (self.active_index < self.tabs@.len()
            && self.tabs@[self.active_index as int].title_follows_sql())) ==> title_defined(
            sql,
            uppercase(trim(sql)),
        )
    }

    /// Whether `after` is `before` once it has taken the statement `sql`:
    /// with room left, a tab for the statement is opened and made active;
    /// without, the active tab gets the statement as its text.
    pub open spec fn sql_taken(before: QueryTabManager, sql: Seq<char>, after: QueryTabManager) -> bool {
        &&& after.max_tabs == before.max_tabs
        &&& if before.has_room() {
            &&& Self::one_more(before.tabs@, after.tabs@)
            &&& after.active_index == before.tabs@.len()
            &&& QueryTab::made_from_sql(after.tabs@.last(), sql)
        } else if before.active_index < before.tabs@.len() {
            &&& after.active_index == before.active_index
            &&& after.tabs@ == before.tabs@.update(
                before.active_index as int,
                after.tabs@[before.active_index as int],
            )
            &&& Self::sql_replaced(
                before.tabs@[before.active_index as int],
                sql,
                after.tabs@[before.active_index as int],
            )
        } else {
            after == before
        }
    }

    /// Opens a tab for the statement `sql` and makes it active. Where
    /// `max_tabs` tabs are open already, the active tab takes the statement
    /// instead. Returns the index of the active tab.
    pub fn new_tab_with_sql(&mut self, sql: &str) -> (index: usize)
        requires
            old(self).takes_sql(sql@),
        ensures
            index == final(self).active_index,
            Self::sql_taken(*old(self), sql@, *final(self)),
            old(self).wf() ==> final(self).wf(),
    {
        if self.tabs.len() >= self.max_tabs {
            let i: usize = self.active_index;
            if i < self.tabs.len() {
                let tab = &mut self.tabs[i];
                tab.sql = sql.to_owned();
                tab.update_title();
                assert(self.tabs@ =~= old(self).tabs@.update(i as int, self.tabs@[i as int]));
            }
            return self.active_index;
        }
        let tab = QueryTab::from_sql(sql);
        self.tabs.push(tab);
        assert(self.tabs@.drop_last() =~= old(self).tabs@);
        self.active_index = self.tabs.len() - 1;
        self.active_index
    }

    /// Takes the statement `sql` as `new_tab_with_sql` does, if the manager
    /// can take it; else nothing changes.
    pub fn try_new_tab_with_sql(&mut self, sql: &str) -> (index: Option<usize>)
        ensures
            index is Some == old(self).takes_sql(sql@),
            index is Some ==> Self::sql_taken(*old(self), sql@, *final(self)) && index->0
                == final(self).active_index,
            index is None ==> *final(self) == *old(self),
            old(self).wf() ==> final(self).wf(),
    {
        let needs_title = self.tabs.len() < self.max_tabs || (self.active_index < self.tabs.len()
            && self.tabs[self.active_index].table_name.is_none());
        if needs_title && QueryTab::try_extract_title(sql).is_none() {
            return None;
        }
        Some(self.new_tab_with_sql(sql))
    }

    /// Whether `tab` shows the table `table_name`.
    pub open spec fn shows_table(tab: QueryTab, table_name: Seq<char>) -> bool {
        tab.table_name is Some && tab.table_name->0@ == table_name
    }

    /// The index of the first tab that shows `table_name`.
    pub fn tab_of_table(&self, table_name: &str) -> (r: Option<usize>)
        ensures
            match r {
                Some(i) => i < self.tabs@.len() && Self::shows_table(
                    self.tabs@[i as int],
                    table_name@,
                ) && forall|j: int|
                    0 <= j < i ==> !Self::shows_table(#[trigger] self.tabs@[j], table_name@),
                None => forall|j: int|
                    0 <= j < self.tabs@.len() ==> !Self::shows_table(
                        #[trigger] self.tabs@[j],
                        table_name@,
                    ),
            },
    {
        let mut i: usize = 0;
        while i < self.tabs.len()
            invariant
                i <= self.tabs@.len(),
                forall|j: int|
                    0 <= j < i ==> !Self::shows_table(#[trigger] self.tabs@[j], table_name@),
            decreases self.tabs@.len() - i,
        {
            let shows = match &self.tabs[i].table_name {
                Some(name) => same_text(name.as_str(), table_name),
                None => false,
            };
            if shows {
                return Some(i);
            }
            i += 1;
        }
        None
    }

    /// Whether the tab `after` is `before` turned to the table `table_name`
    /// with the statement `sql`.
    pub open spec fn table_replaced(
        before: QueryTab,
        table_name: Seq<char>,
        sql: Seq<char>,
        after: QueryTab,
    ) -> bool {
        &&& after.sql@ == sql
        &&& after.title@ == table_name
        &&& Self::shows_table(after, table_name)
        &&& after.id == before.id
        &&& after.result == before.result
        &&& after.executing == before.executing
        &&& after.last_message == before.last_message
        &&& after.query_time_ms == before.query_time_ms
        &&& after.modified == before.modified
    }

    /// Whether a tab in `tabs` shows `table_name`.
    pub open spec fn table_open(tabs: Seq<QueryTab>, table_name: Seq<char>) -> bool {
        exists|j: int| 0 <= j < tabs.len() && Self::shows_table(#[trigger] tabs[j], table_name)
    }

    /// Makes the tab that shows the table `table_name` active: the first such
    /// tab if there is one; else a new tab with the statement `sql`; else,
    /// where `max_tabs` tabs are open already, the active tab, which is
    /// turned to the table. Returns the index of the active tab.
    pub fn new_tab_for_table(&mut self, table_name: &str, sql: &str) -> (index: usize)
        ensures
            index == final(self).active_index,
            final(self).max_tabs == old(self).max_tabs,
            Self::table_open(old(self).tabs@, table_name@) ==> {
                &&& final(self).tabs == old(self).tabs
                &&& index < old(self).tabs@.len()
                &&& Self::shows_table(old(self).tabs@[index as int], table_name@)
                &&& forall|j: int|
                    0 <= j < index ==> !Self::shows_table(
                        #[trigger] old(self).tabs@[j],
                        table_name@,
                    )
            },
            !Self::table_open(old(self).tabs@, table_name@) && old(self).has_room() ==> {
                &&& Self::one_more(old(self).tabs@, final(self).tabs@)
                &&& index == old(self).tabs@.len()
                &&& QueryTab::made_from_table(final(self).tabs@.last(), table_name@, sql@)
            },
            !Self::table_open(old(self).tabs@, table_name@) && !old(self).has_room() ==> {
                &&& index == old(self).active_index
                &&& if index < old(self).tabs@.len() {
                    &&& final(self).tabs@ == old(self).tabs@.update(
                        index as int,
                        final(self).tabs@[index as int],
                    )
                    &&& Self::table_replaced(
                        old(self).tabs@[index as int],
                        table_name@,
                        sql@,
                        final(self).tabs@[index as int],
                    )
                } else {
                    final(self).tabs == old(self).tabs
                }
            },
            old(self).wf() ==> final(self).wf(),
    {
        if let Some(found) = self.tab_of_table(table_name) {
            self.active_index = found;
            return found;
        }
        if self.tabs.len() >= self.max_tabs {
            let i: usize = self.active_index;
            if i < self.tabs.len() {
                let tab = &mut self.tabs[i];
                tab.sql = sql.to_owned();
                tab.table_name = Some(table_name.to_owned());
                tab.title = table_name.to_owned();
                assert(self.tabs@ =~= old(self).tabs@.update(i as int, self.tabs@[i as int]));
            }
            return self.active_index;
        }
        let tab = QueryTab::from_table(table_name, sql);
        self.tabs.push(tab);
        assert(self.tabs@.drop_last() =~= old(self).tabs@);
        self.active_index = self.tabs.len() - 1;
        self.active_index
    }

    /// The active index after the tab at `index` has left `count` tabs: it
    /// follows the tab it pointed at, and where that tab is gone it points at
    /// the tab now in its place, or at the last.
    pub open spec fn active_after_close(active: usize, index: usize, count: nat) -> usize {
        if active >= count - 1 {
            (count - 2) as usize
        } else if active > index {
            (active - 1) as usize
        } else {
            active
        }
    }

    /// Closes the tab at `index`. The last tab stays open, and an index that
    /// points at no tab changes nothing.
    pub fn close_tab(&mut self, index: usize)
        ensures
            final(self).max_tabs == old(self).max_tabs,
            old(self).tabs@.len() > 1 && index < old(self).tabs@.len() ==> {
                &&& final(self).tabs@ == old(self).tabs@.remove(index as int)
                &&& final(self).active_index == Self::active_after_close(
                    old(self).active_index,
                    index,
                    old(self).tabs@.len(),
                )
            },
            !(old(self).tabs@.len() > 1 && index < old(self).tabs@.len()) ==> *final(self) == *old(
                self,
            ),
            old(self).wf() ==> final(self).wf(),
    {
        if self.tabs.len() <= 1 {
            return;
        }
        if index < self.tabs.len() {
            self.tabs.remove(index);
            if self.active_index >= self.tabs.len() {
                self.active_index = self.tabs.len() - 1;
            } else if self.active_index > index {
                self.active_index -= 1;
            }
        }
    }

    /// Closes the active tab.
    pub fn close_active_tab(&mut self)
        ensures
            final(self).max_tabs == old(self).max_tabs,
            old(self).tabs@.len() > 1 && old(self).active_index < old(self).tabs@.len() ==> {
                &&& final(self).tabs@ == old(self).tabs@.remove(old(self).active_index as int)
                &&& final(self).active_index == Self::active_after_close(
                    old(self).active_index,
                    old(self).active_index,
                    old(self).tabs@.len(),
                )
            },
            !(old(self).tabs@.len() > 1 && old(self).active_index < old(self).tabs@.len())
                ==> *final(self) == *old(self),
            old(self).wf() ==> final(self).wf(),
    {
        let index: usize = self.active_index;
        self.close_tab(index);
    }

    /// Closes every tab but the active one. Where the active index points at
    /// no tab nothing changes.
    pub fn close_other_tabs(&mut self)
        ensures
            final(self).max_tabs == old(self).max_tabs,
            old(self).active_index < old(self).tabs@.len() ==> final(self).tabs@ == seq![
                old(self).tabs@[old(self).active_index as int],
            ] && final(self).active_index == 0,
            old(self).active_index >= old(self).tabs@.len() ==> *final(self) == *old(self),
            old(self).wf() ==> final(self).wf(),
    {
        let index: usize = self.active_index;
        if index < self.tabs.len() {
            self.tabs.truncate(index + 1);
            let kept = self.tabs.pop();
            self.tabs.clear();
            match kept {
                Some(tab) => {
                    self.tabs.push(tab);
                },
                None => {},
            }
            self.active_index = 0;
            assert(self.tabs@ =~= seq![old(self).tabs@[index as int]]);
        }
    }

    /// Closes the tabs to the right of the active one.
    pub fn close_tabs_to_right(&mut self)
        requires
            old(self).tabs@.len() > 0,
        ensures
            final(self).max_tabs == old(self).max_tabs,
            final(self).active_index == old(self).active_index,
            old(self).active_index < old(self).tabs@.len() ==> final(self).tabs@ == old(
                self,
            ).tabs@.take(old(self).active_index + 1),
            old(self).active_index >= old(self).tabs@.len() ==> final(self).tabs == old(self).tabs,
            old(self).wf() ==> final(self).wf(),
    {
        if self.active_index < self.tabs.len() - 1 {
            self.tabs.truncate(self.active_index + 1);
            assert(self.tabs@ =~= old(self).tabs@.take(old(self).active_index + 1));
        } else if self.active_index < self.tabs.len() {
            assert(self.tabs@ =~= old(self).tabs@.take(old(self).active_index + 1));
        }
    }

    /// The active tab.
    pub fn get_active(&self) -> (tab: Option<&QueryTab>)
        ensures
            self.active_index < self.tabs@.len() ==> tab == Some(
                &self.tabs@[self.active_index as int],
            ),
            self.active_index >= self.tabs@.len() ==> tab is None,
    {
        if self.active_index < self.tabs.len() {
            Some(&self.tabs[self.active_index])
        } else {
            None
        }
    }

    /// The active tab, to change it.
    pub fn get_active_mut(&mut self) -> (tab: Option<&mut QueryTab>)
        ensures
            final(self).active_index == old(self).active_index,
            final(self).max_tabs == old(self).max_tabs,
            old(self).active_index < old(self).tabs@.len() ==> {
                &&& tab is Some
                &&& *tab->0 == old(self).tabs@[old(self).active_index as int]
                &&& final(self).tabs@ == old(self).tabs@.update(
                    old(self).active_index as int,
                    *final(tab->0),
                )
            },
            old(self).active_index >= old(self).tabs@.len() ==> tab is None && final(self).tabs
                == old(self).tabs,
    {
        if self.active_index < self.tabs.len() {
            Some(&mut self.tabs[self.active_index])
        } else {
            None
        }
    }

    /// Makes the tab at `index` active, if there is one.
    pub fn set_active(&mut self, index: usize)
        ensures
            final(self).tabs == old(self).tabs,
            final(self).max_tabs == old(self).max_tabs,
            final(self).active_index == if index < old(self).tabs@.len() {
                index
            } else {
                old(self).active_index
            },
            old(self).wf() ==> final(self).wf(),
    {
        if index < self.tabs.len() {
            self.active_index = index;
        }
    }

    /// Makes the tab to the right active, and the first after the last.
    pub fn next_tab(&mut self)
        requires
            old(self).tabs@.len() > 0 ==> old(self).active_index < usize::MAX,
        ensures
            final(self).tabs == old(self).tabs,
            final(self).max_tabs == old(self).max_tabs,
            final(self).active_index == if old(self).tabs@.len() > 0 {
                (old(self).active_index + 1) % (old(self).tabs@.len() as int)
            } else {
                old(self).active_index as int
            },
            old(self).wf() ==> final(self).wf(),
    {
        if self.tabs.len() > 0 {
            self.active_index = (self.active_index + 1) % self.tabs.len();
        }
    }

    /// Makes the tab to the left active, and the last before the first.
    pub fn prev_tab(&mut self)
        ensures
            final(self).tabs == old(self).tabs,
            final(self).max_tabs == old(self).max_tabs,
            final(self).active_index == if old(self).tabs@.len() == 0 {
                old(self).active_index as int
            } else if old(self).active_index == 0 {
                old(self).tabs@.len() - 1
            } else {
                old(self).active_index - 1
            },
            old(self).wf() ==> final(self).wf(),
    {
        if self.tabs.len() > 0 {
            self.active_index = if self.active_index == 0 {
                self.tabs.len() - 1
            } else {
                self.active_index - 1
            };
        }
    }

    /// Whether a tab has changes that are not saved.
    pub fn has_unsaved_changes(&self) -> (r: bool)
        ensures
            r == exists|i: int| 0 <= i < self.tabs@.len() && (#[trigger] self.tabs@[i]).modified,
    {
        let mut i: usize = 0;
        while i < self.tabs.len()
            invariant
                i <= self.tabs@.len(),
                forall|j: int| 0 <= j < i ==> !(#[trigger] self.tabs@[j]).modified,
            decreases self.tabs@.len() - i,
        {
            if self.tabs[i].modified {
                return true;
            }
            i += 1;
        }
        false
    }

    /// How many tabs there are.
    pub fn len(&self) -> (n: usize)
        ensures
            n == self.tabs@.len(),
    {
        self.tabs.len()
    }

    /// Whether there is no tab.
    pub fn is_empty(&self) -> (r: bool)
        ensures
            r == (self.tabs@.len() == 0),
    {
        self.tabs.len() == 0
    }

    /// The index of the active tab.
    pub fn active_index(&self) -> (index: usize)
        ensures
            index == self.active_index,
    {
        self.active_index
    }

    /// On a manager in which the active index points at a tab, going right
    /// and then left, or left and then right, comes back to the same tab.
    pub proof fn lemma_next_prev(count: nat, active: usize)
        requires
            active < count,
        ensures
            ({
                let next = (active + 1) % (count as int);
                let back = if next == 0 {
                    count - 1
                } else {
                    next - 1
                };
                back == active
            }),
            ({
                let prev = if active == 0 {
                    count - 1
                } else {
                    active - 1
                };
                (prev + 1) % (count as int) == active
            }),
    {
        if active + 1 == count {
            assert((active + 1) % (count as int) == 0) by {
                vstd::arithmetic::div_mod::lemma_mod_self_0(count as int);
            }
        } else {
            assert((active + 1) % (count as int) == active + 1) by {
                vstd::arithmetic::div_mod::lemma_small_mod((active + 1) as nat, count);
            }
        }
        if active > 0 {
            assert(((active - 1) + 1) % (count as int) == active) by {
                vstd::arithmetic::div_mod::lemma_small_mod(active as nat, count);
            }
        } else {
            assert(((count - 1) + 1) % (count as int) == 0) by {
                vstd::arithmetic::div_mod::lemma_mod_self_0(count as int);
            }
        }
    }
}

impl Default for QueryTabManager {
    fn default() -> (manager: Self)
        ensures
            manager.wf(),
            manager.tabs@.len() == 1,
            manager.active_index == 0,
            manager.max_tabs == 20,
            manager.tabs@[0].title@ == numbered_title(1),
            manager.tabs@[0].is_blank(),
    {
        QueryTabManager::new()
    }
}

} // verus!
