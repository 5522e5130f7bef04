//! Tables: ordered dictionaries of characters and the key sequences that
//! produce them, and the method that composes with one.

use crate::layout::{opt_text, spec_press, spec_release, Layout};
use crate::layout_method::{LayoutHelper, LayoutMethodTrait};
use crate::response::{BentenError, BentenResponse, Function, FunctionView, ResponseView};
use crate::text::{char_to_string, pop_last, same_text, spec_pop, starts_with};
use std::collections::HashSet;
use vstd::prelude::*;
use vstd::string::*;

verus! {

broadcast use vstd::std_specs::hash::group_hash_axioms;

/// One line of a table: a character and the sequence that produces it.
#[derive(Debug, PartialEq, Eq)]
pub struct Entry {
    pub character: char,
    pub sequence: String,
}

impl Clone for Entry {
    fn clone(&self) -> (r: Self)
        ensures
            r == *self,
    {
        Entry { character: self.character, sequence: self.sequence.clone() }
    }
}

/// A dictionary whose order breaks ties between candidates.
#[derive(Debug, Clone, PartialEq, Eq)]
pub struct Table {
    pub id: String,
    pub entries: Vec<Entry>,
}

/// Whether a record has the shape of an entry: two fields, the first of
/// them a single character.
pub open spec fn record_fits(record: Seq<String>) -> bool {
    record.len() == 2 && record[0]@.len() == 1
}

/// The entry that a well-shaped record stands for.
pub open spec fn record_entry(record: Seq<String>) -> Entry {
    Entry { character: record[0]@[0], sequence: record[1] }
}

impl Entry {
    /// The entry that a record stands for, if it has the shape of one.
    pub fn from_record(record: &Vec<String>) -> (r: Option<Entry>)
        ensures
            match r {
                Some(e) => record_fits(record@) && e == record_entry(record@),
                None => !record_fits(record@),
            },
    {
        if record.len() != 2 {
            return None;
        }
        if record[0].as_str().unicode_len() != 1 {
            return None;
        }
        Some(Entry { character: record[0].as_str().get_char(0), sequence: record[1].clone() })
    }
}

impl Table {
    /// The table of the given records, in their order, or a `ParseError` when
    /// one of them has not the shape of an entry: no part of a table is ever
    /// loaded.
    pub fn from_records(id: String, records: &Vec<Vec<String>>) -> (r: Result<Table, BentenError>)
        ensures
            match r {
                Ok(table) => {
                    &&& forall|i: int| 0 <= i < records@.len() ==> record_fits((#[trigger] records@[i])@)
                    &&& table.id == id
                    &&& table.entries@.len() == records@.len()
                    &&& forall|i: int|
                        0 <= i < records@.len() ==> #[trigger] table.entries@[i] == record_entry(
                            records@[i]@,
                        )
                },
                Err(e) => {
                    &&& e is ParseError
                    &&& exists|i: int| 0 <= i < records@.len() && !record_fits((#[trigger] records@[i])@)
                },
            },
    {
        let mut entries: Vec<Entry> = Vec::new();
        let mut i: usize = 0;
        while i < records.len()
            invariant
                i <= records@.len(),
                entries@.len() == i,
                forall|j: int| 0 <= j < i ==> record_fits((#[trigger] records@[j])@),
                forall|j: int| 0 <= j < i ==> #[trigger] entries@[j] == record_entry(records@[j]@),
            decreases records@.len() - i,
        {
            match Entry::from_record(&records[i]) {
                Some(entry) => {
                    entries.push(entry);
                },
                None => {
                    assert(!record_fits(records@[i as int]@));
                    return Err(
                        BentenError::ParseError(
                            String::from_str("a record is not a character and a sequence"),
                        ),
                    );
                },
            }
            i = i + 1;
        }
        Ok(Table { id, entries })
    }
}

/// The entries whose sequence begins with `s`, in the order of `entries`.
pub open spec fn candidates(entries: Seq<Entry>, s: Seq<char>) -> Seq<Entry> {
    entries.filter(|e: Entry| s.is_prefix_of(e.sequence@))
}

/// `index` if it selects one of `n` candidates, else 0.
pub open spec fn clamp_index(index: usize, n: nat) -> usize {
    if index < n {
        index
    } else {
        0
    }
}

/// The switch target that a key's bound functions record: the target of the
/// last function in the list that applies, where `IfEmptyChangeMethodTo`
/// applies only while the sequence is empty.
pub open spec fn pending_target(
    functions: Seq<Option<Function>>,
    was_empty: bool,
) -> Option<Seq<char>>
    decreases functions.len(),
{
    if functions.len() == 0 {
        None
    } else {
        match functions.last() {
            Some(Function::ChangeMethodTo(m)) => Some(m@),
            Some(Function::IfEmptyChangeMethodTo(m)) if was_empty => Some(m@),
            _ => pending_target(functions.drop_last(), was_empty),
        }
    }
}

/// What changes in a table method from key to key.
pub struct TableState {
    pub pressed: Set<u16>,
    pub key_sequence: Seq<char>,
    pub relative_entries: Seq<Entry>,
    pub index: usize,
}

impl TableState {
    /// The state in which nothing is composed; the held set stays.
    pub open spec fn cleared(self) -> TableState {
        TableState {
            pressed: self.pressed,
            key_sequence: Seq::empty(),
            relative_entries: Seq::empty(),
            index: 0,
        }
    }

    /// The state at construction and after a reset.
    pub open spec fn initial() -> TableState {
        TableState {
            pressed: Set::empty(),
            key_sequence: Seq::empty(),
            relative_entries: Seq::empty(),
            index: 0,
        }
    }
}

/// A method that accumulates a key sequence and offers the table's entries
/// that begin with it.
#[derive(Debug)]
pub struct TableMethod {
    pub layout: Layout,
    pub modifiers_pressed: HashSet<u16>,
    pub table: Table,
    pub relative_entries: Vec<Entry>,
    pub key_sequence: String,
    pub index: usize,
}

impl LayoutHelper for TableMethod {
    open spec fn spec_layout(&self) -> Layout {
        self.layout
    }

    open spec fn spec_pressed(&self) -> Set<u16> {
        self.modifiers_pressed@
    }

    fn layout(&self) -> (r: &Layout) {
        &self.layout
    }

    fn modifiers_pressed(&self) -> (r: &HashSet<u16>) {
        &self.modifiers_pressed
    }
}

impl LayoutMethodTrait for TableMethod {
    fn on_modifier_press(&mut self, m: usize)
        ensures
            final(self).table == old(self).table,
            final(self).relative_entries == old(self).relative_entries,
            final(self).key_sequence == old(self).key_sequence,
            final(self).index == old(self).index,
    {
        self.layout.on_modifier_press(m, &mut self.modifiers_pressed);
    }

    fn on_modifier_release(&mut self, m: usize)
        ensures
            final(self).table == old(self).table,
            final(self).relative_entries == old(self).relative_entries,
            final(self).key_sequence == old(self).key_sequence,
            final(self).index == old(self).index,
    {
        self.layout.on_modifier_release(m, &mut self.modifiers_pressed);
    }
}

impl View for TableMethod {
    type V = TableState;

    open spec fn view(&self) -> TableState {
        TableState {
            pressed: self.modifiers_pressed@,
            key_sequence: self.key_sequence@,
            relative_entries: self.relative_entries@,
            index: self.index,
        }
    }
}

/// The index after the special key of the given name has acted on it.
pub open spec fn paged_index(special: Option<Seq<char>>, index: usize) -> usize {
    if special == Some("NEXT"@) {
        if index < usize::MAX {
            (index + 1) as usize
        } else {
            index
        }
    } else if special == Some("PREV"@) {
        if index > 0 {
            (index - 1) as usize
        } else {
            0
        }
    } else {
        index
    }
}

/// The functions bound to a key code, over all levels.
pub open spec fn bound_functions(layout: Layout, key_code: u16) -> Seq<Option<Function>> {
    if layout.bindings@.contains_key(key_code) {
        layout.bindings@[key_code]@
    } else {
        Seq::empty()
    }
}

/// The state and the response after a press of a key that is no modifier.
pub open spec fn spec_compose(
    layout: Layout,
    table: Table,
    st: TableState,
    key_code: u16,
) -> (TableState, ResponseView) {
    let special = layout.spec_special(key_code, st.pressed);
    let commit = special == Some("COMMIT"@);
    let popped = if special == Some("BACKSPACE"@) {
        spec_pop(st.key_sequence)
    } else {
        st.key_sequence
    };
    let index = paged_index(special, st.index);
    let target = pending_target(bound_functions(layout, key_code), popped.len() == 0);
    let sequence = match layout.spec_char(key_code, st.pressed) {
        Some(c) => popped + c,
        None => popped,
    };
    let typed = TableState {
        pressed: st.pressed,
        key_sequence: sequence,
        relative_entries: st.relative_entries,
        index,
    };
    let found = candidates(table.entries@, sequence);
    let chosen = clamp_index(index, found.len());
    if target is Some && !commit {
        (typed, ResponseView::Function(FunctionView::ChangeMethodTo(target->0)))
    } else if sequence.len() == 0 || found.len() == 0 {
        (typed.cleared(), ResponseView::Empty)
    } else if commit {
        let text = seq![found[chosen as int].character];
        (
            TableState::initial(),
            match target {
                Some(t) => ResponseView::Function(FunctionView::CommitThenChangeMethodTo(text, t)),
                None => ResponseView::Commit(text),
            },
        )
    } else {
        (
            TableState {
                pressed: st.pressed,
                key_sequence: sequence,
                relative_entries: found,
                index: chosen,
            },
            ResponseView::Suggest(seq![found[chosen as int].character]),
        )
    }
}

/// The state and the response after a key press.
pub open spec fn spec_table_press(
    layout: Layout,
    table: Table,
    st: TableState,
    key_code: u16,
) -> (TableState, ResponseView) {
    match layout.spec_modifier(key_code) {
        Some(m) => (
            TableState {
                pressed: spec_press(layout.modifiers@[m], st.pressed),
                key_sequence: st.key_sequence,
                relative_entries: st.relative_entries,
                index: st.index,
            },
            ResponseView::Undefined,
        ),
        None => spec_compose(layout, table, st, key_code),
    }
}

/// The state after a key release.
pub open spec fn spec_table_release(layout: Layout, st: TableState, key_code: u16) -> TableState {
    match layout.spec_modifier(key_code) {
        Some(m) => TableState {
            pressed: spec_release(layout.modifiers@[m], st.pressed),
            key_sequence: st.key_sequence,
            relative_entries: st.relative_entries,
            index: st.index,
        },
        None => st,
    }
}

/// The four special-key names are four different texts.
pub proof fn lemma_special_names_differ()
    ensures
        "COMMIT"@ != "BACKSPACE"@,
        "COMMIT"@ != "NEXT"@,
        "COMMIT"@ != "PREV"@,
        "BACKSPACE"@ != "NEXT"@,
        "BACKSPACE"@ != "PREV"@,
        "NEXT"@ != "PREV"@,
{
    reveal_strlit("COMMIT");
    reveal_strlit("BACKSPACE");
    reveal_strlit("NEXT");
    reveal_strlit("PREV");
    assert("COMMIT"@.len() == 6);
    assert("BACKSPACE"@.len() == 9);
    assert("NEXT"@.len() == 4);
    assert("PREV"@.len() == 4);
    assert("NEXT"@[0] == 'N');
    assert("PREV"@[0] == 'P');
}

/// The entries of `entries` whose sequence begins with `s`, in order.
pub fn matching_entries(entries: &Vec<Entry>, s: &str) -> (found: Vec<Entry>)
    ensures
        found@ == candidates(entries@, s@),
{
    let ghost pred = |e: Entry| s@.is_prefix_of(e.sequence@);
    let mut found: Vec<Entry> = Vec::new();
    let mut i: usize = 0;
    proof {
        reveal(Seq::filter);
        assert(entries@.take(0) =~= Seq::<Entry>::empty());
    }
    while i < entries.len()
        invariant
            i <= entries@.len(),
            pred == (|e: Entry| s@.is_prefix_of(e.sequence@)),
            found@ == entries@.take(i as int).filter(pred),
        decreases entries@.len() - i,
    {
        proof {
            reveal(Seq::filter);
            assert(entries@.take(i + 1).drop_last() =~= entries@.take(i as int));
            assert(entries@.take(i + 1).last() == entries@[i as int]);
        }
        if starts_with(entries[i].sequence.as_str(), s) {
            found.push(entries[i].clone());
        }
        i = i + 1;
    }
    proof {
        assert(entries@.take(entries@.len() as int) =~= entries@);
    }
    found
}

/// The switch target that a key's bound functions record.
pub fn find_target(functions: &Vec<Option<Function>>, was_empty: bool) -> (r: Option<String>)
    ensures
        opt_text(r) == pending_target(functions@, was_empty),
{
    let mut i: usize = functions.len();
    assert(functions@.take(functions@.len() as int) =~= functions@);
    while i > 0
        invariant
            i <= functions@.len(),
            pending_target(functions@, was_empty) == pending_target(
                functions@.take(i as int),
                was_empty,
            ),
        decreases i,
    {
        proof {
            assert(functions@.take(i as int).drop_last() =~= functions@.take(i - 1));
            assert(functions@.take(i as int).last() == functions@[i - 1]);
        }
        i = i - 1;
        match &functions[i] {
            Some(Function::ChangeMethodTo(m)) => {
                return Some(m.clone());
            },
            Some(Function::IfEmptyChangeMethodTo(m)) => {
                if was_empty {
                    return Some(m.clone());
                }
            },
            _ => {},
        }
    }
    assert(functions@.take(0).len() == 0);
    None
}

impl TableMethod {
    /// A table method with nothing held and nothing composed.
    pub fn new(layout: Layout, table: Table) -> (r: TableMethod)
        ensures
            r.layout == layout,
            r.table == table,
            r@ == TableState::initial(),
    {
        TableMethod {
            layout,
            modifiers_pressed: HashSet::new(),
            table,
            relative_entries: Vec::new(),
            key_sequence: String::new(),
            index: 0,
        }
    }

    /// The id of the method, which is that of its layout.
    pub fn id(&self) -> (r: &str)
        ensures
            r@ == self.layout.id@,
    {
        self.layout.id.as_str()
    }

    /// Forgets the held modifiers and the composition.
    pub fn reset(&mut self)
        ensures
            final(self).layout == old(self).layout,
            final(self).table == old(self).table,
            final(self)@ == TableState::initial(),
    {
        self.index = 0;
        self.relative_entries.clear();
        self.key_sequence = String::new();
        self.modifiers_pressed.clear();
    }

    /// Forgets the composition and keeps the held modifiers.
    pub fn clear_composition(&mut self)
        ensures
            final(self).layout == old(self).layout,
            final(self).table == old(self).table,
            final(self)@ == old(self)@.cleared(),
    {
        self.index = 0;
        self.relative_entries.clear();
        self.key_sequence = String::new();
    }

    /// Rebuilds the candidates for the sequence typed so far, brings the
    /// index back into their range, and returns the selected candidate's
    /// character. With nothing typed it changes nothing and returns nothing.
    pub fn calculate_char_dict(&mut self) -> (r: Option<String>)
        ensures
            final(self).layout == old(self).layout,
            final(self).table == old(self).table,
            final(self).modifiers_pressed == old(self).modifiers_pressed,
            final(self).key_sequence == old(self).key_sequence,
            old(self).key_sequence@.len() == 0 ==> r is None && final(self)@ == old(self)@,
            old(self).key_sequence@.len() > 0 ==> {
                let found = candidates(old(self).table.entries@, old(self).key_sequence@);
                let chosen = clamp_index(old(self).index, found.len());
                &&& final(self).relative_entries@ == found
                &&& final(self).index == chosen
                &&& opt_text(r) == if found.len() > 0 {
                    Some(seq![found[chosen as int].character])
                } else {
                    None
                }
            },
    {
        if self.key_sequence.as_str().is_empty() {
            return None;
        }
        self.relative_entries = matching_entries(&self.table.entries, self.key_sequence.as_str());
        if self.index >= self.relative_entries.len() {
            self.index = 0;
        }
        if self.index < self.relative_entries.len() {
            Some(char_to_string(self.relative_entries[self.index].character))
        } else {
            None
        }
    }

    /// Handles a key press: a modifier key changes the held set; any other
    /// key acts on the composition as its special name, bindings and
    /// character say.
    pub fn on_key_press(&mut self, key_code: u16) -> (r: BentenResponse)
        requires
            old(self).layout.wf(),
        ensures
            final(self).layout == old(self).layout,
            final(self).table == old(self).table,
            final(self)@ == spec_table_press(old(self).layout, old(self).table, old(self)@, key_code).0,
            r@ == spec_table_press(old(self).layout, old(self).table, old(self)@, key_code).1,
    {
        match self.is_get_modifier(key_code) {
            Some(m) => {
                self.on_modifier_press(m);
                return BentenResponse::Undefined;
            },
            None => {},
        }
        proof {
            lemma_special_names_differ();
        }
        let ghost step = spec_compose(old(self).layout, old(self).table, old(self)@, key_code);
        let ghost special = old(self).layout.spec_special(key_code, old(self)@.pressed);
        let mut commit = false;
        match self.calculate_special_key(key_code) {
            Some(name) => {
                if same_text(name.as_str(), "COMMIT") {
                    commit = true;
                } else if same_text(name.as_str(), "BACKSPACE") {
                    pop_last(&mut self.key_sequence);
                } else if same_text(name.as_str(), "NEXT") {
                    if self.index < usize::MAX {
                        self.index = self.index + 1;
                    }
                } else if same_text(name.as_str(), "PREV") {
                    if self.index > 0 {
                        self.index = self.index - 1;
                    }
                }
            },
            None => {},
        }
        assert(commit == (special == Some("COMMIT"@)));
        assert(self.index == paged_index(special, old(self).index));
        assert(self.key_sequence@ == if special == Some("BACKSPACE"@) {
            spec_pop(old(self).key_sequence@)
        } else {
            old(self).key_sequence@
        });
        let was_empty = self.key_sequence.as_str().is_empty();
        let target = match self.layout.bindings.get(&key_code) {
            Some(functions) => find_target(functions, was_empty),
            None => None,
        };
        match self.calculate_char(key_code) {
            Some(c) => {
                self.key_sequence.append(c.as_str());
            },
            None => {},
        }
        assert(opt_text(target) == pending_target(
            bound_functions(old(self).layout, key_code),
            was_empty,
        ));
        if !commit {
            if let Some(m) = target {
                assert(self@ =~= step.0);
                return BentenResponse::Function(Function::ChangeMethodTo(m));
            }
        }
        let ghost typed = self@;
        let found = self.calculate_char_dict();
        assert(found is None ==> typed.cleared() =~= step.0);
        match found {
            Some(value) => {
                if commit {
                    self.reset();
                    match target {
                        Some(m) => BentenResponse::Function(
                            Function::CommitThenChangeMethodTo(value, m),
                        ),
                        None => BentenResponse::Commit(value),
                    }
                } else {
                    assert(self@ =~= step.0);
                    BentenResponse::Suggest(value)
                }
            },
            None => {
                self.clear_composition();
                BentenResponse::Empty
            },
        }
    }

    /// Handles a key release: only a modifier key changes anything.
    pub fn on_key_release(&mut self, key_code: u16) -> (r: BentenResponse)
        ensures
            final(self).layout == old(self).layout,
            final(self).table == old(self).table,
            final(self)@ == spec_table_release(old(self).layout, old(self)@, key_code),
            r@ == ResponseView::Undefined,
    {
        match self.is_get_modifier(key_code) {
            Some(m) => {
                self.on_modifier_release(m);
            },
            None => {},
        }
        BentenResponse::Undefined
    }
}

} // verus!
