//! Laws that relate the operations of the methods to each other.

use crate::layout::{spec_entry, Layout};
use crate::layout_method::spec_layout_press;
use crate::engine::engine_press;
use crate::method::Method;
use crate::mode::{activated, press_step, ModeHouse};
use crate::response::{FunctionView, ResponseView};
use crate::table::{
    bound_functions, candidates, pending_target, spec_table_press, Table, TableState,
};
use vstd::prelude::*;

verus! {

/// Whether the key code has no entry at the level of the held set: no
/// character, no special name, and no function bound to it.
pub open spec fn unbound(layout: Layout, pressed: Set<u16>, key_code: u16) -> bool {
    let level = layout.spec_level(pressed);
    &&& spec_entry(layout.keys@, key_code, level) is None
    &&& spec_entry(layout.specs@, key_code, level) is None
    &&& spec_entry(layout.bindings@, key_code, level) is None
}

/// A layout method answers `Undefined` to a press of a key code that has no
/// entry at the level of the held set.
pub proof fn law_unbound_key_is_undefined(layout: Layout, pressed: Set<u16>, key_code: u16)
    requires
        unbound(layout, pressed, key_code),
    ensures
        spec_layout_press(layout, pressed, key_code).1 == ResponseView::Undefined,
{
}

/// A mode whose active method is a layout method, and the engine over it,
/// answer `Undefined` to a press of a key code that triggers no binding of
/// the mode and has no entry at the level of the method's held set.
pub proof fn law_unbound_key_through_engine(
    before: ModeHouse,
    key_code: u16,
    after: ModeHouse,
    r: ResponseView,
)
    requires
        before.wf(),
        before.spec_switch(key_code) is None,
        before.mode.methods@[before.mode.current_method as int] matches Method::Layout(m)
            && unbound(m.layout, m@, key_code),
    ensures
        press_step(before, key_code, after, r) ==> r == ResponseView::Undefined,
        engine_press(before, key_code, after, r) ==> r == ResponseView::Undefined,
{
}

/// A table method answers `Undefined` to a press of a modifier key, whatever
/// is bound to it.
pub proof fn law_modifier_key_is_undefined(layout: Layout, table: Table, st: TableState, key_code: u16)
    requires
        layout.spec_modifier(key_code) is Some,
    ensures
        spec_table_press(layout, table, st, key_code).1 == ResponseView::Undefined,
{
}

/// A reset after a reset changes nothing: the house after the second is in
/// every method's state, in its active method and in all that never changes
/// the house after the first.
pub proof fn law_reset_twice_is_once(a: ModeHouse, b: ModeHouse, c: ModeHouse)
    requires
        a.wf(),
        activated(a, a.mode.current_method as int, b),
        activated(b, b.mode.current_method as int, c),
    ensures
        c.id == b.id,
        c.layout == b.layout,
        c.mode.bindings == b.mode.bindings,
        c.mode.current_method == b.mode.current_method,
        c.mode.methods@.len() == b.mode.methods@.len(),
        forall|i: int|
            0 <= i < b.mode.methods@.len() ==> {
                &&& (#[trigger] c.mode.methods@[i]).same_config(&b.mode.methods@[i])
                &&& c.mode.methods@[i]@ == b.mode.methods@[i]@
            },
{
    let at = a.mode.current_method as int;
    assert forall|i: int| 0 <= i < b.mode.methods@.len() implies {
        &&& (#[trigger] c.mode.methods@[i]).same_config(&b.mode.methods@[i])
        &&& c.mode.methods@[i]@ == b.mode.methods@[i]@
    } by {
        if i != at {
            assert(c.mode.methods@[i] == b.mode.methods@[i]);
        }
    }
}

/// After a reset the active method is in the state that a method of its kind
/// is made in.
pub proof fn law_reset_is_construction(a: ModeHouse, b: ModeHouse)
    requires
        a.wf(),
        activated(a, a.mode.current_method as int, b),
    ensures
        b.mode.methods@[b.mode.current_method as int]@ == b.mode.methods@[b.mode.current_method as int].spec_initial(),
{
}

/// Whether the candidates are those of the sequence typed so far: all the
/// entries that begin with it, in the table's order, or none while nothing
/// is typed.
pub open spec fn composed(table: Table, st: TableState) -> bool {
    if st.key_sequence.len() == 0 {
        st.relative_entries.len() == 0
    } else {
        st.relative_entries == candidates(table.entries@, st.key_sequence)
    }
}

/// The candidates stay those of the sequence typed so far over every key
/// press but one that is answered with a change of method.
pub proof fn law_table_prefix(layout: Layout, table: Table, st: TableState, key_code: u16)
    requires
        composed(table, st),
    ensures
        ({
            let step = spec_table_press(layout, table, st, key_code);
            !(step.1 matches ResponseView::Function(FunctionView::ChangeMethodTo(_)))
                ==> composed(table, step.0)
        }),
{
}

/// Whenever a candidate is suggested, the candidates are exactly the entries
/// that begin with the sequence typed so far, in the table's order, the
/// sequence is not empty, and the suggestion is the selected one.
pub proof fn law_suggestion_is_selected(layout: Layout, table: Table, st: TableState, key_code: u16)
    ensures
        ({
            let step = spec_table_press(layout, table, st, key_code);
            step.1 matches ResponseView::Suggest(text) ==> {
                &&& step.0.key_sequence.len() > 0
                &&& step.0.relative_entries == candidates(table.entries@, step.0.key_sequence)
                &&& step.0.index < step.0.relative_entries.len()
                &&& text == seq![step.0.relative_entries[step.0.index as int].character]
            }
        }),
{
}

/// The key code pages through the candidates: it stands for the special key
/// of the given name, is no modifier, yields no character and records no
/// switch.
pub open spec fn pages(layout: Layout, st: TableState, key_code: u16, name: Seq<char>) -> bool {
    &&& layout.spec_modifier(key_code) is None
    &&& layout.spec_special(key_code, st.pressed) == Some(name)
    &&& layout.spec_char(key_code, st.pressed) is None
    &&& pending_target(bound_functions(layout, key_code), st.key_sequence.len() == 0) is None
}

/// `NEXT` moves the index forward by one modulo the number of candidates.
pub proof fn law_next_pages_forward(layout: Layout, table: Table, st: TableState, key_code: u16)
    requires
        pages(layout, st, key_code, "NEXT"@),
        st.key_sequence.len() > 0,
        st.index < candidates(table.entries@, st.key_sequence).len(),
    ensures
        ({
            let found = candidates(table.entries@, st.key_sequence);
            let step = spec_table_press(layout, table, st, key_code);
            let next = (st.index + 1) % (found.len() as int);
            &&& step.0.index == next
            &&& step.0.key_sequence == st.key_sequence
            &&& step.0.relative_entries == found
            &&& step.1 == ResponseView::Suggest(seq![found[next].character])
        }),
{
    crate::table::lemma_special_names_differ();
    let found = candidates(table.entries@, st.key_sequence);
    let n = found.len() as int;
    table.entries@.lemma_filter_len(|e: crate::table::Entry| st.key_sequence.is_prefix_of(e.sequence@));
    assert(table.entries@.len() == table.entries.len());
    if st.index + 1 < n {
        assert((st.index + 1) % n == st.index + 1) by (nonlinear_arith)
            requires
                0 <= st.index + 1 < n,
        ;
    } else {
        assert((st.index + 1) % n == 0) by (nonlinear_arith)
            requires
                st.index + 1 == n,
                n > 0,
        ;
    }
}

/// `PREV` moves the index back by one while it is not at the first
/// candidate.
pub proof fn law_prev_pages_back(layout: Layout, table: Table, st: TableState, key_code: u16)
    requires
        pages(layout, st, key_code, "PREV"@),
        st.key_sequence.len() > 0,
        0 < st.index < candidates(table.entries@, st.key_sequence).len(),
    ensures
        ({
            let found = candidates(table.entries@, st.key_sequence);
            let step = spec_table_press(layout, table, st, key_code);
            let prev = (st.index - 1) % (found.len() as int);
            &&& step.0.index == prev
            &&& prev == st.index - 1
            &&& step.0.key_sequence == st.key_sequence
            &&& step.0.relative_entries == found
            &&& step.1 == ResponseView::Suggest(seq![found[prev].character])
        }),
{
    crate::table::lemma_special_names_differ();
    let found = candidates(table.entries@, st.key_sequence);
    let n = found.len() as int;
    assert((st.index - 1) % n == st.index - 1) by (nonlinear_arith)
        requires
            0 <= st.index - 1 < n,
    ;
}

/// `PREV` at the first candidate stays there.
pub proof fn law_prev_stops_at_first(layout: Layout, table: Table, st: TableState, key_code: u16)
    requires
        pages(layout, st, key_code, "PREV"@),
        st.index == 0,
    ensures
        spec_table_press(layout, table, st, key_code).0.index == 0,
{
    crate::table::lemma_special_names_differ();
}

/// With no candidates, paging answers `Empty` and leaves nothing composed.
pub proof fn law_paging_without_candidates(
    layout: Layout,
    table: Table,
    st: TableState,
    key_code: u16,
    name: Seq<char>,
)
    requires
        name == "NEXT"@ || name == "PREV"@,
        pages(layout, st, key_code, name),
        candidates(table.entries@, st.key_sequence).len() == 0,
    ensures
        ({
            let step = spec_table_press(layout, table, st, key_code);
            &&& step.1 == ResponseView::Empty
            &&& step.0 == st.cleared()
        }),
{
    crate::table::lemma_special_names_differ();
}

/// After a press that a table method answers with a commit, alone or with
/// a change of method, nothing is composed: the sequence and the candidates
/// are empty and the index is 0.
pub proof fn law_commit_clears(layout: Layout, table: Table, st: TableState, key_code: u16)
    ensures
        ({
            let step = spec_table_press(layout, table, st, key_code);
            (step.1 is Commit || step.1 matches ResponseView::Function(
                FunctionView::CommitThenChangeMethodTo(_, _),
            )) ==> {
                &&& step.0.key_sequence == Seq::<char>::empty()
                &&& step.0.relative_entries == Seq::<crate::table::Entry>::empty()
                &&& step.0.index == 0
                &&& step.0 == TableState::initial()
            }
        }),
{
}

} // verus!
