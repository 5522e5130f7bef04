//! A method is either a layout method or a table method.

use crate::layout::Layout;
use crate::layout_method::{spec_layout_press, spec_layout_release, LayoutMethod};
use crate::response::{BentenResponse, ResponseView};
use crate::table::{spec_table_press, spec_table_release, TableMethod, TableState};
use vstd::prelude::*;

verus! {

/// One running input method.
#[derive(Debug)]
pub enum Method {
    Layout(LayoutMethod),
    Table(TableMethod),
}

/// What changes in a method from key to key.
pub enum MethodState {
    Layout(Set<u16>),
    Table(TableState),
}

impl View for Method {
    type V = MethodState;

    open spec fn view(&self) -> MethodState {
        match self {
            Method::Layout(m) => MethodState::Layout(m@),
            Method::Table(m) => MethodState::Table(m@),
        }
    }
}

impl Method {
    /// The layout that the method reads its keys from.
    pub open spec fn spec_layout(&self) -> Layout {
        match self {
            Method::Layout(m) => m.layout,
            Method::Table(m) => m.layout,
        }
    }

    /// The id of the method as a sequence of characters.
    pub open spec fn spec_id(&self) -> Seq<char> {
        self.spec_layout().id@
    }

    /// The method's layout is well formed.
    pub open spec fn wf(&self) -> bool {
        self.spec_layout().wf()
    }

    /// The same method in another state: what never changes is equal.
    pub open spec fn same_config(&self, other: &Method) -> bool {
        match (self, other) {
            (Method::Layout(a), Method::Layout(b)) => a.layout == b.layout,
            (Method::Table(a), Method::Table(b)) => a.layout == b.layout && a.table == b.table,
            _ => false,
        }
    }

    /// The state at construction and after a reset.
    pub open spec fn spec_initial(&self) -> MethodState {
        match self {
            Method::Layout(_) => MethodState::Layout(Set::empty()),
            Method::Table(_) => MethodState::Table(TableState::initial()),
        }
    }

    /// The state and the response after a key press.
    pub open spec fn spec_press(&self, key_code: u16) -> (MethodState, ResponseView) {
        match self {
            Method::Layout(m) => {
                let step = spec_layout_press(m.layout, m@, key_code);
                (MethodState::Layout(step.0), step.1)
            },
            Method::Table(m) => {
                let step = spec_table_press(m.layout, m.table, m@, key_code);
                (MethodState::Table(step.0), step.1)
            },
        }
    }

    /// The state after a key release.
    pub open spec fn spec_release(&self, key_code: u16) -> MethodState {
        match self {
            Method::Layout(m) => MethodState::Layout(spec_layout_release(m.layout, m@, key_code)),
            Method::Table(m) => MethodState::Table(spec_table_release(m.layout, m@, key_code)),
        }
    }

    /// The id of the method.
    pub fn id(&self) -> (r: &str)
        ensures
            r@ == self.spec_id(),
    {
        match self {
            Method::Layout(m) => m.id(),
            Method::Table(m) => m.id(),
        }
    }

    /// Brings the method back to the state it was made in.
    pub fn reset(&mut self)
        ensures
            final(self).same_config(old(self)),
            final(self)@ == old(self).spec_initial(),
    {
        match self {
            Method::Layout(m) => m.reset(),
            Method::Table(m) => m.reset(),
        }
    }

    /// Handles a key press as the kind of method does.
    pub fn on_key_press(&mut self, key_code: u16) -> (r: BentenResponse)
        requires
            old(self).wf(),
        ensures
            final(self).same_config(old(self)),
            final(self)@ == old(self).spec_press(key_code).0,
            r@ == old(self).spec_press(key_code).1,
    {
        match self {
            Method::Layout(m) => m.on_key_press(key_code),
            Method::Table(m) => m.on_key_press(key_code),
        }
    }

    /// Handles a key release as the kind of method does.
    pub fn on_key_release(&mut self, key_code: u16) -> (r: BentenResponse)
        ensures
            final(self).same_config(old(self)),
            final(self)@ == old(self).spec_release(key_code),
            r@ == ResponseView::Undefined,
    {
        match self {
            Method::Layout(m) => m.on_key_release(key_code),
            Method::Table(m) => m.on_key_release(key_code),
        }
    }
}

} // verus!
