//! Modes: several methods, one of them active, and the bindings that switch
//! between them.

use crate::layout::{index_int, Layout};
use crate::layout_method::LayoutMethod;
use crate::method::Method;
use crate::table::TableMethod;
use crate::response::{BentenError, BentenResponse, Function, ResponseView};
use crate::text::same_text;
use vstd::prelude::*;
use vstd::string::*;

verus! {

/// What must hold for a binding to act.
#[derive(Debug, PartialEq, Eq)]
pub enum Condition {
    /// The active method has this id.
    CurrentMethodIs(String),
    /// Always met: whether anything is being composed is not looked at.
    Empty,
    /// Always met: the kind of the active method is not looked at.
    CurrentMethodIsInstanceOf(String),
}

/// A function bound to one key code per level, under conditions.
#[derive(Debug, PartialEq, Eq)]
pub struct Binding {
    pub function: Function,
    pub conditions: Vec<Condition>,
    /// The key code that triggers the binding at each level index.
    pub key_codes: Vec<u16>,
}

/// The methods of a mode, its bindings, and which method is active.
#[derive(Debug)]
pub struct Mode {
    pub methods: Vec<Method>,
    pub bindings: Vec<Binding>,
    /// The position of the active method in `methods`.
    pub current_method: usize,
}

/// A mode together with its id and the layout by which the level of its
/// bindings is found.
#[derive(Debug)]
pub struct ModeHouse {
    pub id: String,
    pub mode: Mode,
    pub layout: LayoutMethod,
}

/// Whether one condition is met while the method of the given id is active.
pub open spec fn condition_met(c: Condition, current_id: Seq<char>) -> bool {
    match c {
        Condition::CurrentMethodIs(name) => name@ == current_id,
        Condition::Empty => true,
        Condition::CurrentMethodIsInstanceOf(_) => true,
    }
}

/// Whether all conditions are met.
pub open spec fn conditions_met(cs: Seq<Condition>, current_id: Seq<char>) -> bool {
    forall|i: int| 0 <= i < cs.len() ==> condition_met(#[trigger] cs[i], current_id)
}

/// Whether the binding is triggered by the key code at the level index and
/// its conditions are met.
pub open spec fn binding_matches(
    b: Binding,
    level: Option<int>,
    key_code: u16,
    current_id: Seq<char>,
) -> bool {
    &&& level matches Some(l) && 0 <= l < b.key_codes@.len() && b.key_codes@[l] == key_code
    &&& conditions_met(b.conditions@, current_id)
}

/// The first binding at or after `from` that matches.
pub open spec fn first_binding(
    bindings: Seq<Binding>,
    level: Option<int>,
    key_code: u16,
    current_id: Seq<char>,
    from: int,
) -> Option<int>
    decreases bindings.len() - from,
{
    if from < 0 || from >= bindings.len() {
        None
    } else if binding_matches(bindings[from], level, key_code, current_id) {
        Some(from)
    } else {
        first_binding(bindings, level, key_code, current_id, from + 1)
    }
}

/// The position of the first method at or after `from` that has the id.
pub open spec fn find_method(methods: Seq<Method>, name: Seq<char>, from: int) -> Option<int>
    decreases methods.len() - from,
{
    if from < 0 || from >= methods.len() {
        None
    } else if methods[from].spec_id() == name {
        Some(from)
    } else {
        find_method(methods, name, from + 1)
    }
}

/// The method that a function of a mode's binding switches to, if it names
/// one that exists.
pub open spec fn function_target(methods: Seq<Method>, f: Function) -> Option<int> {
    match f {
        Function::ChangeMethodTo(m) => find_method(methods, m@, 0),
        _ => None,
    }
}

impl Mode {
    /// The active method exists and every method's layout is well formed.
    pub open spec fn wf(&self) -> bool {
        &&& self.current_method < self.methods@.len()
        &&& forall|i: int| 0 <= i < self.methods@.len() ==> (#[trigger] self.methods@[i]).wf()
    }

    /// The id of the active method as a sequence of characters.
    pub open spec fn spec_current_id(&self) -> Seq<char> {
        self.methods@[self.current_method as int].spec_id()
    }

    /// The same mode but for the state of the one method at position `at`,
    /// and with `current` as its active method.
    pub open spec fn differs_at(&self, before: &Mode, at: int, current: int) -> bool {
        &&& self.bindings == before.bindings
        &&& self.current_method == current
        &&& self.methods@.len() == before.methods@.len()
        &&& forall|i: int|
            0 <= i < self.methods@.len() && i != at ==> #[trigger] self.methods@[i]
                == before.methods@[i]
        &&& 0 <= at < self.methods@.len() ==> self.methods@[at].same_config(&before.methods@[at])
    }

    /// The mode that loading an id comes to: the mode document where it
    /// could be read; else a mode of the bare table method of that id alone;
    /// else one of the bare layout method alone; and where none of the three
    /// could be had, the error from the mode document.
    pub fn new(
        parsed: Result<Mode, BentenError>,
        table: Result<TableMethod, BentenError>,
        layout: Result<LayoutMethod, BentenError>,
    ) -> (r: Result<Mode, BentenError>)
        ensures
            match (parsed, table, layout) {
                (Ok(mode), _, _) => r == Ok::<Mode, BentenError>(mode),
                (Err(_), Ok(t), _) => r matches Ok(mode) && mode.is_single(Method::Table(t)),
                (Err(_), Err(_), Ok(l)) => r matches Ok(mode) && mode.is_single(Method::Layout(l)),
                (Err(e), Err(_), Err(_)) => r == Err::<Mode, BentenError>(e),
            },
    {
        match parsed {
            Ok(mode) => Ok(mode),
            Err(e) => match table {
                Ok(t) => Ok(Mode::from_method(Method::Table(t))),
                Err(_) => match layout {
                    Ok(l) => Ok(Mode::from_method(Method::Layout(l))),
                    Err(_) => Err(e),
                },
            },
        }
    }

    /// The mode holds the one method, which is active, and no binding.
    pub open spec fn is_single(&self, method: Method) -> bool {
        &&& self.methods@ == seq![method]
        &&& self.bindings@.len() == 0
        &&& self.current_method == 0
    }

    /// A mode of one method, which is active, and no binding.
    pub fn from_method(method: Method) -> (r: Mode)
        ensures
            r.is_single(method),
            method.wf() ==> r.wf(),
    {
        let mut methods: Vec<Method> = Vec::new();
        methods.push(method);
        Mode { methods, bindings: Vec::new(), current_method: 0 }
    }

    /// The position of the first method that has the id.
    pub fn position_of(&self, name: &str) -> (r: Option<usize>)
        ensures
            index_int(r) == find_method(self.methods@, name@, 0),
            r matches Some(i) ==> i < self.methods@.len(),
    {
        let mut i: usize = 0;
        while i < self.methods.len()
            invariant
                i <= self.methods@.len(),
                find_method(self.methods@, name@, 0) == find_method(self.methods@, name@, i as int),
            decreases self.methods@.len() - i,
        {
            if same_text(self.methods[i].id(), name) {
                return Some(i);
            }
            i = i + 1;
        }
        None
    }
}

/// The house `after` is `before` with the method at position `to` active
/// and the method that was active back in the state it was made in.
pub open spec fn activated(before: ModeHouse, to: int, after: ModeHouse) -> bool {
    let from = before.mode.current_method as int;
    &&& after.id == before.id
    &&& after.layout == before.layout
    &&& after.mode.differs_at(&before.mode, from, to)
    &&& after.mode.methods@[from]@ == before.mode.methods@[from].spec_initial()
}

/// The house `after` and the response `r` are what a press of the key code
/// makes of `before`.
pub open spec fn press_step(before: ModeHouse, key_code: u16, after: ModeHouse, r: ResponseView) -> bool {
    match before.spec_switch(key_code) {
        Some(to) => r == ResponseView::Empty && activated(before, to, after),
        None => {
            let at = before.mode.current_method as int;
            &&& after.id == before.id
            &&& after.layout == before.layout
            &&& after.mode.differs_at(&before.mode, at, at)
            &&& after.mode.methods@[at]@ == before.mode.methods@[at].spec_press(key_code).0
            &&& r == before.mode.methods@[at].spec_press(key_code).1
        },
    }
}

/// The house `after` is what a release of the key code makes of `before`.
pub open spec fn release_step(before: ModeHouse, key_code: u16, after: ModeHouse) -> bool {
    let at = before.mode.current_method as int;
    &&& after.id == before.id
    &&& after.layout == before.layout
    &&& after.mode.differs_at(&before.mode, at, at)
    &&& after.mode.methods@[at]@ == before.mode.methods@[at].spec_release(key_code)
}

/// The house `after` is what a request for the method of the given id makes
/// of `before`: a switch where the method exists, else no change.
pub open spec fn switch_step(before: ModeHouse, name: Seq<char>, after: ModeHouse) -> bool {
    match find_method(before.mode.methods@, name, 0) {
        Some(to) => activated(before, to, after),
        None => after == before,
    }
}

impl ModeHouse {
    /// The mode and the layout of its bindings are well formed.
    pub open spec fn wf(&self) -> bool {
        self.mode.wf() && self.layout.layout.wf()
    }

    /// The level index at which the bindings are read.
    pub open spec fn spec_level(&self) -> Option<int> {
        self.layout.layout.spec_level(self.layout@)
    }

    /// The binding that a press of the key code triggers: the first one that
    /// matches.
    pub open spec fn spec_binding(&self, key_code: u16) -> Option<int> {
        first_binding(
            self.mode.bindings@,
            self.spec_level(),
            key_code,
            self.mode.spec_current_id(),
            0,
        )
    }

    /// The method that a press of the key code switches to, if the binding it
    /// triggers names one that exists.
    pub open spec fn spec_switch(&self, key_code: u16) -> Option<int> {
        match self.spec_binding(key_code) {
            Some(b) => function_target(self.mode.methods@, self.mode.bindings@[b].function),
            None => None,
        }
    }

    /// Whether all the conditions are met by the mode as it stands.
    pub fn are_conditions_met(&self, conditions: &Vec<Condition>) -> (r: bool)
        requires
            self.mode.current_method < self.mode.methods@.len(),
        ensures
            r == conditions_met(conditions@, self.mode.spec_current_id()),
    {
        let mut i: usize = 0;
        while i < conditions.len()
            invariant
                i <= conditions@.len(),
                self.mode.current_method < self.mode.methods@.len(),
                forall|j: int|
                    0 <= j < i ==> condition_met(
                        #[trigger] conditions@[j],
                        self.mode.spec_current_id(),
                    ),
            decreases conditions@.len() - i,
        {
            let met = match &conditions[i] {
                Condition::CurrentMethodIs(name) => same_text(
                    name.as_str(),
                    self.mode.methods[self.mode.current_method].id(),
                ),
                Condition::Empty => true,
                Condition::CurrentMethodIsInstanceOf(_) => true,
            };
            if !met {
                return false;
            }
            i = i + 1;
        }
        true
    }

    /// The binding that a press of the key code triggers.
    pub fn triggered_binding(&self, key_code: u16) -> (r: Option<usize>)
        requires
            self.wf(),
        ensures
            index_int(r) == self.spec_binding(key_code),
            r matches Some(b) ==> b < self.mode.bindings@.len(),
    {
        let level = self.layout.layout.calculate_level(&self.layout.modifiers_pressed);
        let mut b: usize = 0;
        while b < self.mode.bindings.len()
            invariant
                self.wf(),
                b <= self.mode.bindings@.len(),
                index_int(level) == self.spec_level(),
                self.spec_binding(key_code) == first_binding(
                    self.mode.bindings@,
                    self.spec_level(),
                    key_code,
                    self.mode.spec_current_id(),
                    b as int,
                ),
            decreases self.mode.bindings@.len() - b,
        {
            let binding = &self.mode.bindings[b];
            let keyed = match level {
                Some(l) => l < binding.key_codes.len() && binding.key_codes[l] == key_code,
                None => false,
            };
            if keyed && self.are_conditions_met(&binding.conditions) {
                return Some(b);
            }
            b = b + 1;
        }
        None
    }

    /// Makes the method at position `to` the active one, after bringing the
    /// method that was active back to the state it was made in.
    pub fn activate(&mut self, to: usize)
        requires
            old(self).wf(),
            to < old(self).mode.methods@.len(),
        ensures
            final(self).wf(),
            activated(*old(self), to as int, *final(self)),
    {
        let from: usize = self.mode.current_method;
        self.mode.methods[from].reset();
        self.mode.current_method = to;
    }

    /// Whether every method's layout is well formed.
    pub fn methods_fit(methods: &Vec<Method>) -> (r: bool)
        ensures
            r == forall|i: int| 0 <= i < methods@.len() ==> (#[trigger] methods@[i]).wf(),
    {
        let mut i: usize = 0;
        while i < methods.len()
            invariant
                i <= methods@.len(),
                forall|j: int| 0 <= j < i ==> (#[trigger] methods@[j]).wf(),
            decreases methods@.len() - i,
        {
            let fits = match &methods[i] {
                Method::Layout(m) => Layout::levels_fit(&m.layout.modifiers, &m.layout.levels),
                Method::Table(m) => Layout::levels_fit(&m.layout.modifiers, &m.layout.levels),
            };
            if !fits {
                return false;
            }
            i = i + 1;
        }
        true
    }

    /// A mode with its id and the layout of its bindings, or a `ParseError`
    /// when the active method does not exist or a layout is not well formed.
    pub fn new(id: String, mode: Mode, layout: LayoutMethod) -> (r: Result<ModeHouse, BentenError>)
        ensures
            match r {
                Ok(house) => {
                    &&& house == (ModeHouse { id, mode, layout })
                    &&& house.wf()
                },
                Err(e) => e is ParseError && !(ModeHouse { id, mode, layout }).wf(),
            },
    {
        if mode.current_method < mode.methods.len() && ModeHouse::methods_fit(&mode.methods)
            && Layout::levels_fit(&layout.layout.modifiers, &layout.layout.levels) {
            Ok(ModeHouse { id, mode, layout })
        } else {
            Err(BentenError::ParseError(String::from_str("the mode is not well formed")))
        }
    }

    /// The id of the active method.
    pub fn current_id(&self) -> (r: &str)
        requires
            self.mode.current_method < self.mode.methods@.len(),
        ensures
            r@ == self.mode.spec_current_id(),
    {
        self.mode.methods[self.mode.current_method].id()
    }

    /// Makes the method of the given id the active one, after bringing the
    /// method that was active back to the state it was made in. Where no
    /// method has the id, nothing changes and the error says so.
    pub fn switch_to(&mut self, name: &str) -> (r: Result<(), BentenError>)
        requires
            old(self).wf(),
        ensures
            final(self).wf(),
            switch_step(*old(self), name@, *final(self)),
            match r {
                Ok(_) => find_method(old(self).mode.methods@, name@, 0) is Some,
                Err(e) => {
                    &&& find_method(old(self).mode.methods@, name@, 0) is None
                    &&& e is MethodNotFound
                    &&& e.spec_message() == name@
                },
            },
    {
        match self.mode.position_of(name) {
            Some(to) => {
                self.activate(to);
                Ok(())
            },
            None => Err(BentenError::MethodNotFound(name.to_owned())),
        }
    }

    /// Handles a key press. A binding that the key code triggers comes first:
    /// where its function names a method that exists, that method becomes
    /// the active one and the response is empty. Otherwise the active method
    /// handles the key.
    pub fn on_key_press(&mut self, key_code: u16) -> (r: BentenResponse)
        requires
            old(self).wf(),
        ensures
            final(self).wf(),
            press_step(*old(self), key_code, *final(self), r@),
    {
        let target = match self.triggered_binding(key_code) {
            Some(b) => match &self.mode.bindings[b].function {
                Function::ChangeMethodTo(m) => self.mode.position_of(m.as_str()),
                _ => None,
            },
            None => None,
        };
        match target {
            Some(to) => {
                self.activate(to);
                BentenResponse::Empty
            },
            None => {
                let at: usize = self.mode.current_method;
                self.mode.methods[at].on_key_press(key_code)
            },
        }
    }

    /// Handles a key release: the active method handles it.
    pub fn on_key_release(&mut self, key_code: u16) -> (r: BentenResponse)
        requires
            old(self).wf(),
        ensures
            final(self).wf(),
            release_step(*old(self), key_code, *final(self)),
            r@ == ResponseView::Undefined,
    {
        let at: usize = self.mode.current_method;
        self.mode.methods[at].on_key_release(key_code)
    }

    /// Brings the active method back to the state it was made in.
    pub fn reset(&mut self)
        requires
            old(self).wf(),
        ensures
            final(self).wf(),
            activated(*old(self), old(self).mode.current_method as int, *final(self)),
    {
        let at: usize = self.mode.current_method;
        self.mode.methods[at].reset();
    }
}

} // verus!
