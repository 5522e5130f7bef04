//! The method that commits one character per key press.

use crate::layout::{index_int, opt_text, spec_press, spec_release, Layout};
use crate::response::{BentenResponse, ResponseView};
use std::collections::HashSet;
use vstd::prelude::*;
use vstd::string::*;

verus! {

broadcast use vstd::std_specs::hash::group_hash_axioms;

/// A layout together with the modifier keys that are held.
#[derive(Debug)]
pub struct LayoutMethod {
    pub layout: Layout,
    pub modifiers_pressed: HashSet<u16>,
}

/// The held set and the response after a key press.
pub open spec fn spec_layout_press(layout: Layout, pressed: Set<u16>, key_code: u16) -> (
    Set<u16>,
    ResponseView,
) {
    match layout.spec_modifier(key_code) {
        Some(m) => (spec_press(layout.modifiers@[m], pressed), ResponseView::Undefined),
        None => (
            pressed,
            match layout.spec_char(key_code, pressed) {
                Some(c) => ResponseView::Commit(c),
                None => ResponseView::Undefined,
            },
        ),
    }
}

/// The held set after a key release.
pub open spec fn spec_layout_release(layout: Layout, pressed: Set<u16>, key_code: u16) -> Set<u16> {
    match layout.spec_modifier(key_code) {
        Some(m) => spec_release(layout.modifiers@[m], pressed),
        None => pressed,
    }
}

/// What every method that reads its keys from a layout has: the layout and
/// the modifier keys that are held.
pub trait LayoutHelper {
    /// The layout of the method.
    spec fn spec_layout(&self) -> Layout;

    /// The held modifier key codes.
    spec fn spec_pressed(&self) -> Set<u16>;

    fn layout(&self) -> (r: &Layout)
        ensures
            *r == self.spec_layout(),
    ;

    fn modifiers_pressed(&self) -> (r: &HashSet<u16>)
        ensures
            r@ == self.spec_pressed(),
    ;
}

/// What a method does with its layout and its held modifiers.
pub trait LayoutMethodTrait: LayoutHelper {
    /// Records a press of a key of modifier slot `m`.
    fn on_modifier_press(&mut self, m: usize)
        requires
            m < old(self).spec_layout().modifiers@.len(),
        ensures
            final(self).spec_layout() == old(self).spec_layout(),
            final(self).spec_pressed() == spec_press(
                old(self).spec_layout().modifiers@[m as int],
                old(self).spec_pressed(),
            ),
    ;

    /// Records a release of a key of modifier slot `m`.
    fn on_modifier_release(&mut self, m: usize)
        requires
            m < old(self).spec_layout().modifiers@.len(),
        ensures
            final(self).spec_layout() == old(self).spec_layout(),
            final(self).spec_pressed() == spec_release(
                old(self).spec_layout().modifiers@[m as int],
                old(self).spec_pressed(),
            ),
    ;

    /// The index into the level-indexed lists that the held set selects.
    fn calculate_level(&self) -> (r: Option<usize>)
        requires
            self.spec_layout().wf(),
        ensures
            index_int(r) == self.spec_layout().spec_level(self.spec_pressed()),
    {
        self.layout().calculate_level(self.modifiers_pressed())
    }

    /// The character that the key code yields under the held set.
    fn calculate_char(&self, key_code: u16) -> (r: Option<String>)
        requires
            self.spec_layout().wf(),
        ensures
            opt_text(r) == self.spec_layout().spec_char(key_code, self.spec_pressed()),
    {
        self.layout().calculate_char(self.modifiers_pressed(), key_code)
    }

    /// The special-key name that the key code has under the held set.
    fn calculate_special_key(&self, key_code: u16) -> (r: Option<String>)
        requires
            self.spec_layout().wf(),
        ensures
            opt_text(r) == self.spec_layout().spec_special(key_code, self.spec_pressed()),
    {
        self.layout().calculate_special_key(self.modifiers_pressed(), key_code)
    }

    /// The first modifier slot that holds the key code, if it is a modifier
    /// key at all.
    fn is_get_modifier(&self, key_code: u16) -> (r: Option<usize>)
        ensures
            index_int(r) == self.spec_layout().spec_modifier(key_code),
            r matches Some(m) ==> m < self.spec_layout().modifiers@.len(),
    {
        self.layout().is_get_modifier(key_code)
    }

    /// Whether the key code stands for the special key of the given name
    /// under the held set.
    fn is(&self, key_code: u16, name: &str) -> (r: bool)
        requires
            self.spec_layout().wf(),
        ensures
            r == (self.spec_layout().spec_special(key_code, self.spec_pressed()) == Some(name@)),
    {
        self.layout().is(self.modifiers_pressed(), key_code, name)
    }
}

impl LayoutHelper for LayoutMethod {
    open spec fn spec_layout(&self) -> Layout {
        self.layout
    }

    open spec fn spec_pressed(&self) -> Set<u16> {
        self.modifiers_pressed@
    }

    fn layout(&self) -> (r: &Layout) {
        &self.layout
    }

    fn modifiers_pressed(&self) -> (r: &HashSet<u16>) {
        &self.modifiers_pressed
    }
}

impl LayoutMethodTrait for LayoutMethod {
    fn on_modifier_press(&mut self, m: usize) {
        self.layout.on_modifier_press(m, &mut self.modifiers_pressed);
    }

    fn on_modifier_release(&mut self, m: usize) {
        self.layout.on_modifier_release(m, &mut self.modifiers_pressed);
    }
}

impl View for LayoutMethod {
    type V = Set<u16>;

    /// The held modifier key codes.
    open spec fn view(&self) -> Set<u16> {
        self.modifiers_pressed@
    }
}

impl LayoutMethod {
    /// A layout method with nothing held.
    pub fn new(layout: Layout) -> (r: LayoutMethod)
        ensures
            r.layout == layout,
            r@ == Set::<u16>::empty(),
    {
        LayoutMethod { layout, modifiers_pressed: HashSet::new() }
    }

    /// The id of the method, which is that of its layout.
    pub fn id(&self) -> (r: &str)
        ensures
            r@ == self.layout.id@,
    {
        self.layout.id.as_str()
    }

    /// Forgets the held modifiers.
    pub fn reset(&mut self)
        ensures
            final(self).layout == old(self).layout,
            final(self)@ == Set::<u16>::empty(),
    {
        self.modifiers_pressed.clear();
    }

    /// Handles a key press: a modifier key changes the held set; any other
    /// key commits the character that it yields at the level of the held
    /// set, and is undefined when it yields none.
    pub fn on_key_press(&mut self, key_code: u16) -> (r: BentenResponse)
        requires
            old(self).layout.wf(),
        ensures
            final(self).layout == old(self).layout,
            final(self)@ == spec_layout_press(old(self).layout, old(self)@, key_code).0,
            r@ == spec_layout_press(old(self).layout, old(self)@, key_code).1,
    {
        match self.is_get_modifier(key_code) {
            Some(m) => {
                self.on_modifier_press(m);
                BentenResponse::Undefined
            },
            None => match self.calculate_char(key_code) {
                Some(c) => BentenResponse::Commit(c),
                None => BentenResponse::Undefined,
            },
        }
    }

    /// Handles a key release: only a modifier key changes anything.
    pub fn on_key_release(&mut self, key_code: u16) -> (r: BentenResponse)
        ensures
            final(self).layout == old(self).layout,
            final(self)@ == spec_layout_release(old(self).layout, old(self)@, key_code),
            r@ == ResponseView::Undefined,
    {
        match self.is_get_modifier(key_code) {
            Some(m) => {
                self.on_modifier_release(m);
            },
            None => {},
        }
        BentenResponse::Undefined
    }
}

} // verus!
