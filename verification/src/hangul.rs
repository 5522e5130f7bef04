//! Hangul: the classes of conjoining jamo, and the method that will compose
//! syllables from them.

use crate::layout::Layout;
use crate::layout_method::{LayoutHelper, LayoutMethodTrait};
use crate::response::{BentenResponse, ResponseView};
use std::collections::HashSet;
use vstd::prelude::*;

verus! {

/// Whether the character is a leading consonant: U+1100 to U+115E, or
/// U+A960 to U+A97C.
pub open spec fn spec_is_choseong(c: char) -> bool {
    ('\u{1100}' <= c && c <= '\u{115e}') || ('\u{a960}' <= c && c <= '\u{a97c}')
}

/// Whether the character is a vowel: U+1161 to U+11A7, or U+D7B0 to U+D7C6.
pub open spec fn spec_is_jungseong(c: char) -> bool {
    ('\u{1161}' <= c && c <= '\u{11a7}') || ('\u{d7b0}' <= c && c <= '\u{d7c6}')
}

/// Whether the character is a trailing consonant: U+11A8 to U+11FF, or
/// U+D7CB to U+D7FB.
pub open spec fn spec_is_jongseong(c: char) -> bool {
    ('\u{11a8}' <= c && c <= '\u{11ff}') || ('\u{d7cb}' <= c && c <= '\u{d7fb}')
}

/// The classes of conjoining jamo.
pub trait Hangul: Sized {
    /// The character that the value stands for.
    spec fn jamo(&self) -> char;

    fn is_choseong(&self) -> (r: bool)
        ensures
            r == spec_is_choseong(self.jamo()),
    ;

    fn is_jungseong(&self) -> (r: bool)
        ensures
            r == spec_is_jungseong(self.jamo()),
    ;

    fn is_jongseong(&self) -> (r: bool)
        ensures
            r == spec_is_jongseong(self.jamo()),
    ;

    /// Every character counts as conjoinable.
    fn is_conjoinable(&self) -> (r: bool)
        ensures
            r,
    ;

    /// The trailing form of a leading consonant; so far the character itself.
    fn choseong_to_jongseong(&mut self) -> (r: Self)
        ensures
            r.jamo() == old(self).jamo(),
            final(self).jamo() == old(self).jamo(),
    ;

    /// The leading form of a trailing consonant; so far the character itself.
    fn jongseong_to_choseong(&mut self) -> (r: Self)
        ensures
            r.jamo() == old(self).jamo(),
            final(self).jamo() == old(self).jamo(),
    ;
}

impl Hangul for char {
    open spec fn jamo(&self) -> char {
        *self
    }

    fn is_choseong(&self) -> (r: bool) {
        let c: char = *self;
        ('\u{1100}' <= c && c <= '\u{115e}') || ('\u{a960}' <= c && c <= '\u{a97c}')
    }

    fn is_jungseong(&self) -> (r: bool) {
        let c: char = *self;
        ('\u{1161}' <= c && c <= '\u{11a7}') || ('\u{d7b0}' <= c && c <= '\u{d7c6}')
    }

    fn is_jongseong(&self) -> (r: bool) {
        let c: char = *self;
        ('\u{11a8}' <= c && c <= '\u{11ff}') || ('\u{d7cb}' <= c && c <= '\u{d7fb}')
    }

    fn is_conjoinable(&self) -> (r: bool) {
        true
    }

    fn choseong_to_jongseong(&mut self) -> (r: Self) {
        *self
    }

    fn jongseong_to_choseong(&mut self) -> (r: Self) {
        *self
    }
}

/// The three parts of a syllable under composition.
#[derive(Debug, Clone, Copy, PartialEq, Eq)]
pub struct HangulBuffer {
    pub choseong: Option<char>,
    pub jungseong: Option<char>,
    pub jongseong: Option<char>,
}

/// A method that will compose Hangul syllables; so far it answers no key.
#[derive(Debug)]
pub struct HangulMethod {
    pub layout: Layout,
    pub modifiers_pressed: HashSet<u16>,
    pub combination: Vec<char>,
    pub buffer: HangulBuffer,
}

impl LayoutHelper for HangulMethod {
    open spec fn spec_layout(&self) -> Layout {
        self.layout
    }

    open spec fn spec_pressed(&self) -> Set<u16> {
        self.modifiers_pressed@
    }

    fn layout(&self) -> (r: &Layout) {
        &self.layout
    }

    fn modifiers_pressed(&self) -> (r: &HashSet<u16>) {
        &self.modifiers_pressed
    }
}

impl LayoutMethodTrait for HangulMethod {
    fn on_modifier_press(&mut self, m: usize) {
        self.layout.on_modifier_press(m, &mut self.modifiers_pressed);
    }

    fn on_modifier_release(&mut self, m: usize) {
        self.layout.on_modifier_release(m, &mut self.modifiers_pressed);
    }
}

impl HangulMethod {
    /// A method with nothing held and nothing composed.
    pub fn new(layout: Layout) -> (r: HangulMethod)
        ensures
            r.layout == layout,
            r.modifiers_pressed@ == Set::<u16>::empty(),
            r.combination@ == Seq::<char>::empty(),
            r.buffer == (HangulBuffer { choseong: None, jungseong: None, jongseong: None }),
    {
        HangulMethod {
            layout,
            modifiers_pressed: HashSet::new(),
            combination: Vec::new(),
            buffer: HangulBuffer { choseong: None, jungseong: None, jongseong: None },
        }
    }

    /// Answers a key press: nothing is defined and nothing changes.
    pub fn on_key_press(&mut self, key_code: u16) -> (r: BentenResponse)
        ensures
            *final(self) == *old(self),
            r@ == ResponseView::Undefined,
    {
        BentenResponse::Undefined
    }

    /// Answers a key release: nothing is defined and nothing changes.
    pub fn on_key_release(&mut self, key_code: u16) -> (r: BentenResponse)
        ensures
            *final(self) == *old(self),
            r@ == ResponseView::Undefined,
    {
        BentenResponse::Undefined
    }

    /// The syllable under composition.
    pub fn buffer(&self) -> (r: &HangulBuffer)
        ensures
            *r == self.buffer,
    {
        &self.buffer
    }
}

} // verus!
