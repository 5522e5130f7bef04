//! Layouts: modifiers, levels, and what each key code yields at each level.

use crate::response::{BentenError, Function};
use std::collections::HashMap;
use std::collections::HashSet;
use vstd::prelude::*;
use vstd::std_specs::iter::IteratorSpec;
use vstd::string::*;

verus! {

broadcast use vstd::std_specs::hash::group_hash_axioms;

/// How a modifier key acts on the set of held modifiers.
#[derive(Debug, Clone, Copy, PartialEq, Eq, Hash)]
pub enum ModifierKind {
    /// Held while the key is down.
    Hold,
    /// Toggled by each press.
    Lock,
    /// Meant for the next key only; a press changes nothing.
    Latch,
}

/// One modifier slot: its kind and the key codes that stand for it, any one
/// of which satisfies the slot.
#[derive(Debug, Clone, PartialEq, Eq)]
pub struct Modifier {
    pub kind: ModifierKind,
    pub key_codes: Vec<u16>,
}

/// One level: its number, counted from 1, and the modifier slots, by index,
/// that must all be active to reach it.
#[derive(Debug, Clone, PartialEq, Eq)]
pub struct Level {
    pub level: u16,
    pub modifiers: Vec<usize>,
}

/// A declarative keyboard layout.
///
/// The lists under `keys`, `specs` and `bindings` are indexed by level minus
/// one; the unmodified level has index 0.
#[derive(Debug, Clone, PartialEq, Eq)]
pub struct Layout {
    pub id: String,
    pub modifiers: Vec<Modifier>,
    /// The levels in the order in which they are tried.
    pub levels: Vec<Level>,
    /// Key code to the characters it yields.
    pub keys: HashMap<u16, Vec<Option<String>>>,
    /// Key code to the names of the special keys it stands for.
    pub specs: HashMap<u16, Vec<Option<String>>>,
    /// Key code to the functions bound to it.
    pub bindings: HashMap<u16, Vec<Option<Function>>>,
}

/// Whether `c` picks one key code out of every slot, in order.
pub open spec fn is_choice(slots: Seq<Seq<u16>>, c: Seq<u16>) -> bool {
    &&& c.len() == slots.len()
    &&& forall|i: int| 0 <= i < slots.len() ==> (#[trigger] slots[i]).contains(c[i])
}

/// Whether the held set is exactly one key code out of every slot.
pub open spec fn slots_match(slots: Seq<Seq<u16>>, pressed: Set<u16>) -> bool {
    exists|c: Seq<u16>| is_choice(slots, c) && #[trigger] c.to_set() == pressed
}

/// The held set after a press of a key of modifier `m`.
pub open spec fn spec_press(m: Modifier, pressed: Set<u16>) -> Set<u16> {
    let codes = m.key_codes@.to_set();
    match m.kind {
        ModifierKind::Lock => if pressed.disjoint(codes) {
            pressed.union(codes)
        } else {
            pressed.difference(codes)
        },
        ModifierKind::Hold => pressed.union(codes),
        ModifierKind::Latch => pressed,
    }
}

/// The held set after a release of a key of modifier `m`.
pub open spec fn spec_release(m: Modifier, pressed: Set<u16>) -> Set<u16> {
    match m.kind {
        ModifierKind::Hold => pressed.difference(m.key_codes@.to_set()),
        _ => pressed,
    }
}

/// What a level-indexed list of a key code holds at the given index.
pub open spec fn spec_entry<T>(rows: Map<u16, Vec<Option<T>>>, key_code: u16, index: Option<int>) -> Option<T> {
    match index {
        Some(i) => if rows.contains_key(key_code) && 0 <= i < rows[key_code]@.len() {
            rows[key_code]@[i]
        } else {
            None
        },
        None => None,
    }
}

/// The characters of an optional string.
pub open spec fn opt_text(s: Option<String>) -> Option<Seq<char>> {
    match s {
        Some(t) => Some(t@),
        None => None,
    }
}

impl Layout {
    /// Every level is numbered from 1 and names only modifier slots that
    /// exist.
    pub open spec fn wf(&self) -> bool {
        spec_levels_fit(self.modifiers@, self.levels@)
    }

    /// The key codes of the slots that level entry `l` names, slot by slot.
    pub open spec fn slots_of(&self, l: int) -> Seq<Seq<u16>> {
        Seq::new(
            self.levels@[l].modifiers@.len(),
            |j: int| self.modifiers@[self.levels@[l].modifiers@[j] as int].key_codes@,
        )
    }

    /// The first level entry at or after `from` that the held set matches.
    pub open spec fn first_match(&self, pressed: Set<u16>, from: int) -> Option<int>
        decreases self.levels@.len() - from,
    {
        if from < 0 || from >= self.levels@.len() {
            None
        } else if slots_match(self.slots_of(from), pressed) {
            Some(from)
        } else {
            self.first_match(pressed, from + 1)
        }
    }

    /// The index into the level-indexed lists that the held set selects:
    /// 0 when nothing is held, else the number of the first matching level
    /// minus one, and nothing when no level matches.
    pub open spec fn spec_level(&self, pressed: Set<u16>) -> Option<int> {
        if pressed.is_empty() {
            Some(0)
        } else {
            match self.first_match(pressed, 0) {
                Some(l) => Some(self.levels@[l].level - 1),
                None => None,
            }
        }
    }

    /// The first modifier slot at or after `from` that holds the key code.
    pub open spec fn modifier_from(&self, key_code: u16, from: int) -> Option<int>
        decreases self.modifiers@.len() - from,
    {
        if from < 0 || from >= self.modifiers@.len() {
            None
        } else if self.modifiers@[from].key_codes@.contains(key_code) {
            Some(from)
        } else {
            self.modifier_from(key_code, from + 1)
        }
    }

    /// The first modifier slot that holds the key code, if it is a modifier
    /// key at all.
    pub open spec fn spec_modifier(&self, key_code: u16) -> Option<int> {
        self.modifier_from(key_code, 0)
    }

    /// The character that the key code yields under the held set.
    pub open spec fn spec_char(&self, key_code: u16, pressed: Set<u16>) -> Option<Seq<char>> {
        opt_text(spec_entry(self.keys@, key_code, self.spec_level(pressed)))
    }

    /// The special-key name that the key code has under the held set.
    pub open spec fn spec_special(&self, key_code: u16, pressed: Set<u16>) -> Option<Seq<char>> {
        opt_text(spec_entry(self.specs@, key_code, self.spec_level(pressed)))
    }
}

/// The sequences of key codes that a list of vectors holds.
pub open spec fn views(slots: Seq<Vec<u16>>) -> Seq<Seq<u16>> {
    Seq::new(slots.len(), |i: int| slots[i]@)
}

/// Every way of picking one key code out of each slot.
///
/// Calls `Itertools::multi_cartesian_product` of the itertools crate on the
/// slots' elements and collects what it yields. The contract claims that
/// each vector that comes back picks one element out of each slot, in the
/// slots' order, that every such pick comes back when there is a slot,
/// and that nothing comes back when there is none. It claims nothing of
/// the order of the picks, nor of how often one comes back.
#[verifier::external_body]
pub(crate) fn cartesian_product(slots: &Vec<Vec<u16>>) -> (r: Vec<Vec<u16>>)
    ensures
        forall|j: int| 0 <= j < r@.len() ==> is_choice(views(slots@), (#[trigger] r@[j])@),
        forall|c: Seq<u16>|
            slots@.len() > 0 && #[trigger] is_choice(views(slots@), c) ==> exists|j: int|
                0 <= j < r@.len() && (#[trigger] r@[j])@ == c,
        slots@.len() == 0 ==> r@.len() == 0,
{
    itertools::Itertools::multi_cartesian_product(slots.iter().map(|s| s.iter().copied())).collect()
}

/// The key codes among the first `n` of `codes`.
pub open spec fn first_codes(codes: Seq<u16>, n: int) -> Set<u16> {
    codes.take(n).to_set()
}

proof fn lemma_first_codes_step(codes: Seq<u16>, n: int)
    requires
        0 <= n < codes.len(),
    ensures
        first_codes(codes, n + 1) == first_codes(codes, n).insert(codes[n]),
{
    let t1 = codes.take(n + 1);
    let t0 = codes.take(n);
    let a = t1.to_set();
    let b = t0.to_set().insert(codes[n]);
    assert forall|x: u16| a.contains(x) <==> b.contains(x) by {
        if t1.contains(x) {
            let j = choose|j: int| 0 <= j < t1.len() && t1[j] == x;
            if j < n {
                assert(t0[j] == x);
            }
        }
        if b.contains(x) {
            if x == codes[n] {
                assert(t1[n] == x);
            } else {
                let j = choose|j: int| 0 <= j < t0.len() && t0[j] == x;
                assert(t1[j] == x);
            }
        }
    }
    assert(a =~= b);
}

proof fn lemma_first_codes_ends(codes: Seq<u16>)
    ensures
        first_codes(codes, 0) == Set::<u16>::empty(),
        first_codes(codes, codes.len() as int) == codes.to_set(),
{
    assert(first_codes(codes, 0) =~= Set::<u16>::empty());
    assert(codes.take(codes.len() as int) =~= codes);
}

/// A hash set holds finitely many key codes.
pub proof fn lemma_held_finite(pressed: &HashSet<u16>)
    ensures
        pressed@.finite(),
{
    vstd::std_specs::hash::axiom_spec_hash_keys_iter(pressed);
    vstd::seq_lib::seq_to_set_is_finite(
        vstd::std_specs::hash::spec_hash_keys_iter(pressed).remaining().unref(),
    );
}

/// Whether the held set is exactly the set of the given key codes.
pub fn same_set(pressed: &HashSet<u16>, codes: &Vec<u16>) -> (r: bool)
    ensures
        r == (codes@.to_set() == pressed@),
{
    let mut seen: HashSet<u16> = HashSet::new();
    let mut i: usize = 0;
    proof {
        lemma_first_codes_ends(codes@);
    }
    while i < codes.len()
        invariant
            i <= codes@.len(),
            seen@ == first_codes(codes@, i as int),
            seen@.subset_of(pressed@),
        decreases codes@.len() - i,
    {
        let c: u16 = codes[i];
        if !pressed.contains(&c) {
            proof {
                assert(codes@.to_set().contains(c));
            }
            return false;
        }
        proof {
            lemma_first_codes_step(codes@, i as int);
        }
        seen.insert(c);
        i = i + 1;
    }
    proof {
        lemma_first_codes_ends(codes@);
        vstd::seq_lib::seq_to_set_is_finite(codes@);
        lemma_held_finite(pressed);
        if seen@.len() == pressed@.len() {
            vstd::set_lib::lemma_subset_equality(seen@, pressed@);
        }
    }
    seen.len() == pressed.len()
}

/// Whether the held set is exactly one key code out of every slot.
#[verifier::loop_isolation(false)]
pub fn slots_hit(slots: &Vec<Vec<u16>>, pressed: &HashSet<u16>) -> (r: bool)
    ensures
        r == slots_match(views(slots@), pressed@),
{
    if slots.len() == 0 {
        let r = pressed.is_empty();
        proof {
            let none = Seq::<u16>::empty();
            assert(none.to_set() =~= Set::<u16>::empty());
            if r {
                assert(pressed@ =~= Set::<u16>::empty());
                assert(is_choice(views(slots@), none) && none.to_set() == pressed@);
            } else if slots_match(views(slots@), pressed@) {
                let c = choose|c: Seq<u16>| is_choice(views(slots@), c) && #[trigger] c.to_set() == pressed@;
                assert(c =~= none);
                assert(pressed@ =~= Set::<u16>::empty());
            }
        }
        return r;
    }
    let picks = cartesian_product(slots);
    let mut k: usize = 0;
    while k < picks.len()
        invariant
            k <= picks@.len(),
            forall|j: int| 0 <= j < k ==> (#[trigger] picks@[j])@.to_set() != pressed@,
        decreases picks@.len() - k,
    {
        if same_set(pressed, &picks[k]) {
            proof {
                let c = picks@[k as int]@;
                assert(is_choice(views(slots@), c) && c.to_set() == pressed@);
            }
            return true;
        }
        k = k + 1;
    }
    proof {
        if slots_match(views(slots@), pressed@) {
            let c = choose|c: Seq<u16>| is_choice(views(slots@), c) && #[trigger] c.to_set() == pressed@;
            let j = choose|j: int| 0 <= j < picks@.len() && (#[trigger] picks@[j])@ == c;
            assert(picks@[j]@.to_set() != pressed@);
        }
    }
    false
}

/// What a level-indexed list of a key code holds at the given index.
pub fn entry_at<'a, T>(
    rows: &'a HashMap<u16, Vec<Option<T>>>,
    key_code: u16,
    index: Option<usize>,
) -> (r: Option<&'a T>)
    ensures
        match r {
            Some(t) => spec_entry(rows@, key_code, index_int(index)) == Some(*t),
            None => spec_entry(rows@, key_code, index_int(index)) is None,
        },
{
    match index {
        Some(i) => match rows.get(&key_code) {
            Some(row) => if i < row.len() {
                row[i].as_ref()
            } else {
                None
            },
            None => None,
        },
        None => None,
    }
}

/// An optional index as a mathematical integer.
pub open spec fn index_int(index: Option<usize>) -> Option<int> {
    match index {
        Some(i) => Some(i as int),
        None => None,
    }
}

impl Layout {
    /// The key codes of the slots that level entry `l` names.
    pub fn level_slots(&self, l: usize) -> (slots: Vec<Vec<u16>>)
        requires
            self.wf(),
            l < self.levels@.len(),
        ensures
            views(slots@) == self.slots_of(l as int),
    {
        let level = &self.levels[l];
        let mut slots: Vec<Vec<u16>> = Vec::new();
        let mut j: usize = 0;
        while j < level.modifiers.len()
            invariant
                self.wf(),
                l < self.levels@.len(),
                *level == self.levels@[l as int],
                j <= level.modifiers@.len(),
                slots@.len() == j,
                forall|k: int|
                    0 <= k < j ==> (#[trigger] slots@[k])@ == self.modifiers@[level.modifiers@[k] as int].key_codes@,
            decreases level.modifiers@.len() - j,
        {
            let m: usize = level.modifiers[j];
            let codes = self.modifiers[m].key_codes.clone();
            assert(codes@ =~= self.modifiers@[m as int].key_codes@);
            slots.push(codes);
            j = j + 1;
        }
        assert(views(slots@) =~= self.slots_of(l as int));
        slots
    }

    /// The index into the level-indexed lists that the held set selects.
    pub fn calculate_level(&self, pressed: &HashSet<u16>) -> (r: Option<usize>)
        requires
            self.wf(),
        ensures
            index_int(r) == self.spec_level(pressed@),
    {
        if pressed.is_empty() {
            return Some(0);
        }
        let mut l: usize = 0;
        while l < self.levels.len()
            invariant
                self.wf(),
                l <= self.levels@.len(),
                !pressed@.is_empty(),
                self.first_match(pressed@, 0) == self.first_match(pressed@, l as int),
            decreases self.levels@.len() - l,
        {
            let slots = self.level_slots(l);
            if slots_hit(&slots, pressed) {
                let n: u16 = self.levels[l].level;
                return Some((n - 1) as usize);
            }
            l = l + 1;
        }
        None
    }

    /// The first modifier slot that holds the key code, if it is a modifier
    /// key at all.
    pub fn is_get_modifier(&self, key_code: u16) -> (r: Option<usize>)
        ensures
            index_int(r) == self.spec_modifier(key_code),
            r matches Some(m) ==> m < self.modifiers@.len(),
    {
        let mut m: usize = 0;
        while m < self.modifiers.len()
            invariant
                m <= self.modifiers@.len(),
                self.spec_modifier(key_code) == self.modifier_from(key_code, m as int),
            decreases self.modifiers@.len() - m,
        {
            if holds_code(&self.modifiers[m].key_codes, key_code) {
                return Some(m);
            }
            m = m + 1;
        }
        None
    }

    /// The character that the key code yields under the held set.
    pub fn calculate_char(&self, pressed: &HashSet<u16>, key_code: u16) -> (r: Option<String>)
        requires
            self.wf(),
        ensures
            opt_text(r) == self.spec_char(key_code, pressed@),
    {
        let level = self.calculate_level(pressed);
        match entry_at(&self.keys, key_code, level) {
            Some(s) => Some(s.clone()),
            None => None,
        }
    }

    /// The special-key name that the key code has under the held set.
    pub fn calculate_special_key(&self, pressed: &HashSet<u16>, key_code: u16) -> (r: Option<String>)
        requires
            self.wf(),
        ensures
            opt_text(r) == self.spec_special(key_code, pressed@),
    {
        let level = self.calculate_level(pressed);
        match entry_at(&self.specs, key_code, level) {
            Some(s) => Some(s.clone()),
            None => None,
        }
    }

    /// Whether the key code stands for the special key of the given name
    /// under the held set.
    pub fn is(&self, pressed: &HashSet<u16>, key_code: u16, name: &str) -> (r: bool)
        requires
            self.wf(),
        ensures
            r == (self.spec_special(key_code, pressed@) == Some(name@)),
    {
        match self.calculate_special_key(pressed, key_code) {
            Some(s) => crate::text::same_text(s.as_str(), name),
            None => false,
        }
    }
}

/// Whether the key code is among `codes`.
pub fn holds_code(codes: &Vec<u16>, key_code: u16) -> (r: bool)
    ensures
        r == codes@.contains(key_code),
{
    let mut i: usize = 0;
    while i < codes.len()
        invariant
            i <= codes@.len(),
            forall|j: int| 0 <= j < i ==> codes@[j] != key_code,
        decreases codes@.len() - i,
    {
        if codes[i] == key_code {
            return true;
        }
        i = i + 1;
    }
    false
}

/// Whether any of `codes` is held.
pub fn any_held(pressed: &HashSet<u16>, codes: &Vec<u16>) -> (r: bool)
    ensures
        r == !pressed@.disjoint(codes@.to_set()),
{
    let mut i: usize = 0;
    while i < codes.len()
        invariant
            i <= codes@.len(),
            forall|j: int| 0 <= j < i ==> !pressed@.contains(codes@[j]),
        decreases codes@.len() - i,
    {
        if pressed.contains(&codes[i]) {
            proof {
                assert(codes@.to_set().contains(codes@[i as int]));
            }
            return true;
        }
        i = i + 1;
    }
    proof {
        assert forall|x: u16| !(pressed@.contains(x) && codes@.to_set().contains(x)) by {
            if codes@.contains(x) {
                let j = choose|j: int| 0 <= j < codes@.len() && codes@[j] == x;
            }
        }
    }
    false
}

/// Adds every one of `codes` to the held set.
pub fn insert_all(pressed: &mut HashSet<u16>, codes: &Vec<u16>)
    ensures
        final(pressed)@ == old(pressed)@.union(codes@.to_set()),
{
    let mut i: usize = 0;
    proof {
        lemma_first_codes_ends(codes@);
        assert(pressed@ =~= old(pressed)@.union(first_codes(codes@, 0)));
    }
    while i < codes.len()
        invariant
            i <= codes@.len(),
            pressed@ == old(pressed)@.union(first_codes(codes@, i as int)),
        decreases codes@.len() - i,
    {
        proof {
            lemma_first_codes_step(codes@, i as int);
        }
        pressed.insert(codes[i]);
        i = i + 1;
        assert(pressed@ =~= old(pressed)@.union(first_codes(codes@, i as int)));
    }
    proof {
        lemma_first_codes_ends(codes@);
    }
}

/// Takes every one of `codes` out of the held set.
pub fn remove_all(pressed: &mut HashSet<u16>, codes: &Vec<u16>)
    ensures
        final(pressed)@ == old(pressed)@.difference(codes@.to_set()),
{
    let mut i: usize = 0;
    proof {
        lemma_first_codes_ends(codes@);
        assert(pressed@ =~= old(pressed)@.difference(first_codes(codes@, 0)));
    }
    while i < codes.len()
        invariant
            i <= codes@.len(),
            pressed@ == old(pressed)@.difference(first_codes(codes@, i as int)),
        decreases codes@.len() - i,
    {
        proof {
            lemma_first_codes_step(codes@, i as int);
        }
        pressed.remove(&codes[i]);
        i = i + 1;
        assert(pressed@ =~= old(pressed)@.difference(first_codes(codes@, i as int)));
    }
    proof {
        lemma_first_codes_ends(codes@);
    }
}

impl Layout {
    /// Records a press of a key of modifier slot `m` in the held set.
    pub fn on_modifier_press(&self, m: usize, pressed: &mut HashSet<u16>)
        requires
            m < self.modifiers@.len(),
        ensures
            final(pressed)@ == spec_press(self.modifiers@[m as int], old(pressed)@),
    {
        let modifier = &self.modifiers[m];
        match modifier.kind {
            ModifierKind::Lock => {
                if any_held(pressed, &modifier.key_codes) {
                    remove_all(pressed, &modifier.key_codes);
                } else {
                    insert_all(pressed, &modifier.key_codes);
                }
            },
            ModifierKind::Hold => {
                insert_all(pressed, &modifier.key_codes);
            },
            ModifierKind::Latch => {},
        }
    }

    /// Records a release of a key of modifier slot `m` in the held set.
    pub fn on_modifier_release(&self, m: usize, pressed: &mut HashSet<u16>)
        requires
            m < self.modifiers@.len(),
        ensures
            final(pressed)@ == spec_release(self.modifiers@[m as int], old(pressed)@),
    {
        let modifier = &self.modifiers[m];
        match modifier.kind {
            ModifierKind::Hold => {
                remove_all(pressed, &modifier.key_codes);
            },
            _ => {},
        }
    }

    /// Whether the parts make a layout in which every level is numbered
    /// from 1 and names only modifier slots that exist.
    #[verifier::loop_isolation(false)]
    pub fn levels_fit(modifiers: &Vec<Modifier>, levels: &Vec<Level>) -> (r: bool)
        ensures
            r == spec_levels_fit(modifiers@, levels@),
    {
        let mut l: usize = 0;
        while l < levels.len()
            invariant
                l <= levels@.len(),
                forall|k: int| 0 <= k < l ==> spec_level_fits(modifiers@, #[trigger] levels@[k]),
            decreases levels@.len() - l,
        {
            let level = &levels[l];
            if level.level < 1 {
                return false;
            }
            let mut j: usize = 0;
            while j < level.modifiers.len()
                invariant
                    j <= level.modifiers@.len(),
                    forall|k: int| 0 <= k < j ==> (#[trigger] level.modifiers@[k]) < modifiers@.len(),
                decreases level.modifiers@.len() - j,
            {
                if level.modifiers[j] >= modifiers.len() {
                    assert(!spec_level_fits(modifiers@, levels@[l as int]));
                    return false;
                }
                j = j + 1;
            }
            l = l + 1;
        }
        true
    }

    /// A layout made of the given parts, or a `ParseError` when a level is
    /// numbered 0 or names a modifier slot that does not exist.
    pub fn new(
        id: String,
        modifiers: Vec<Modifier>,
        levels: Vec<Level>,
        keys: HashMap<u16, Vec<Option<String>>>,
        specs: HashMap<u16, Vec<Option<String>>>,
        bindings: HashMap<u16, Vec<Option<Function>>>,
    ) -> (r: Result<Layout, BentenError>)
        ensures
            match r {
                Ok(layout) => {
                    &&& spec_levels_fit(modifiers@, levels@)
                    &&& layout.wf()
                    &&& layout == (Layout { id, modifiers, levels, keys, specs, bindings })
                },
                Err(e) => !spec_levels_fit(modifiers@, levels@) && e is ParseError,
            },
    {
        if Layout::levels_fit(&modifiers, &levels) {
            Ok(Layout { id, modifiers, levels, keys, specs, bindings })
        } else {
            Err(BentenError::ParseError(String::from_str("a level names no modifier of the layout")))
        }
    }
}

/// Whether a level is numbered from 1 and names only modifier slots that
/// exist.
pub open spec fn spec_level_fits(modifiers: Seq<Modifier>, level: Level) -> bool {
    &&& level.level >= 1
    &&& forall|j: int|
        0 <= j < level.modifiers@.len() ==> (#[trigger] level.modifiers@[j]) < modifiers.len()
}

/// Whether every level is numbered from 1 and names only modifier slots
/// that exist.
pub open spec fn spec_levels_fit(modifiers: Seq<Modifier>, levels: Seq<Level>) -> bool {
    forall|l: int| 0 <= l < levels.len() ==> spec_level_fits(modifiers, #[trigger] levels[l])
}

} // verus!
