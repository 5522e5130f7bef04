use benten::engine::{BentenConfig, BentenEngine};
use benten::hangul::{Hangul, HangulBuffer, HangulMethod};
use benten::layout::{Layout, Level, Modifier, ModifierKind};
use benten::layout_method::LayoutMethod;
use benten::method::Method;
use benten::mode::{Binding, Condition, Mode, ModeHouse};
use benten::table::{Entry, Table, TableMethod};
use benten::{BentenError, BentenResponse, Function};
use std::collections::HashMap;

fn row(cells: &[Option<&str>]) -> Vec<Option<String>> {
    cells.iter().map(|c| c.map(|s| s.to_string())).collect()
}

fn plain(id: &str) -> Layout {
    Layout::new(
        id.to_string(),
        Vec::new(),
        Vec::new(),
        HashMap::new(),
        HashMap::new(),
        HashMap::new(),
    )
    .unwrap()
}

fn kana() -> LayoutMethod {
    let mut keys = HashMap::new();
    keys.insert(25, row(&[Some("く"), Some("ク")]));
    let layout = Layout::new(
        "kana".to_string(),
        vec![Modifier { kind: ModifierKind::Lock, key_codes: vec![66] }],
        vec![Level { level: 2, modifiers: vec![0] }],
        keys,
        HashMap::new(),
        HashMap::new(),
    )
    .unwrap();
    LayoutMethod::new(layout)
}

fn cangjie() -> TableMethod {
    let mut keys = HashMap::new();
    keys.insert(24, row(&[Some("q")]));
    let mut specs = HashMap::new();
    specs.insert(65, row(&[Some("COMMIT")]));
    let mut bindings = HashMap::new();
    bindings.insert(65, vec![Some(Function::ChangeMethodTo("kana".to_string()))]);
    bindings.insert(30, vec![Some(Function::ChangeMethodTo("nowhere".to_string()))]);
    let layout =
        Layout::new("cangjie5".to_string(), Vec::new(), Vec::new(), keys, specs, bindings).unwrap();
    let table = Table {
        id: "cangjie5".to_string(),
        entries: vec![Entry { character: '手', sequence: "q".to_string() }],
    };
    TableMethod::new(layout, table)
}

fn binding(function: Function, conditions: Vec<Condition>, key_codes: Vec<u16>) -> Binding {
    Binding { function, conditions, key_codes }
}

/// Key 100 goes to cangjie5 from kana, key 101 goes to kana from anywhere,
/// key 102 names a method that does not exist, key 103 carries a function
/// that a mode does not define.
fn house() -> ModeHouse {
    let bindings = vec![
        binding(
            Function::ChangeMethodTo("cangjie5".to_string()),
            vec![Condition::CurrentMethodIs("kana".to_string()), Condition::Empty],
            vec![100],
        ),
        binding(
            Function::ChangeMethodTo("kana".to_string()),
            vec![Condition::CurrentMethodIsInstanceOf("table".to_string())],
            vec![101],
        ),
        binding(Function::ChangeMethodTo("nowhere".to_string()), Vec::new(), vec![102]),
        binding(Function::IfEmptyChangeMethodTo("cangjie5".to_string()), Vec::new(), vec![103]),
        binding(Function::ChangeMethodTo("cangjie5".to_string()), Vec::new(), vec![0, 104]),
    ];
    let mode = Mode {
        methods: vec![Method::Layout(kana()), Method::Table(cangjie())],
        bindings,
        current_method: 0,
    };
    ModeHouse::new("japanese".to_string(), mode, LayoutMethod::new(plain("mode"))).unwrap()
}

fn engine() -> BentenEngine {
    BentenEngine::new(BentenConfig::new("japanese\n", String::new()), house())
}

#[test]
fn binding_switches_and_answers_empty() {
    let mut h = house();
    assert_eq!(h.current_id(), "kana");
    assert_eq!(h.on_key_press(100), BentenResponse::Empty);
    assert_eq!(h.current_id(), "cangjie5");
    // the switch is not handed to the new method
    assert_eq!(h.on_key_press(24), BentenResponse::Suggest("手".to_string()));
}

#[test]
fn binding_needs_its_conditions() {
    let mut h = house();
    assert_eq!(h.on_key_press(100), BentenResponse::Empty);
    // in cangjie5 the condition on kana fails: the key goes to the method
    assert_eq!(h.on_key_press(24), BentenResponse::Suggest("手".to_string()));
    assert_eq!(h.on_key_press(100), BentenResponse::Suggest("手".to_string()));
    assert_eq!(h.current_id(), "cangjie5");
}

#[test]
fn binding_resets_the_method_it_leaves() {
    let mut h = house();
    h.on_key_press(100);
    assert_eq!(h.on_key_press(24), BentenResponse::Suggest("手".to_string()));
    assert_eq!(h.on_key_press(101), BentenResponse::Empty);
    assert_eq!(h.current_id(), "kana");
    match &h.mode.methods[1] {
        Method::Table(t) => {
            assert!(t.key_sequence.is_empty());
            assert!(t.relative_entries.is_empty());
            assert_eq!(t.index, 0);
        }
        Method::Layout(_) => unreachable!(),
    }
}

#[test]
fn binding_to_a_missing_method_falls_through() {
    let mut h = house();
    assert_eq!(h.on_key_press(102), BentenResponse::Undefined);
    assert_eq!(h.current_id(), "kana");
    h.on_key_press(100);
    assert_eq!(h.on_key_press(102), BentenResponse::Empty);
    assert_eq!(h.current_id(), "cangjie5");
}

#[test]
fn binding_with_another_function_falls_through() {
    let mut h = house();
    assert_eq!(h.on_key_press(103), BentenResponse::Undefined);
    assert_eq!(h.current_id(), "kana");
}

#[test]
fn binding_is_read_at_the_level_of_the_mode() {
    let mut h = house();
    // the mode's own layout holds nothing: level index 0, where the last
    // binding has key code 0 and not 104
    assert_eq!(h.on_key_press(104), BentenResponse::Undefined);
    assert_eq!(h.current_id(), "kana");
    assert_eq!(h.on_key_press(0), BentenResponse::Empty);
    assert_eq!(h.current_id(), "cangjie5");
}

#[test]
fn conditions_are_all_asked() {
    let h = house();
    assert!(h.are_conditions_met(&Vec::new()));
    assert!(h.are_conditions_met(&vec![Condition::Empty]));
    assert!(h.are_conditions_met(&vec![Condition::CurrentMethodIsInstanceOf("x".to_string())]));
    assert!(h.are_conditions_met(&vec![Condition::CurrentMethodIs("kana".to_string())]));
    assert!(!h.are_conditions_met(&vec![
        Condition::Empty,
        Condition::CurrentMethodIs("cangjie5".to_string())
    ]));
}

#[test]
fn switch_to_a_missing_method_changes_nothing() {
    let mut h = house();
    h.on_key_press(66);
    let r = h.switch_to("nowhere");
    assert_eq!(r, Err(BentenError::MethodNotFound("nowhere".to_string())));
    assert_eq!(h.current_id(), "kana");
    // the lock is still held
    assert_eq!(h.on_key_press(25), BentenResponse::Commit("ク".to_string()));
}

#[test]
fn switch_to_resets_the_method_it_leaves() {
    let mut h = house();
    h.on_key_press(66);
    assert_eq!(h.switch_to("cangjie5"), Ok(()));
    assert_eq!(h.current_id(), "cangjie5");
    assert_eq!(h.switch_to("kana"), Ok(()));
    assert_eq!(h.on_key_press(25), BentenResponse::Commit("く".to_string()));
}

#[test]
fn position_of_finds_the_first_method_of_the_id() {
    let h = house();
    assert_eq!(h.mode.position_of("kana"), Some(0));
    assert_eq!(h.mode.position_of("cangjie5"), Some(1));
    assert_eq!(h.mode.position_of("nowhere"), None);
}

#[test]
fn release_and_reset_go_to_the_active_method() {
    let mut h = house();
    h.on_key_press(66);
    assert_eq!(h.on_key_release(66), BentenResponse::Undefined);
    assert_eq!(h.on_key_press(25), BentenResponse::Commit("ク".to_string()));
    h.reset();
    assert_eq!(h.on_key_press(25), BentenResponse::Commit("く".to_string()));
    h.reset();
    h.reset();
    assert_eq!(h.on_key_press(25), BentenResponse::Commit("く".to_string()));
}

#[test]
fn house_with_a_missing_active_method_is_refused() {
    let mode = Mode { methods: vec![Method::Layout(kana())], bindings: Vec::new(), current_method: 1 };
    let r = ModeHouse::new("bad".to_string(), mode, LayoutMethod::new(plain("mode")));
    assert!(matches!(r, Err(BentenError::ParseError(_))));
    let none = Mode { methods: Vec::new(), bindings: Vec::new(), current_method: 0 };
    let r = ModeHouse::new("bad".to_string(), none, LayoutMethod::new(plain("mode")));
    assert!(matches!(r, Err(BentenError::ParseError(_))));
}

#[test]
fn house_with_a_broken_layout_is_refused() {
    let mut broken = kana();
    broken.layout.levels.push(Level { level: 3, modifiers: vec![9] });
    assert!(!ModeHouse::methods_fit(&vec![Method::Layout(kana()), Method::Layout(broken)]));
    let mut broken = kana();
    broken.layout.levels.push(Level { level: 0, modifiers: Vec::new() });
    let mode = Mode { methods: vec![Method::Layout(broken)], bindings: Vec::new(), current_method: 0 };
    let r = ModeHouse::new("bad".to_string(), mode, LayoutMethod::new(plain("mode")));
    assert!(matches!(r, Err(BentenError::ParseError(_))));
}

#[test]
fn mode_new_prefers_the_mode_document() {
    let parsed = Mode { methods: vec![Method::Layout(kana())], bindings: Vec::new(), current_method: 0 };
    let r = Mode::new(Ok(parsed), Ok(cangjie()), Ok(kana())).unwrap();
    assert_eq!(r.methods.len(), 1);
    assert_eq!(r.methods[0].id(), "kana");
}

#[test]
fn mode_new_falls_back_to_the_table_then_the_layout() {
    let e = || BentenError::ParseError("no mode".to_string());
    let io = || BentenError::IoError("no file".to_string());
    let r = Mode::new(Err(e()), Ok(cangjie()), Ok(kana())).unwrap();
    assert_eq!(r.methods.len(), 1);
    assert!(matches!(r.methods[0], Method::Table(_)));
    assert_eq!(r.current_method, 0);
    assert!(r.bindings.is_empty());
    let r = Mode::new(Err(e()), Err(io()), Ok(kana())).unwrap();
    assert!(matches!(r.methods[0], Method::Layout(_)));
    let r = Mode::new(Err(e()), Err(io()), Err(io()));
    assert_eq!(r.err(), Some(e()));
}

#[test]
fn engine_applies_a_change_of_method() {
    let mut e = engine();
    assert_eq!(e.cfg.id, "japanese");
    assert_eq!(e.current_id(), "kana");
    assert_eq!(e.on_key_press(100), BentenResponse::Empty);
    assert_eq!(e.current_id(), "cangjie5");
    assert_eq!(e.on_key_press(24), BentenResponse::Suggest("手".to_string()));
    // the commit key of cangjie5 is bound to a change to kana
    assert_eq!(e.on_key_press(65), BentenResponse::Commit("手".to_string()));
    assert_eq!(e.current_id(), "kana");
    assert_eq!(e.on_key_press(25), BentenResponse::Commit("く".to_string()));
}

#[test]
fn engine_hands_on_a_change_to_a_missing_method() {
    let mut e = engine();
    e.on_key_press(100);
    assert_eq!(
        e.on_key_press(30),
        BentenResponse::Function(Function::ChangeMethodTo("nowhere".to_string()))
    );
    assert_eq!(e.current_id(), "cangjie5");
}

#[test]
fn exec_function_by_variant() {
    let mut e = engine();
    assert_eq!(e.exec_function(&Function::ChangeMethodTo("cangjie5".to_string())), None);
    assert_eq!(e.current_id(), "cangjie5");
    assert_eq!(
        e.exec_function(&Function::CommitThenChangeMethodTo("x".to_string(), "kana".to_string())),
        Some(BentenResponse::Commit("x".to_string()))
    );
    assert_eq!(e.current_id(), "kana");
    assert_eq!(e.exec_function(&Function::IfEmptyChangeMethodTo("cangjie5".to_string())), None);
    assert_eq!(e.current_id(), "kana");
    assert_eq!(
        e.exec_function(&Function::CommitThenChangeMethodTo("y".to_string(), "nowhere".to_string())),
        Some(BentenResponse::Commit("y".to_string()))
    );
    assert_eq!(e.current_id(), "kana");
}

#[test]
fn engine_release_reset_and_set_layout() {
    let mut e = engine();
    e.on_key_press(66);
    assert_eq!(e.on_key_release(66), BentenResponse::Undefined);
    assert_eq!(e.on_key_press(25), BentenResponse::Commit("ク".to_string()));
    e.reset();
    assert_eq!(e.on_key_press(25), BentenResponse::Commit("く".to_string()));
    let single = Mode::from_method(Method::Table(cangjie()));
    let h = ModeHouse::new("cangjie5".to_string(), single, LayoutMethod::new(plain("mode"))).unwrap();
    e.set_layout(h);
    assert_eq!(e.current_id(), "cangjie5");
    assert_eq!(e.cfg.id, "japanese");
    assert_eq!(e.on_key_press(24), BentenResponse::Suggest("手".to_string()));
}

#[test]
fn method_dispatches_by_kind() {
    let mut l = Method::Layout(kana());
    let mut t = Method::Table(cangjie());
    assert_eq!(l.id(), "kana");
    assert_eq!(t.id(), "cangjie5");
    assert_eq!(l.on_key_press(25), BentenResponse::Commit("く".to_string()));
    assert_eq!(t.on_key_press(24), BentenResponse::Suggest("手".to_string()));
    assert_eq!(l.on_key_release(25), BentenResponse::Undefined);
    assert_eq!(t.on_key_release(24), BentenResponse::Undefined);
    t.reset();
    l.reset();
    assert_eq!(t.on_key_press(65), BentenResponse::Empty);
}

#[test]
fn responses_and_functions_clone() {
    let f = Function::CommitThenChangeMethodTo("a".to_string(), "b".to_string());
    assert_eq!(f.clone(), f);
    let r = BentenResponse::Function(Function::IfEmptyChangeMethodTo("m".to_string()));
    assert_eq!(r.clone(), r);
    assert_eq!(BentenResponse::Suggest("s".to_string()).clone(), BentenResponse::Suggest("s".to_string()));
    let e = Entry { character: '手', sequence: "q".to_string() };
    assert_eq!(e.clone(), e);
}

#[test]
fn jamo_classes() {
    assert!('\u{1100}'.is_choseong());
    assert!('\u{115e}'.is_choseong());
    assert!(!'\u{115f}'.is_choseong());
    assert!('\u{a97c}'.is_choseong());
    assert!('\u{1161}'.is_jungseong());
    assert!(!'\u{1160}'.is_jungseong());
    assert!('\u{d7c6}'.is_jungseong());
    assert!('\u{11a8}'.is_jongseong());
    assert!('\u{d7fb}'.is_jongseong());
    assert!(!'a'.is_jongseong());
    assert!('a'.is_conjoinable());
    let mut c = '\u{1100}';
    assert_eq!(c.choseong_to_jongseong(), '\u{1100}');
    assert_eq!(c.jongseong_to_choseong(), '\u{1100}');
}

#[test]
fn hangul_method_answers_nothing_yet() {
    let mut m = HangulMethod::new(plain("hangul"));
    assert_eq!(m.on_key_press(24), BentenResponse::Undefined);
    assert_eq!(m.on_key_release(24), BentenResponse::Undefined);
    assert_eq!(*m.buffer(), HangulBuffer { choseong: None, jungseong: None, jongseong: None });
    assert!(m.combination.is_empty());
    assert!(m.modifiers_pressed.is_empty());
}
