use benten::engine::{BentenConfig, BentenEngine};
use benten::layout::{Layout, Level, Modifier, ModifierKind};
use benten::layout_method::LayoutMethod;
use benten::method::Method;
use benten::mode::{Mode, ModeHouse};
use benten::table::{Entry, Table, TableMethod};
use benten::{BentenResponse, Function};
use std::collections::HashMap;

fn row(cells: &[Option<&str>]) -> Vec<Option<String>> {
    cells.iter().map(|c| c.map(|s| s.to_string())).collect()
}

/// A kana layout: shift is key 50, the third-level key is 108, the lock
/// that selects katakana is 66.
fn kana_layout() -> Layout {
    let modifiers = vec![
        Modifier { kind: ModifierKind::Hold, key_codes: vec![50] },
        Modifier { kind: ModifierKind::Hold, key_codes: vec![108] },
        Modifier { kind: ModifierKind::Lock, key_codes: vec![66] },
    ];
    let levels = vec![
        Level { level: 2, modifiers: vec![0] },
        Level { level: 3, modifiers: vec![1] },
        Level { level: 4, modifiers: vec![0, 1] },
        Level { level: 5, modifiers: vec![2] },
        Level { level: 6, modifiers: vec![2, 0] },
    ];
    let mut keys = HashMap::new();
    keys.insert(21, row(&[Some("み"), Some("="), Some("+"), Some("゠"), Some("ミ")]));
    keys.insert(25, row(&[Some("く"), Some("〼"), Some("〒"), None, Some("ク")]));
    keys.insert(45, row(&[Some("い")]));
    Layout::new("kana".to_string(), modifiers, levels, keys, HashMap::new(), HashMap::new())
        .unwrap()
}

/// The layout of the cangjie method. Key 65 commits; with `commit_leaves`
/// it also goes back to kana.
fn cangjie_layout(commit_leaves: bool) -> Layout {
    let mut keys = HashMap::new();
    keys.insert(18, row(&[Some("a")]));
    keys.insert(24, row(&[Some("q")]));
    let mut specs = HashMap::new();
    specs.insert(65, row(&[Some("COMMIT")]));
    specs.insert(22, row(&[Some("BACKSPACE")]));
    specs.insert(23, row(&[Some("NEXT")]));
    specs.insert(19, row(&[Some("PREV")]));
    let mut bindings = HashMap::new();
    bindings.insert(47, vec![Some(Function::ChangeMethodTo("cangjie5".to_string()))]);
    bindings.insert(22, vec![Some(Function::IfEmptyChangeMethodTo("kana".to_string()))]);
    if commit_leaves {
        bindings.insert(65, vec![Some(Function::ChangeMethodTo("kana".to_string()))]);
    }
    Layout::new("cangjie5".to_string(), Vec::new(), Vec::new(), keys, specs, bindings).unwrap()
}

fn cangjie_table() -> Table {
    let lines = [('日', "a"), ('曰', "a"), ('手', "q"), ('抙', "qq"), ('掱', "qqq")];
    Table {
        id: "cangjie5".to_string(),
        entries: lines
            .iter()
            .map(|(c, s)| Entry { character: *c, sequence: s.to_string() })
            .collect(),
    }
}

/// The japanese mode: kana and cangjie5, with the method at `current` active.
fn japanese(current: usize, commit_leaves: bool) -> BentenEngine {
    let methods = vec![
        Method::Layout(LayoutMethod::new(kana_layout())),
        Method::Table(TableMethod::new(cangjie_layout(commit_leaves), cangjie_table())),
    ];
    let mode = Mode { methods, bindings: Vec::new(), current_method: current };
    let dispatch = Layout::new(
        "mode".to_string(),
        Vec::new(),
        Vec::new(),
        HashMap::new(),
        HashMap::new(),
        HashMap::new(),
    )
    .unwrap();
    let house = ModeHouse::new("japanese".to_string(), mode, LayoutMethod::new(dispatch)).unwrap();
    BentenEngine::new(BentenConfig { id: "japanese".to_string(), dir: String::new() }, house)
}

fn test_input(mut engine: BentenEngine, keys: &[(u16, BentenResponse)]) {
    for (key, response) in keys.iter() {
        let rep = engine.on_key_press(*key);
        assert_eq!(&rep, response);
    }
}

#[test]
fn kana() {
    test_input(
        japanese(0, true),
        &[
            (45, BentenResponse::Commit("い".to_string())),
            (25, BentenResponse::Commit("く".to_string())),
        ],
    )
}

#[test]
fn kana_level_1() {
    test_input(
        japanese(0, true),
        &[
            (21, BentenResponse::Commit("み".to_string())),
            (25, BentenResponse::Commit("く".to_string())),
        ],
    )
}

#[test]
fn kana_level_2() {
    test_input(
        japanese(0, true),
        &[
            (50, BentenResponse::Undefined),
            (21, BentenResponse::Commit("=".to_string())),
            (25, BentenResponse::Commit("〼".to_string())),
        ],
    )
}

#[test]
fn kana_level_3() {
    test_input(
        japanese(0, true),
        &[
            (108, BentenResponse::Undefined),
            (21, BentenResponse::Commit("+".to_string())),
            (25, BentenResponse::Commit("〒".to_string())),
        ],
    )
}

#[test]
fn kana_level_4() {
    test_input(
        japanese(0, true),
        &[
            (50, BentenResponse::Undefined),
            (108, BentenResponse::Undefined),
            (21, BentenResponse::Commit("゠".to_string())),
            (25, BentenResponse::Undefined),
        ],
    )
}

#[test]
fn kana_level_5() {
    test_input(
        japanese(0, true),
        &[
            (66, BentenResponse::Undefined),
            (21, BentenResponse::Commit("ミ".to_string())),
            (25, BentenResponse::Commit("ク".to_string())),
        ],
    )
}

#[test]
fn kana_level_6() {
    test_input(
        japanese(0, true),
        &[
            (66, BentenResponse::Undefined),
            (50, BentenResponse::Undefined),
            (21, BentenResponse::Undefined),
            (25, BentenResponse::Undefined),
        ],
    )
}

#[test]
fn cangjie_commit_key() {
    test_input(
        japanese(1, true),
        &[
            (47, BentenResponse::Function(Function::ChangeMethodTo("cangjie5".to_string()))),
            (18, BentenResponse::Suggest(String::from("日"))),
            (65, BentenResponse::Commit(String::from("日"))),
            // the commit went back to kana
            (25, BentenResponse::Commit(String::from("く"))),
            (65, BentenResponse::Undefined),
        ],
    )
}

#[test]
fn cangjie_next_prev_key() {
    test_input(
        japanese(1, true),
        &[
            (47, BentenResponse::Function(Function::ChangeMethodTo("cangjie5".to_string()))),
            (18, BentenResponse::Suggest(String::from("日"))),
            (23, BentenResponse::Suggest(String::from("曰"))),
            (65, BentenResponse::Commit(String::from("曰"))),
        ],
    )
}

#[test]
fn cangjie_backspace_key() {
    test_input(
        japanese(1, false),
        &[
            (47, BentenResponse::Function(Function::ChangeMethodTo("cangjie5".to_string()))),
            (24, BentenResponse::Suggest(String::from("手"))),
            (24, BentenResponse::Suggest(String::from("抙"))),
            (22, BentenResponse::Suggest(String::from("手"))),
            (65, BentenResponse::Commit(String::from("手"))),
            (47, BentenResponse::Function(Function::ChangeMethodTo("cangjie5".to_string()))),
            (24, BentenResponse::Suggest(String::from("手"))),
            (24, BentenResponse::Suggest(String::from("抙"))),
            (22, BentenResponse::Suggest(String::from("手"))),
            // a backspace that empties the sequence goes back to kana
            (22, BentenResponse::Function(Function::ChangeMethodTo("kana".to_string()))),
        ],
    )
}

#[test]
fn cangjie_on_no_result() {
    test_input(
        japanese(1, true),
        &[
            (47, BentenResponse::Function(Function::ChangeMethodTo("cangjie5".to_string()))),
            (24, BentenResponse::Suggest(String::from("手"))),
            (24, BentenResponse::Suggest(String::from("抙"))),
            (24, BentenResponse::Suggest(String::from("掱"))),
            (24, BentenResponse::Empty),
            // after a failed sequence the next key starts a new one
            (24, BentenResponse::Suggest(String::from("手"))),
            (24, BentenResponse::Suggest(String::from("抙"))),
            (24, BentenResponse::Suggest(String::from("掱"))),
            (65, BentenResponse::Commit(String::from("掱"))),
        ],
    )
}
