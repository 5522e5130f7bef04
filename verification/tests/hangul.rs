use benten::hangul::Hangul;

#[test]
fn test_output() {
    let x: char = 'ᄀ';
    assert_eq!(x.is_choseong(), true);
}
