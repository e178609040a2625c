use zapret_ui::strategy::built_in_strategies;

#[test]
fn built_in_strategies_are_default_then_alt_one_to_nine() {
    let s = built_in_strategies();
    assert_eq!(s.len(), 10);
    assert_eq!(s[0].id, "default");
    assert_eq!(s[0].label, "Default");
    assert_eq!(s[0].description, "Основная стратегия general.bat");
    assert_eq!(s[1].id, "ALT");
    assert_eq!(s[1].label, "ALT");
    assert_eq!(s[1].description, "Альтернативная стратегия general (ALT).bat");
    for n in 2..=9 {
        let id = format!("ALT{}", n);
        assert_eq!(s[n].id, id);
        assert_eq!(s[n].label, id);
        assert_eq!(
            s[n].description,
            format!("Альтернативная стратегия general ({}).bat", id)
        );
    }
}

#[test]
fn strategy_ids_are_distinct() {
    let s = built_in_strategies();
    for i in 0..s.len() {
        for j in (i + 1)..s.len() {
            assert_ne!(s[i].id, s[j].id);
        }
    }
}
