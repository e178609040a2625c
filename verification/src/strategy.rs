//! The built-in bypass strategies offered to the user.
use vstd::prelude::*;

verus! {

/// A bypass strategy: its id, the label shown for it, and what it is.
#[derive(Debug)]
pub struct ZapretStrategy {
    pub id: String,
    pub label: String,
    pub description: String,
}

impl View for ZapretStrategy {
    type V = (Seq<char>, Seq<char>, Seq<char>);

    open spec fn view(&self) -> (Seq<char>, Seq<char>, Seq<char>) {
        (self.id@, self.label@, self.description@)
    }
}

/// The built-in strategies, in the order in which they are offered.
pub open spec fn strategy_table() -> Seq<(Seq<char>, Seq<char>, Seq<char>)> {
    seq![
        ("default"@, "Default"@, "Основная стратегия general.bat"@),
        ("ALT"@, "ALT"@, "Альтернативная стратегия general (ALT).bat"@),
        ("ALT2"@, "ALT2"@, "Альтернативная стратегия general (ALT2).bat"@),
        ("ALT3"@, "ALT3"@, "Альтернативная стратегия general (ALT3).bat"@),
        ("ALT4"@, "ALT4"@, "Альтернативная стратегия general (ALT4).bat"@),
        ("ALT5"@, "ALT5"@, "Альтернативная стратегия general (ALT5).bat"@),
        ("ALT6"@, "ALT6"@, "Альтернативная стратегия general (ALT6).bat"@),
        ("ALT7"@, "ALT7"@, "Альтернативная стратегия general (ALT7).bat"@),
        ("ALT8"@, "ALT8"@, "Альтернативная стратегия general (ALT8).bat"@),
        ("ALT9"@, "ALT9"@, "Альтернативная стратегия general (ALT9).bat"@),
    ]
}

/// The views of a list of strategies.
pub open spec fn strategy_views(v: Seq<ZapretStrategy>) -> Seq<(Seq<char>, Seq<char>, Seq<char>)> {
    v.map_values(|s: ZapretStrategy| s@)
}

fn strategy(id: &str, label: &str, description: &str) -> (s: ZapretStrategy)
    ensures
        s@ == (id@, label@, description@),
{
    ZapretStrategy {
        id: String::from_str(id),
        label: String::from_str(label),
        description: String::from_str(description),
    }
}

/// The built-in strategies: `default`, then `ALT`, `ALT2`, ..., `ALT9`.
pub fn built_in_strategies() -> (strategies: Vec<ZapretStrategy>)
    ensures
        strategy_views(strategies@) == strategy_table(),
{
    let mut v: Vec<ZapretStrategy> = Vec::new();
    v.push(strategy("default", "Default", "Основная стратегия general.bat"));
    v.push(strategy("ALT", "ALT", "Альтернативная стратегия general (ALT).bat"));
    v.push(strategy("ALT2", "ALT2", "Альтернативная стратегия general (ALT2).bat"));
    v.push(strategy("ALT3", "ALT3", "Альтернативная стратегия general (ALT3).bat"));
    v.push(strategy("ALT4", "ALT4", "Альтернативная стратегия general (ALT4).bat"));
    v.push(strategy("ALT5", "ALT5", "Альтернативная стратегия general (ALT5).bat"));
    v.push(strategy("ALT6", "ALT6", "Альтернативная стратегия general (ALT6).bat"));
    v.push(strategy("ALT7", "ALT7", "Альтернативная стратегия general (ALT7).bat"));
    v.push(strategy("ALT8", "ALT8", "Альтернативная стратегия general (ALT8).bat"));
    v.push(strategy("ALT9", "ALT9", "Альтернативная стратегия general (ALT9).bat"));
    assert(strategy_views(v@) =~= strategy_table());
    v
}

/// The length and last character of the id at each position of the table,
/// which together tell the ids apart.
spec fn id_signature(i: int) -> (int, char) {
    if i == 0 {
        (7, 't')
    } else if i == 1 {
        (3, 'T')
    } else if i == 2 {
        (4, '2')
    } else if i == 3 {
        (4, '3')
    } else if i == 4 {
        (4, '4')
    } else if i == 5 {
        (4, '5')
    } else if i == 6 {
        (4, '6')
    } else if i == 7 {
        (4, '7')
    } else if i == 8 {
        (4, '8')
    } else {
        (4, '9')
    }
}

proof fn lemma_id_signature(i: int)
    requires
        0 <= i < 10,
    ensures
        strategy_table()[i].0.len() == id_signature(i).0,
        strategy_table()[i].0.last() == id_signature(i).1,
{
    if i == 0 {
        reveal_strlit("default");
    } else if i == 1 {
        reveal_strlit("ALT");
    } else if i == 2 {
        reveal_strlit("ALT2");
    } else if i == 3 {
        reveal_strlit("ALT3");
    } else if i == 4 {
        reveal_strlit("ALT4");
    } else if i == 5 {
        reveal_strlit("ALT5");
    } else if i == 6 {
        reveal_strlit("ALT6");
    } else if i == 7 {
        reveal_strlit("ALT7");
    } else if i == 8 {
        reveal_strlit("ALT8");
    } else {
        reveal_strlit("ALT9");
    }
}

/// Law: there are ten built-in strategies, `default` comes first, and no two
/// share an id, so an id picks out one strategy.
pub proof fn law_strategy_ids_distinct()
    ensures
        strategy_table().len() == 10,
        strategy_table()[0].0 == "default"@,
        forall|i: int, j: int|
            0 <= i < j < strategy_table().len() ==> #[trigger] strategy_table()[i].0
                != #[trigger] strategy_table()[j].0,
{
    assert forall|i: int, j: int|
        0 <= i < j < strategy_table().len() implies #[trigger] strategy_table()[i].0
        != #[trigger] strategy_table()[j].0 by {
        lemma_id_signature(i);
        lemma_id_signature(j);
        assert(id_signature(i) != id_signature(j));
    }
}

} // verus!
