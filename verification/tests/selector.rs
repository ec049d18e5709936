use blocker::units::{find_name_collision, select_units, Item, ItemKind, Unit};

fn item(kind: ItemKind, id: u64, name: &str) -> Item {
    Item { kind, id, name: name.to_string() }
}

fn unit(id: u64, name: &str) -> Unit {
    Unit { id, name: name.to_string() }
}

#[test]
fn selects_functions_in_declaration_order() {
    let items = vec![
        item(ItemKind::Function, 1, "f"),
        item(ItemKind::Struct, 2, "S"),
        item(ItemKind::Function, 3, "g"),
    ];
    let units = select_units(&items);
    let pairs: Vec<(u64, &str)> = units.iter().map(|u| (u.id, u.name.as_str())).collect();
    assert_eq!(pairs, vec![(1, "f"), (3, "g")]);
}

#[test]
fn empty_input_yields_empty_output() {
    let units = select_units(&vec![]);
    assert!(units.is_empty());
}

#[test]
fn non_functions_are_all_dropped() {
    let items = vec![
        item(ItemKind::Struct, 1, "a"),
        item(ItemKind::Enum, 2, "b"),
        item(ItemKind::Trait, 3, "c"),
        item(ItemKind::Impl, 4, "d"),
        item(ItemKind::Module, 5, "e"),
        item(ItemKind::Static, 6, "f"),
        item(ItemKind::Const, 7, "g"),
    ];
    assert!(select_units(&items).is_empty());
}

#[test]
fn every_function_yields_one_unit() {
    let items = vec![
        item(ItemKind::Function, 1, "same"),
        item(ItemKind::Function, 2, "same"),
    ];
    let units = select_units(&items);
    assert_eq!(units.len(), 2);
    assert_eq!(units[0].id, 1);
    assert_eq!(units[1].id, 2);
}

#[test]
fn distinct_names_have_no_collision() {
    let units = vec![unit(1, "f"), unit(2, "g"), unit(3, "h")];
    assert_eq!(find_name_collision(&units), None);
}

#[test]
fn shared_name_is_reported_with_first_pair() {
    let units = vec![unit(1, "f"), unit(2, "g"), unit(3, "f"), unit(4, "g")];
    assert_eq!(find_name_collision(&units), Some((0, 2)));
}

#[test]
fn empty_unit_list_has_no_collision() {
    assert_eq!(find_name_collision(&vec![]), None);
}

#[test]
fn sink_name_appends_dot_extension() {
    assert_eq!(unit(1, "f").sink_name(), "f.dot");
    assert_eq!(unit(2, "").sink_name(), ".dot");
}
