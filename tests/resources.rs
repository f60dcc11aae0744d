use screeps_symbols::resource::ResourceType;
use screeps_symbols::store::Store;

#[test]
fn resource_names_match_host() {
    assert_eq!(ResourceType::Score.name(), "score");
    assert_eq!(ResourceType::SymbolAleph.name(), "symbol_aleph");
    assert_eq!(ResourceType::SymbolLamedh.name(), "symbol_lamedh");
    assert_eq!(ResourceType::SymbolTaw.name(), "symbol_taw");
}

#[test]
fn every_name_parses_back() {
    let all = ResourceType::all();
    assert_eq!(all.len(), 23);
    for t in all {
        assert_eq!(ResourceType::from_name(t.name()), Some(t));
    }
}

#[test]
fn unknown_names_do_not_parse() {
    assert_eq!(ResourceType::from_name(""), None);
    assert_eq!(ResourceType::from_name("energy"), None);
    assert_eq!(ResourceType::from_name("symbol_"), None);
    assert_eq!(ResourceType::from_name("Score"), None);
    assert_eq!(ResourceType::from_name("symbol_tawx"), None);
    assert_eq!(ResourceType::from_name("symbol_ta"), None);
    assert_eq!(ResourceType::from_name("sćore"), None);
}

#[test]
fn similar_names_are_told_apart() {
    assert_eq!(ResourceType::from_name("symbol_teth"), Some(ResourceType::SymbolTeth));
    assert_eq!(ResourceType::from_name("symbol_tsade"), Some(ResourceType::SymbolTsade));
    assert_eq!(ResourceType::from_name("symbol_he"), Some(ResourceType::SymbolHe));
    assert_eq!(ResourceType::from_name("symbol_heth"), Some(ResourceType::SymbolHeth));
}

#[test]
fn empty_store_holds_nothing() {
    let store = Store::new();
    assert_eq!(store.get_used_capacity(ResourceType::Score), 0);
    assert_eq!(store.get_used_capacity(ResourceType::SymbolAleph), 0);
}

#[test]
fn store_reports_amounts_set() {
    let mut store = Store::new();
    store.set_amount(ResourceType::SymbolBeth, 250);
    store.set_amount(ResourceType::Score, 7);
    assert_eq!(store.get_used_capacity(ResourceType::SymbolBeth), 250);
    assert_eq!(store.get_used_capacity(ResourceType::Score), 7);
    assert_eq!(store.get_used_capacity(ResourceType::SymbolGimmel), 0);
}

#[test]
fn store_later_amount_replaces_earlier() {
    let mut store = Store::new();
    store.set_amount(ResourceType::SymbolBeth, 250);
    store.set_amount(ResourceType::Score, 7);
    store.set_amount(ResourceType::SymbolBeth, 3);
    assert_eq!(store.get_used_capacity(ResourceType::SymbolBeth), 3);
    assert_eq!(store.get_used_capacity(ResourceType::Score), 7);
    store.set_amount(ResourceType::SymbolBeth, 0);
    assert_eq!(store.get_used_capacity(ResourceType::SymbolBeth), 0);
}

#[test]
fn store_holds_the_largest_amount() {
    let mut store = Store::new();
    store.set_amount(ResourceType::SymbolKaph, u32::MAX);
    assert_eq!(store.get_used_capacity(ResourceType::SymbolKaph), u32::MAX);
}
