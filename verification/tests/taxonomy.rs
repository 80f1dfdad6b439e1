use prism_core::error::GratError;
use prism_core::taxonomy::loader::TaxonomyDatabase;
use prism_core::taxonomy::schema::{CategoryInfo, ErrorCategory, TaxonomyEntry, TaxonomySchema};

fn entry(category: ErrorCategory, code: u32, name: &str) -> TaxonomyEntry {
    TaxonomyEntry {
        id: format!("host.{name}"),
        category,
        code,
        name: name.to_string(),
        severity: "error".to_string(),
        summary: "s".to_string(),
        detailed_explanation: "d".to_string(),
        common_causes: vec![],
        suggested_fixes: vec![],
        related_errors: vec![],
    }
}

fn schema(entries: Vec<TaxonomyEntry>) -> TaxonomySchema {
    TaxonomySchema {
        category: CategoryInfo { name: "budget".to_string(), description: "d".to_string(), source_module: "m".to_string() },
        errors: entries,
    }
}

#[test]
fn lookup_finds_the_last_entry_for_a_key() {
    let db = TaxonomyDatabase::load_embedded(vec![
        Ok(schema(vec![entry(ErrorCategory::Budget, 1, "CpuLimitExceeded"), entry(ErrorCategory::Budget, 2, "Mem")])),
        Err(GratError::TaxonomyError("TOML parse error".to_string())),
        Ok(schema(vec![entry(ErrorCategory::Budget, 1, "Replaced"), entry(ErrorCategory::Storage, 1, "Archived")])),
    ])
    .unwrap();
    assert_eq!(db.len(), 3);
    assert!(!db.is_empty());
    assert_eq!(db.lookup(&ErrorCategory::Budget, 1).unwrap().name, "Replaced");
    assert_eq!(db.lookup(&ErrorCategory::Storage, 1).unwrap().name, "Archived");
    assert!(db.lookup(&ErrorCategory::Auth, 1).is_none());
    let budget: Vec<&str> = db.entries_for_category(&ErrorCategory::Budget).iter().map(|e| e.name.as_str()).collect();
    assert_eq!(budget, vec!["CpuLimitExceeded", "Mem", "Replaced"]);
}

#[test]
fn empty_database() {
    let db = TaxonomyDatabase::load_embedded(vec![]).unwrap();
    assert!(db.is_empty());
    assert_eq!(db.len(), 0);
}

#[test]
fn insert_then_lookup_gives_the_entry() {
    let mut db = TaxonomyDatabase::new();
    db.insert(entry(ErrorCategory::Wasm, 4, "Trap"));
    assert_eq!(db.lookup(&ErrorCategory::Wasm, 4).unwrap().name, "Trap");
    db.insert(entry(ErrorCategory::Wasm, 4, "Trap2"));
    assert_eq!(db.lookup(&ErrorCategory::Wasm, 4).unwrap().name, "Trap2");
    assert_eq!(db.len(), 1);
}

#[test]
fn every_loaded_entry_is_found_and_listed() {
    let entries = vec![
        entry(ErrorCategory::Budget, 1, "CpuLimitExceeded"),
        entry(ErrorCategory::Storage, 3, "Missing"),
        entry(ErrorCategory::Budget, 2, "Mem"),
    ];
    let db = TaxonomyDatabase::load_embedded(vec![
        Ok(schema(entries.clone())),
        Err(GratError::TaxonomyError("bad".to_string())),
    ])
    .unwrap();
    for e in &entries {
        let found = db.lookup(&e.category, e.code).expect("every loaded entry is found");
        assert_eq!(found.name, e.name);
        assert!(db.entries_for_category(&e.category).iter().any(|x| x.name == found.name && x.code == found.code));
    }
}
