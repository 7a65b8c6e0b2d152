use emm_server::{
    default_items, BootstrapBuilder, BootstrapStep, Date, DbError, DefaultItem, DefaultsPlan,
    DefaultsStep, ImportPlan, ParsedImportRecord, Record, Sheet, SheetCollection,
};

fn parsed(description: &str, y: i32, m: u32, d: u32, value: i64) -> ParsedImportRecord {
    ParsedImportRecord {
        description: description.to_string(),
        date: Date::from_ymd(y, m, d).unwrap(),
        value,
    }
}

#[test]
fn import_refuses_foreign_sheets() {
    assert!(matches!(
        ImportPlan::start(4, vec![parsed("a", 2024, 1, 1, 1)], false),
        Err(DbError::NoRows)
    ));
}

#[test]
fn import_inserts_in_order_and_keeps_ids() {
    let inputs = vec![parsed("salary", 2024, 1, 31, 500000), parsed("bread", 2024, 2, 1, -450)];
    let mut plan = ImportPlan::start(4, inputs, true).ok().unwrap();
    let first = plan.next_insert().unwrap();
    assert_eq!(first.sheet_id, 4);
    assert_eq!(first.description, "salary");
    assert_eq!(first.date_text, "2024-01-31");
    assert_eq!(first.value, 500000);
    plan.inserted(101);
    let second = plan.next_insert().unwrap();
    assert_eq!(second.description, "bread");
    assert_eq!(second.date_text, "2024-02-01");
    plan.inserted(102);
    assert!(plan.next_insert().is_none());
    let records = plan.finish();
    assert_eq!(records.len(), 2);
    assert_eq!(records[0].id, 101);
    assert_eq!(records[0].description, "salary");
    assert_eq!(records[1].id, 102);
    assert_eq!(records[1].value, -450);
    assert_eq!(records[1].date, Date::from_ymd(2024, 2, 1).unwrap());
}

#[test]
fn empty_import_commits_at_once() {
    let plan = ImportPlan::start(4, Vec::new(), true).ok().unwrap();
    assert!(plan.next_insert().is_none());
    assert!(plan.finish().is_empty());
}

fn record(id: i64) -> Record {
    Record { id, description: format!("r{}", id), date: Date::from_ymd(2024, 5, 5).unwrap(), value: id }
}

#[test]
fn bootstrap_fills_collections_sheets_and_records() {
    let collections = vec![
        SheetCollection::new(1, "Main"),
        SheetCollection::new(2, "Empty"),
        SheetCollection::new(3, "Planning"),
    ];
    let mut builder = BootstrapBuilder::new(42, collections);
    assert_eq!(builder.next_step(), BootstrapStep::FetchSheets { collection_id: 1 });
    builder.sheets_loaded(vec![Sheet::new(10, "Incomes", 100), Sheet::new(11, "Growth", 25)]);
    assert_eq!(builder.next_step(), BootstrapStep::FetchRecords { user_id: 42, sheet_id: 10 });
    builder.records_loaded(vec![record(100), record(101)]);
    assert_eq!(builder.next_step(), BootstrapStep::FetchRecords { user_id: 42, sheet_id: 11 });
    builder.records_loaded(Vec::new());
    assert_eq!(builder.next_step(), BootstrapStep::FetchSheets { collection_id: 2 });
    builder.sheets_loaded(Vec::new());
    assert_eq!(builder.next_step(), BootstrapStep::FetchSheets { collection_id: 3 });
    builder.sheets_loaded(vec![Sheet::new(30, "Expenses", 100)]);
    assert_eq!(builder.next_step(), BootstrapStep::FetchRecords { user_id: 42, sheet_id: 30 });
    builder.records_loaded(vec![record(300)]);
    assert_eq!(builder.next_step(), BootstrapStep::Finished);
    let bootstrap = builder.finish();
    let c = &bootstrap.collections;
    assert_eq!(c.len(), 3);
    assert_eq!((c[0].id, c[0].name.as_str()), (1, "Main"));
    assert_eq!(c[0].sheets.len(), 2);
    assert_eq!(c[0].sheets[0].id, 10);
    assert_eq!(c[0].sheets[0].records.len(), 2);
    assert_eq!(c[0].sheets[0].records[1].id, 101);
    assert_eq!(c[0].sheets[1].name, "Growth");
    assert!(c[0].sheets[1].records.is_empty());
    assert!(c[1].sheets.is_empty());
    assert_eq!(c[2].sheets[0].fraction, 100);
    assert_eq!(c[2].sheets[0].records[0].description, "r300");
}

#[test]
fn bootstrap_of_no_collections_is_empty() {
    let builder = BootstrapBuilder::new(1, Vec::new());
    assert_eq!(builder.next_step(), BootstrapStep::Finished);
    assert!(builder.finish().collections.is_empty());
}

#[test]
fn default_layout_entries() {
    let items = default_items();
    assert_eq!(items.len(), 9);
    let names: Vec<&str> = items
        .iter()
        .map(|i| match i {
            DefaultItem::Collection { name } => *name,
            DefaultItem::Sheet { name, .. } => *name,
        })
        .collect();
    assert_eq!(
        names,
        vec!["Main", "Incomes", "Essentials", "Stability", "Growth", "Prizes", "Planning", "Incomes", "Expenses"]
    );
    let shares: i64 = items[2..6]
        .iter()
        .map(|i| match i {
            DefaultItem::Sheet { fraction, .. } => *fraction,
            DefaultItem::Collection { .. } => 0,
        })
        .sum();
    assert_eq!(shares, 100);
}

#[test]
fn defaults_plan_puts_sheets_in_their_collection() {
    let mut plan = DefaultsPlan::new(8);
    let mut seen = Vec::new();
    let mut next_id = 50;
    loop {
        match plan.next_step() {
            DefaultsStep::EnsureCollection { user_id, name } => {
                assert_eq!(user_id, 8);
                seen.push(format!("C {} -> {}", name, next_id));
            },
            DefaultsStep::EnsureSheet { collection_id, name, fraction } => {
                seen.push(format!("S {} {} in {}", name, fraction, collection_id));
            },
            DefaultsStep::Done => break,
        }
        plan.ensured(next_id);
        next_id += 1;
    }
    assert_eq!(
        seen,
        vec![
            "C Main -> 50",
            "S Incomes 100 in 50",
            "S Essentials 50 in 50",
            "S Stability 15 in 50",
            "S Growth 25 in 50",
            "S Prizes 10 in 50",
            "C Planning -> 56",
            "S Incomes 100 in 56",
            "S Expenses 100 in 56",
        ]
    );
}
