//! The data the server hands out: records, sheets, collections of sheets,
//! and the responses built from them.

use vstd::prelude::*;
use crate::calendar::Date;

verus! {

/// One money flow of a sheet.
pub struct Record {
    /// The database id of the record.
    pub id: i64,
    /// What the flow was.
    pub description: String,
    /// The day of the flow.
    pub date: Date,
    /// The amount, in hundredths of the currency unit.
    pub value: i64,
}

/// A record read from an import, before the database gave it an id.
pub struct ParsedImportRecord {
    /// What the flow was.
    pub description: String,
    /// The day of the flow.
    pub date: Date,
    /// The amount, in hundredths of the currency unit.
    pub value: i64,
}

/// A named sheet of records with the fraction of income it is meant for.
pub struct Sheet {
    /// The database id of the sheet.
    pub id: i64,
    /// The name of the sheet.
    pub name: String,
    /// The percentage of income that the sheet is meant for.
    pub fraction: i64,
    /// The records of the sheet, in the order of their ids.
    pub records: Vec<Record>,
}

/// What a sheet holds, as values.
pub struct SheetView {
    pub id: i64,
    pub name: Seq<char>,
    pub fraction: i64,
    pub records: Seq<Record>,
}

impl View for Sheet {
    type V = SheetView;

    open spec fn view(&self) -> SheetView {
        SheetView { id: self.id, name: self.name@, fraction: self.fraction, records: self.records@ }
    }
}

impl Sheet {
    /// A sheet with no records yet.
    pub fn new(id: i64, name: &str, fraction: i64) -> (sheet: Sheet)
        ensures
            sheet@ == (SheetView { id, name: name@, fraction, records: Seq::empty() }),
    {
        Sheet { id, name: name.to_owned(), fraction, records: Vec::new() }
    }

    /// The database id of the sheet.
    pub fn id(&self) -> (id: i64)
        ensures
            id == self.id,
    {
        self.id
    }
}

/// A named collection of sheets owned by one user.
pub struct SheetCollection {
    /// The database id of the collection.
    pub id: i64,
    /// The name of the collection.
    pub name: String,
    /// The sheets of the collection, in the order of their ids.
    pub sheets: Vec<Sheet>,
}

/// What a collection holds, as values.
pub struct CollectionView {
    pub id: i64,
    pub name: Seq<char>,
    pub sheets: Seq<SheetView>,
}

/// The values of a sequence of sheets.
pub open spec fn sheet_views(sheets: Seq<Sheet>) -> Seq<SheetView> {
    sheets.map_values(|s: Sheet| s@)
}

impl View for SheetCollection {
    type V = CollectionView;

    open spec fn view(&self) -> CollectionView {
        CollectionView { id: self.id, name: self.name@, sheets: sheet_views(self.sheets@) }
    }
}

impl SheetCollection {
    /// A collection with no sheets yet.
    pub fn new(id: i64, name: &str) -> (collection: SheetCollection)
        ensures
            collection@ == (CollectionView { id, name: name@, sheets: Seq::empty() }),
    {
        let collection = SheetCollection { id, name: name.to_owned(), sheets: Vec::new() };
        assert(sheet_views(collection.sheets@) =~= Seq::empty());
        collection
    }

    /// The database id of the collection.
    pub fn id(&self) -> (id: i64)
        ensures
            id == self.id,
    {
        self.id
    }
}

/// The values of a sequence of collections.
pub open spec fn collection_views(collections: Seq<SheetCollection>) -> Seq<CollectionView> {
    collections.map_values(|c: SheetCollection| c@)
}

/// Everything a user sees on start: all collections with their sheets and
/// records.
pub struct BootstrapResponse {
    pub collections: Vec<SheetCollection>,
}

/// What a successful login answers.
pub struct LoginResponse {
    pub user_id: i64,
    pub username: String,
    pub session_token: String,
    pub bootstrap: BootstrapResponse,
}

} // verus!
