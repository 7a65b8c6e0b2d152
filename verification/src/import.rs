//! Importing parsed records into a sheet: after the ownership check, every
//! record is inserted in order, and each comes back with the id the
//! database gave it.

use vstd::prelude::*;
use crate::calendar::date_text_of;
use crate::model::{ParsedImportRecord, Record};
use crate::store::DbError;

verus! {

/// The insertion of one imported record that the database must perform.
pub struct InsertRecord {
    pub sheet_id: i64,
    pub description: String,
    /// The date as the database stores it.
    pub date_text: String,
    pub value: i64,
}

/// The record that an imported record becomes once the database gave it an id.
pub open spec fn imported_record(input: ParsedImportRecord, id: i64) -> Record {
    Record { id, description: input.description, date: input.date, value: input.value }
}

/// An imported record is its input unchanged, with the id the database
/// gave it: same description, same date, same value.
pub proof fn lemma_imported_record_keeps_input(input: ParsedImportRecord, id: i64)
    ensures
        imported_record(input, id).id == id,
        imported_record(input, id).description == input.description,
        imported_record(input, id).date == input.date,
        imported_record(input, id).value == input.value,
{
}

/// How far an import has come.
pub struct ImportProgress {
    pub sheet_id: i64,
    /// The records to import, in order.
    pub inputs: Seq<ParsedImportRecord>,
    /// The records imported so far, in the same order.
    pub imported: Seq<Record>,
}

impl ImportProgress {
    /// Every record imported so far is its input with the id that the
    /// database gave it, and no more records are imported than there are inputs.
    pub open spec fn wf(self) -> bool {
        &&& self.imported.len() <= self.inputs.len()
        &&& forall|i: int|
            0 <= i < self.imported.len() ==> #[trigger] self.imported[i] == imported_record(
                self.inputs[i],
                self.imported[i].id,
            )
    }
}

/// An import of records into one sheet, inside one transaction.
pub struct ImportPlan {
    sheet_id: i64,
    inputs: Vec<ParsedImportRecord>,
    imported: Vec<Record>,
}

impl View for ImportPlan {
    type V = ImportProgress;

    closed spec fn view(&self) -> ImportProgress {
        ImportProgress { sheet_id: self.sheet_id, inputs: self.inputs@, imported: self.imported@ }
    }
}

impl ImportPlan {
    /// Starts the import of records into a sheet once the database said
    /// whether the user owns the sheet. A sheet the user does not own is
    /// refused with `NoRows`, before anything is inserted.
    pub fn start(sheet_id: i64, inputs: Vec<ParsedImportRecord>, owns_sheet: bool) -> (plan: Result<ImportPlan, DbError>)
        ensures
            !owns_sheet ==> (plan matches Err(e) && e == DbError::NoRows),
            owns_sheet ==> (plan matches Ok(p) && p@ == (ImportProgress {
                sheet_id,
                inputs: inputs@,
                imported: Seq::empty(),
            }) && p@.wf()),
    {
        if !owns_sheet {
            return Err(DbError::NoRows);
        }
        Ok(ImportPlan { sheet_id, inputs, imported: Vec::new() })
    }

    /// The next insertion the database must perform, or `None` once every
    /// record is inserted and the transaction can be committed.
    pub fn next_insert(&self) -> (insert: Option<InsertRecord>)
        requires
            self@.wf(),
        ensures
            self@.imported.len() == self@.inputs.len() ==> insert is None,
            self@.imported.len() < self@.inputs.len() ==> (insert matches Some(ins) && {
                let input = self@.inputs[self@.imported.len() as int];
                &&& ins.sheet_id == self@.sheet_id
                &&& ins.description == input.description
                &&& ins.date_text@ == date_text_of(
                    input.date.year_of() as int,
                    input.date.month_of() as int,
                    input.date.day_of() as int,
                )
                &&& ins.value == input.value
            }),
    {
        let k: usize = self.imported.len();
        if k >= self.inputs.len() {
            return None;
        }
        let input = &self.inputs[k];
        Some(
            InsertRecord {
                sheet_id: self.sheet_id,
                description: input.description.clone(),
                date_text: input.date.text(),
                value: input.value,
            },
        )
    }

    /// Takes in the id that the database gave to the record just inserted.
    pub fn inserted(&mut self, id: i64)
        requires
            old(self)@.wf(),
            old(self)@.imported.len() < old(self)@.inputs.len(),
        ensures
            final(self)@ == (ImportProgress {
                imported: old(self)@.imported.push(
                    imported_record(old(self)@.inputs[old(self)@.imported.len() as int], id),
                ),
                ..old(self)@
            }),
            final(self)@.wf(),
            final(self)@.imported.len() == old(self)@.imported.len() + 1,
            final(self)@.imported.last().id == id,
            final(self)@.imported.last().description == old(self)@.inputs[old(self)@.imported.len() as int].description,
            final(self)@.imported.last().date == old(self)@.inputs[old(self)@.imported.len() as int].date,
            final(self)@.imported.last().value == old(self)@.inputs[old(self)@.imported.len() as int].value,
    {
        let k: usize = self.imported.len();
        let input = &self.inputs[k];
        let record = Record {
            id,
            description: input.description.clone(),
            date: input.date,
            value: input.value,
        };
        self.imported.push(record);
    }

    /// The imported records, once every record is inserted: each input, in
    /// order, with the id that the database gave it.
    pub fn finish(self) -> (records: Vec<Record>)
        requires
            self@.wf(),
            self@.imported.len() == self@.inputs.len(),
        ensures
            records@ == self@.imported,
            records@.len() == self@.inputs.len(),
            forall|i: int|
                0 <= i < records@.len() ==> #[trigger] records@[i] == imported_record(
                    self@.inputs[i],
                    records@[i].id,
                ),
            forall|i: int|
                0 <= i < records@.len() ==> (#[trigger] records@[i]).description
                    == self@.inputs[i].description && records@[i].date == self@.inputs[i].date
                    && records@[i].value == self@.inputs[i].value,
    {
        self.imported
    }
}

} // verus!
