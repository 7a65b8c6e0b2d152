//! Building the bootstrap of a user: every collection with its sheets, and
//! every sheet with its records. The database is asked step by step; the
//! builder says which question comes next and takes in each answer.

use vstd::prelude::*;
use crate::model::{
    collection_views, sheet_views, BootstrapResponse, CollectionView, Record, Sheet,
    SheetCollection, SheetView,
};

verus! {

/// The next question a bootstrap needs answered by the database.
#[derive(PartialEq, Eq, Structural, Clone, Copy, Debug)]
pub enum BootstrapStep {
    /// The sheets of a collection, in the order of their ids.
    FetchSheets { collection_id: i64 },
    /// The records of a sheet that the user owns, in the order of their ids.
    FetchRecords { user_id: i64, sheet_id: i64 },
    /// Nothing more is needed.
    Finished,
}

/// How far a bootstrap has come.
pub struct BootstrapProgress {
    /// The user the bootstrap is for.
    pub user_id: i64,
    /// Collections whose sheets and records are all in.
    pub finished: Seq<CollectionView>,
    /// Collections whose sheets have not been asked for yet.
    pub waiting: Seq<CollectionView>,
    /// The collection whose sheets are in and whose records are being asked for,
    /// holding the sheets that already have their records.
    pub current: Option<CollectionView>,
    /// The sheets of the current collection still waiting for their records.
    pub pending: Seq<SheetView>,
}

impl BootstrapProgress {
    /// A current collection exists exactly while sheets wait for records.
    pub open spec fn wf(self) -> bool {
        (self.current is Some) == (self.pending.len() > 0)
    }

    /// The question to ask next.
    pub open spec fn next_step(self) -> BootstrapStep {
        if self.current is Some && self.pending.len() > 0 {
            BootstrapStep::FetchRecords { user_id: self.user_id, sheet_id: self.pending[0].id }
        } else if self.waiting.len() > 0 {
            BootstrapStep::FetchSheets { collection_id: self.waiting[0].id }
        } else {
            BootstrapStep::Finished
        }
    }

    /// The progress once the first waiting collection has its sheets: they
    /// replace whatever sheets it had, and wait for their records.
    pub open spec fn after_sheets(self, sheets: Seq<SheetView>) -> BootstrapProgress {
        let head = CollectionView { sheets: Seq::empty(), ..self.waiting[0] };
        if sheets.len() == 0 {
            BootstrapProgress {
                finished: self.finished.push(head),
                waiting: self.waiting.drop_first(),
                ..self
            }
        } else {
            BootstrapProgress {
                waiting: self.waiting.drop_first(),
                current: Some(head),
                pending: sheets,
                ..self
            }
        }
    }

    /// The progress once the first pending sheet has its records: they
    /// replace whatever records it had, and it joins its collection.
    pub open spec fn after_records(self, records: Seq<Record>) -> BootstrapProgress {
        let collection = self.current->0;
        let filled = SheetView { records, ..self.pending[0] };
        let grown = CollectionView { sheets: collection.sheets.push(filled), ..collection };
        if self.pending.len() == 1 {
            BootstrapProgress {
                finished: self.finished.push(grown),
                current: None,
                pending: Seq::empty(),
                ..self
            }
        } else {
            BootstrapProgress { current: Some(grown), pending: self.pending.drop_first(), ..self }
        }
    }
}

/// Every question of a bootstrap is about what it is building: records are
/// asked for the bootstrap's own user and the first sheet still waiting for
/// them, sheets for the first collection still waiting for them, and the
/// bootstrap is finished only when nothing waits.
pub proof fn lemma_questions_follow_progress(progress: BootstrapProgress)
    requires
        progress.wf(),
    ensures
        progress.next_step() matches BootstrapStep::FetchRecords { user_id, sheet_id } ==> user_id
            == progress.user_id && progress.pending.len() > 0 && sheet_id == progress.pending[0].id,
        progress.next_step() matches BootstrapStep::FetchSheets { collection_id } ==> progress.pending.len()
            == 0 && progress.waiting.len() > 0 && collection_id == progress.waiting[0].id,
        progress.next_step() is Finished <==> progress.pending.len() == 0 && progress.waiting.len() == 0,
{
}

/// Taking in the sheets of the first waiting collection moves it out of the
/// waiting ones with exactly those sheets to fill, keeping its id and name:
/// straight to the finished ones when it has no sheets, else as the current
/// collection. Nothing else changes.
pub proof fn lemma_sheets_step(progress: BootstrapProgress, sheets: Seq<SheetView>)
    requires
        progress.wf(),
        progress.next_step() is FetchSheets,
    ensures
        ({
            let next = progress.after_sheets(sheets);
            let head = progress.waiting[0];
            &&& next.wf()
            &&& next.user_id == progress.user_id
            &&& next.waiting == progress.waiting.drop_first()
            &&& sheets.len() == 0 ==> {
                &&& next.current is None
                &&& next.pending.len() == 0
                &&& next.finished.len() == progress.finished.len() + 1
                &&& next.finished.take(progress.finished.len() as int) == progress.finished
                &&& next.finished.last().id == head.id
                &&& next.finished.last().name == head.name
                &&& next.finished.last().sheets.len() == 0
            }
            &&& sheets.len() > 0 ==> {
                &&& next.finished == progress.finished
                &&& next.pending == sheets
                &&& next.current matches Some(c) && c.id == head.id && c.name == head.name
                    && c.sheets.len() == 0
            }
        }),
{
    let next = progress.after_sheets(sheets);
    if sheets.len() == 0 {
        assert(next.finished.take(progress.finished.len() as int) =~= progress.finished);
    }
}

/// Taking in the records of the first pending sheet adds that sheet, with
/// its id, name and fraction and exactly those records, after the filled
/// sheets of the current collection; the collection is finished once no
/// sheet is pending. Nothing else changes.
pub proof fn lemma_records_step(progress: BootstrapProgress, records: Seq<Record>)
    requires
        progress.wf(),
        progress.next_step() is FetchRecords,
    ensures
        ({
            let next = progress.after_records(records);
            let sheet = progress.pending[0];
            let before = progress.current->0;
            let grown = if next.current is Some {
                next.current->0
            } else {
                next.finished.last()
            };
            &&& next.wf()
            &&& next.user_id == progress.user_id
            &&& next.waiting == progress.waiting
            &&& next.pending == progress.pending.drop_first()
            &&& grown.id == before.id
            &&& grown.name == before.name
            &&& grown.sheets.len() == before.sheets.len() + 1
            &&& grown.sheets.take(before.sheets.len() as int) == before.sheets
            &&& grown.sheets.last().id == sheet.id
            &&& grown.sheets.last().name == sheet.name
            &&& grown.sheets.last().fraction == sheet.fraction
            &&& grown.sheets.last().records == records
            &&& progress.pending.len() == 1 ==> next.current is None && next.finished
                == progress.finished.push(grown)
            &&& progress.pending.len() > 1 ==> next.current is Some && next.finished
                == progress.finished
        }),
{
    let before = progress.current->0;
    let filled = SheetView { records, ..progress.pending[0] };
    assert(before.sheets.push(filled).take(before.sheets.len() as int) =~= before.sheets);
    if progress.pending.len() == 1 {
        assert(progress.pending.drop_first() =~= Seq::<SheetView>::empty());
    }
}

/// A sheet with the records that the database holds for it and the user.
pub open spec fn filled_sheet(
    sheet: SheetView,
    user_id: i64,
    records_of: spec_fn(i64, i64) -> Seq<Record>,
) -> SheetView {
    SheetView { records: records_of(user_id, sheet.id), ..sheet }
}

/// A collection with the sheets that the database holds for it, each with
/// the records of the user.
pub open spec fn filled_collection(
    collection: CollectionView,
    user_id: i64,
    sheets_of: spec_fn(i64) -> Seq<SheetView>,
    records_of: spec_fn(i64, i64) -> Seq<Record>,
) -> CollectionView {
    CollectionView {
        sheets: sheets_of(collection.id).map_values(|s: SheetView| filled_sheet(s, user_id, records_of)),
        ..collection
    }
}

/// The bootstrap that comes out when every question is answered from a
/// database that holds `sheets_of(c)` as the sheets of collection `c` and
/// `records_of(u, s)` as the records of sheet `s` that user `u` sees.
pub open spec fn completed(
    progress: BootstrapProgress,
    sheets_of: spec_fn(i64) -> Seq<SheetView>,
    records_of: spec_fn(i64, i64) -> Seq<Record>,
) -> Seq<CollectionView>
    decreases progress.waiting.len(), progress.pending.len(),
    when progress.wf()
{
    match progress.next_step() {
        BootstrapStep::FetchRecords { user_id, sheet_id } => completed(
            progress.after_records(records_of(user_id, sheet_id)),
            sheets_of,
            records_of,
        ),
        BootstrapStep::FetchSheets { collection_id } => completed(
            progress.after_sheets(sheets_of(collection_id)),
            sheets_of,
            records_of,
        ),
        BootstrapStep::Finished => progress.finished,
    }
}

/// What is still to come of a bootstrap in progress: the current
/// collection with its remaining sheets filled, then the waiting
/// collections filled.
pub open spec fn still_to_come(
    progress: BootstrapProgress,
    sheets_of: spec_fn(i64) -> Seq<SheetView>,
    records_of: spec_fn(i64, i64) -> Seq<Record>,
) -> Seq<CollectionView> {
    let rest = progress.waiting.map_values(
        |c: CollectionView| filled_collection(c, progress.user_id, sheets_of, records_of),
    );
    match progress.current {
        Some(c) => seq![
            CollectionView {
                sheets: c.sheets + progress.pending.map_values(
                    |s: SheetView| filled_sheet(s, progress.user_id, records_of),
                ),
                ..c
            },
        ] + rest,
        None => rest,
    }
}

/// Answering every question of a bootstrap in progress adds, after the
/// finished collections, exactly what is still to come.
pub proof fn lemma_completed_progress(
    progress: BootstrapProgress,
    sheets_of: spec_fn(i64) -> Seq<SheetView>,
    records_of: spec_fn(i64, i64) -> Seq<Record>,
)
    requires
        progress.wf(),
    ensures
        completed(progress, sheets_of, records_of) == progress.finished + still_to_come(
            progress,
            sheets_of,
            records_of,
        ),
    decreases progress.waiting.len(), progress.pending.len(),
{
    let fs = |s: SheetView| filled_sheet(s, progress.user_id, records_of);
    let fc = |c: CollectionView| filled_collection(c, progress.user_id, sheets_of, records_of);
    match progress.next_step() {
        BootstrapStep::FetchRecords { user_id, sheet_id } => {
            let next = progress.after_records(records_of(user_id, sheet_id));
            lemma_completed_progress(next, sheets_of, records_of);
            let c = progress.current->0;
            let filled = SheetView { records: records_of(user_id, sheet_id), ..progress.pending[0] };
            assert(filled == fs(progress.pending[0]));
            assert(progress.pending.map_values(fs) =~= seq![filled] + progress.pending.drop_first().map_values(fs));
            if progress.pending.len() == 1 {
                assert(progress.pending.drop_first().map_values(fs) =~= Seq::empty());
                assert(c.sheets.push(filled) =~= c.sheets + progress.pending.map_values(fs));
                assert(next.finished + still_to_come(next, sheets_of, records_of) =~= progress.finished
                    + still_to_come(progress, sheets_of, records_of));
            } else {
                assert(c.sheets.push(filled) + progress.pending.drop_first().map_values(fs)
                    =~= c.sheets + progress.pending.map_values(fs));
                assert(next.finished + still_to_come(next, sheets_of, records_of) =~= progress.finished
                    + still_to_come(progress, sheets_of, records_of));
            }
        },
        BootstrapStep::FetchSheets { collection_id } => {
            let sheets = sheets_of(collection_id);
            let next = progress.after_sheets(sheets);
            lemma_completed_progress(next, sheets_of, records_of);
            let head = CollectionView { sheets: Seq::empty(), ..progress.waiting[0] };
            assert(progress.waiting.map_values(fc) =~= seq![fc(progress.waiting[0])]
                + progress.waiting.drop_first().map_values(fc));
            if sheets.len() == 0 {
                assert(sheets.map_values(fs) =~= Seq::empty());
                assert(head == fc(progress.waiting[0]));
                assert(next.finished + still_to_come(next, sheets_of, records_of) =~= progress.finished
                    + still_to_come(progress, sheets_of, records_of));
            } else {
                assert(head.sheets + sheets.map_values(fs) =~= sheets.map_values(fs));
                assert(next.finished + still_to_come(next, sheets_of, records_of) =~= progress.finished
                    + still_to_come(progress, sheets_of, records_of));
            }
        },
        BootstrapStep::Finished => {
            assert(still_to_come(progress, sheets_of, records_of) =~= Seq::empty());
            assert(progress.finished + Seq::empty() =~= progress.finished);
        },
    }
}

/// A bootstrap holds every collection that the database lists for the
/// user, in that order, each with the sheets that the database holds for
/// it, each with the records that the database holds for it and that user.
pub proof fn lemma_bootstrap_complete(
    user_id: i64,
    collections: Seq<CollectionView>,
    sheets_of: spec_fn(i64) -> Seq<SheetView>,
    records_of: spec_fn(i64, i64) -> Seq<Record>,
)
    ensures
        completed(
            BootstrapProgress {
                user_id,
                finished: Seq::empty(),
                waiting: collections,
                current: None,
                pending: Seq::empty(),
            },
            sheets_of,
            records_of,
        ) == collections.map_values(
            |c: CollectionView| filled_collection(c, user_id, sheets_of, records_of),
        ),
{
    let start = BootstrapProgress {
        user_id,
        finished: Seq::empty(),
        waiting: collections,
        current: None,
        pending: Seq::empty(),
    };
    lemma_completed_progress(start, sheets_of, records_of);
    assert(Seq::<CollectionView>::empty() + still_to_come(start, sheets_of, records_of)
        =~= collections.map_values(
        |c: CollectionView| filled_collection(c, user_id, sheets_of, records_of),
    ));
}

/// Assembles a bootstrap from the answers of the database.
pub struct BootstrapBuilder {
    user_id: i64,
    finished: Vec<SheetCollection>,
    waiting: Vec<SheetCollection>,
    current: Option<SheetCollection>,
    pending: Vec<Sheet>,
}

impl View for BootstrapBuilder {
    type V = BootstrapProgress;

    closed spec fn view(&self) -> BootstrapProgress {
        BootstrapProgress {
            user_id: self.user_id,
            finished: collection_views(self.finished@),
            waiting: collection_views(self.waiting@),
            current: match self.current {
                Some(c) => Some(c@),
                None => None,
            },
            pending: sheet_views(self.pending@),
        }
    }
}

impl BootstrapBuilder {
    /// Starts the bootstrap of a user from the collections the database
    /// lists for the user, in the order of their ids.
    pub fn new(user_id: i64, collections: Vec<SheetCollection>) -> (builder: BootstrapBuilder)
        ensures
            builder@ == (BootstrapProgress {
                user_id,
                finished: Seq::empty(),
                waiting: collection_views(collections@),
                current: None,
                pending: Seq::empty(),
            }),
            builder@.wf(),
    {
        let builder = BootstrapBuilder {
            user_id,
            finished: Vec::new(),
            waiting: collections,
            current: None,
            pending: Vec::new(),
        };
        assert(collection_views(builder.finished@) =~= Seq::empty());
        assert(sheet_views(builder.pending@) =~= Seq::empty());
        builder
    }

    /// The question to ask the database next.
    pub fn next_step(&self) -> (step: BootstrapStep)
        requires
            self@.wf(),
        ensures
            step == self@.next_step(),
            step matches BootstrapStep::FetchRecords { user_id, sheet_id } ==> user_id == self@.user_id
                && self@.pending.len() > 0 && sheet_id == self@.pending[0].id,
            step matches BootstrapStep::FetchSheets { collection_id } ==> self@.pending.len() == 0
                && self@.waiting.len() > 0 && collection_id == self@.waiting[0].id,
            step is Finished <==> self@.pending.len() == 0 && self@.waiting.len() == 0,
    {
        if self.pending.len() > 0 {
            BootstrapStep::FetchRecords { user_id: self.user_id, sheet_id: self.pending[0].id }
        } else if self.waiting.len() > 0 {
            BootstrapStep::FetchSheets { collection_id: self.waiting[0].id }
        } else {
            BootstrapStep::Finished
        }
    }

    /// Takes in the sheets of the collection that `FetchSheets` asked for.
    pub fn sheets_loaded(&mut self, sheets: Vec<Sheet>)
        requires
            old(self)@.wf(),
            old(self)@.next_step() is FetchSheets,
        ensures
            final(self)@ == old(self)@.after_sheets(sheet_views(sheets@)),
            final(self)@.wf(),
    {
        let ghost before = self@;
        let ghost old_waiting = self.waiting@;
        let mut collection = self.waiting.remove(0);
        assert(collection_views(self.waiting@) =~= before.waiting.drop_first());
        collection.sheets = Vec::new();
        assert(collection@ == CollectionView { sheets: Seq::empty(), ..before.waiting[0] }) by {
            assert(sheet_views(collection.sheets@) =~= Seq::empty());
            assert(old_waiting[0]@ == before.waiting[0]);
        }
        if sheets.len() == 0 {
            let ghost old_finished = self.finished@;
            self.finished.push(collection);
            assert(collection_views(self.finished@) =~= collection_views(old_finished).push(
                collection@,
            ));
        } else {
            self.current = Some(collection);
            self.pending = sheets;
        }
    }

    /// Takes in the records of the sheet that `FetchRecords` asked for.
    pub fn records_loaded(&mut self, records: Vec<Record>)
        requires
            old(self)@.wf(),
            old(self)@.next_step() is FetchRecords,
        ensures
            final(self)@ == old(self)@.after_records(records@),
            final(self)@.wf(),
    {
        let ghost before = self@;
        let ghost old_pending = self.pending@;
        let mut sheet = self.pending.remove(0);
        assert(sheet_views(self.pending@) =~= before.pending.drop_first());
        sheet.records = records;
        assert(sheet@ == SheetView { records: records@, ..before.pending[0] }) by {
            assert(old_pending[0]@ == before.pending[0]);
        }
        let mut collection = match self.current.take() {
            Some(c) => c,
            None => {
                assert(false);
                return;
            },
        };
        let ghost old_sheets = collection.sheets@;
        collection.sheets.push(sheet);
        assert(sheet_views(collection.sheets@) =~= sheet_views(old_sheets).push(sheet@));
        if self.pending.len() == 0 {
            let ghost old_finished = self.finished@;
            self.finished.push(collection);
            assert(collection_views(self.finished@) =~= collection_views(old_finished).push(
                collection@,
            ));
            assert(sheet_views(self.pending@) =~= Seq::empty());
        } else {
            self.current = Some(collection);
        }
    }

    /// The bootstrap, once nothing more is needed: the finished collections
    /// in their order.
    pub fn finish(self) -> (bootstrap: BootstrapResponse)
        requires
            self@.wf(),
            self@.next_step() is Finished,
        ensures
            collection_views(bootstrap.collections@) == self@.finished,
    {
        BootstrapResponse { collections: self.finished }
    }
}

} // verus!
