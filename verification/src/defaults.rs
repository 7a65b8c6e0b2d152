//! The collections and sheets that every new account starts with, and the
//! order in which they are made sure to exist.

use vstd::prelude::*;

verus! {

/// One entry of the default layout: a collection, or a sheet of the
/// collection named last before it.
#[derive(Clone, Copy, Debug)]
pub enum DefaultItem {
    Collection { name: &'static str },
    Sheet { name: &'static str, fraction: i64 },
}

/// An entry of the default layout, as values: the name, and `None` for a
/// collection or `Some(fraction)` for a sheet.
pub open spec fn item_view(item: DefaultItem) -> (Seq<char>, Option<i64>) {
    match item {
        DefaultItem::Collection { name } => (name@, None),
        DefaultItem::Sheet { name, fraction } => (name@, Some(fraction)),
    }
}

/// The default layout: a `Main` collection with `Incomes` (100) and the four
/// sheets that share income, `Essentials` (50), `Stability` (15), `Growth`
/// (25) and `Prizes` (10); then a `Planning` collection with `Incomes` (100)
/// and `Expenses` (100).
pub open spec fn default_layout() -> Seq<(Seq<char>, Option<i64>)> {
    seq![
        (seq!['M', 'a', 'i', 'n'], None),
        (seq!['I', 'n', 'c', 'o', 'm', 'e', 's'], Some(100i64)),
        (seq!['E', 's', 's', 'e', 'n', 't', 'i', 'a', 'l', 's'], Some(50i64)),
        (seq!['S', 't', 'a', 'b', 'i', 'l', 'i', 't', 'y'], Some(15i64)),
        (seq!['G', 'r', 'o', 'w', 't', 'h'], Some(25i64)),
        (seq!['P', 'r', 'i', 'z', 'e', 's'], Some(10i64)),
        (seq!['P', 'l', 'a', 'n', 'n', 'i', 'n', 'g'], None),
        (seq!['I', 'n', 'c', 'o', 'm', 'e', 's'], Some(100i64)),
        (seq!['E', 'x', 'p', 'e', 'n', 's', 'e', 's'], Some(100i64)),
    ]
}

/// The entries of the default layout, in order.
pub fn default_items() -> (items: Vec<DefaultItem>)
    ensures
        items@.map_values(|i: DefaultItem| item_view(i)) == default_layout(),
{
    proof {
        reveal_strlit("Main");
        reveal_strlit("Incomes");
        reveal_strlit("Essentials");
        reveal_strlit("Stability");
        reveal_strlit("Growth");
        reveal_strlit("Prizes");
        reveal_strlit("Planning");
        reveal_strlit("Expenses");
    }
    let mut items: Vec<DefaultItem> = Vec::new();
    items.push(DefaultItem::Collection { name: "Main" });
    items.push(DefaultItem::Sheet { name: "Incomes", fraction: 100 });
    items.push(DefaultItem::Sheet { name: "Essentials", fraction: 50 });
    items.push(DefaultItem::Sheet { name: "Stability", fraction: 15 });
    items.push(DefaultItem::Sheet { name: "Growth", fraction: 25 });
    items.push(DefaultItem::Sheet { name: "Prizes", fraction: 10 });
    items.push(DefaultItem::Collection { name: "Planning" });
    items.push(DefaultItem::Sheet { name: "Incomes", fraction: 100 });
    items.push(DefaultItem::Sheet { name: "Expenses", fraction: 100 });
    assert forall|k: int| 0 <= k < 9 implies item_view(#[trigger] items@[k]) == default_layout()[k] by {
        if k == 0 {
        } else if k == 1 {
        } else if k == 2 {
        } else if k == 3 {
        } else if k == 4 {
        } else if k == 5 {
        } else if k == 6 {
        } else if k == 7 {
        } else {
        }
    }
    assert(items@.map_values(|i: DefaultItem| item_view(i)) =~= default_layout());
    items
}

/// The next thing that making the default layout needs from the database.
#[derive(Clone, Copy, Debug)]
pub enum DefaultsStep {
    /// Find the user's collection of this name, or create it.
    EnsureCollection { user_id: i64, name: &'static str },
    /// Find the sheet of this name in the collection, or create it with
    /// this fraction.
    EnsureSheet { collection_id: i64, name: &'static str, fraction: i64 },
    /// The layout is complete.
    Done,
}

/// How far making the default layout has come.
pub struct DefaultsProgress {
    pub user_id: i64,
    /// How many entries of the layout exist so far.
    pub done: nat,
    /// The id of the collection made (or found) last, once there is one.
    pub collection_id: Option<i64>,
}

impl DefaultsProgress {
    /// The collection of the layout is known for every sheet still to come.
    pub open spec fn wf(self) -> bool {
        &&& self.done <= default_layout().len()
        &&& self.done > 0 ==> self.collection_id is Some
    }

    /// Whether a step is the one that comes next.
    pub open spec fn is_next_step(self, step: DefaultsStep) -> bool {
        if self.done >= default_layout().len() {
            step is Done
        } else {
            let (name, fraction) = default_layout()[self.done as int];
            match fraction {
                None => step matches DefaultsStep::EnsureCollection { user_id, name: n }
                    && user_id == self.user_id && n@ == name,
                Some(f) => step matches DefaultsStep::EnsureSheet { collection_id, name: n, fraction }
                    && self.collection_id == Some(collection_id) && n@ == name && fraction == f,
            }
        }
    }

    /// The progress once the next entry exists under the given id.
    pub open spec fn after(self, id: i64) -> DefaultsProgress {
        let (_, fraction) = default_layout()[self.done as int];
        DefaultsProgress {
            done: self.done + 1,
            collection_id: if fraction is None {
                Some(id)
            } else {
                self.collection_id
            },
            ..self
        }
    }
}

/// Makes sure that the default collections and sheets of a user exist,
/// one entry at a time and in the order of the layout.
pub struct DefaultsPlan {
    user_id: i64,
    items: Vec<DefaultItem>,
    done: usize,
    collection_id: Option<i64>,
}

impl View for DefaultsPlan {
    type V = DefaultsProgress;

    closed spec fn view(&self) -> DefaultsProgress {
        DefaultsProgress {
            user_id: self.user_id,
            done: self.done as nat,
            collection_id: self.collection_id,
        }
    }
}

impl DefaultsPlan {
    /// The plan holds the default layout.
    pub closed spec fn holds_layout(&self) -> bool {
        self.items@.map_values(|i: DefaultItem| item_view(i)) == default_layout()
    }

    /// The plan for a user, with nothing made yet.
    pub fn new(user_id: i64) -> (plan: DefaultsPlan)
        ensures
            plan@ == (DefaultsProgress { user_id, done: 0, collection_id: None }),
            plan@.wf(),
            plan.holds_layout(),
    {
        DefaultsPlan { user_id, items: default_items(), done: 0, collection_id: None }
    }

    /// What the database must do next.
    pub fn next_step(&self) -> (step: DefaultsStep)
        requires
            self@.wf(),
            self.holds_layout(),
        ensures
            self@.is_next_step(step),
            step is Done <==> self@.done == default_layout().len(),
            step matches DefaultsStep::EnsureCollection { user_id, name } ==> user_id == self@.user_id
                && default_layout()[self@.done as int] == (name@, None::<i64>),
            step matches DefaultsStep::EnsureSheet { collection_id, name, fraction } ==> self@.collection_id
                == Some(collection_id) && default_layout()[self@.done as int] == (name@, Some(fraction)),
    {
        let ghost layout = default_layout();
        assert(self.items@.len() == layout.len()) by {
            assert(self.items@.map_values(|i: DefaultItem| item_view(i)).len() == self.items@.len());
        }
        if self.done >= self.items.len() {
            return DefaultsStep::Done;
        }
        let item = self.items[self.done];
        assert(item_view(item) == layout[self.done as int]) by {
            assert(self.items@.map_values(|i: DefaultItem| item_view(i))[self.done as int] == item_view(
                self.items@[self.done as int],
            ));
        }
        match item {
            DefaultItem::Collection { name } => DefaultsStep::EnsureCollection {
                user_id: self.user_id,
                name,
            },
            DefaultItem::Sheet { name, fraction } => {
                let collection_id: i64 = match self.collection_id {
                    Some(id) => id,
                    None => {
                        assert(layout[0].1 is None);
                        assert(self.done > 0);
                        0
                    },
                };
                DefaultsStep::EnsureSheet { collection_id, name, fraction }
            },
        }
    }

    /// Takes in the id of the entry that the last step found or created.
    pub fn ensured(&mut self, id: i64)
        requires
            old(self)@.wf(),
            old(self).holds_layout(),
            old(self)@.done < default_layout().len(),
        ensures
            final(self)@ == old(self)@.after(id),
            final(self)@.wf(),
            final(self).holds_layout(),
            final(self)@.user_id == old(self)@.user_id,
            final(self)@.done == old(self)@.done + 1,
            default_layout()[old(self)@.done as int].1 is None ==> final(self)@.collection_id == Some(id),
            default_layout()[old(self)@.done as int].1 is Some ==> final(self)@.collection_id == old(
                self,
            )@.collection_id,
    {
        let ghost layout = default_layout();
        assert(self.items@.len() == layout.len()) by {
            assert(self.items@.map_values(|i: DefaultItem| item_view(i)).len() == self.items@.len());
        }
        let item = self.items[self.done];
        assert(item_view(item) == layout[self.done as int]) by {
            assert(self.items@.map_values(|i: DefaultItem| item_view(i))[self.done as int] == item_view(
                self.items@[self.done as int],
            ));
        }
        match item {
            DefaultItem::Collection { .. } => {
                self.collection_id = Some(id);
            },
            DefaultItem::Sheet { .. } => {},
        }
        self.done = self.done + 1;
    }
}

/// The progress after the first entries of the layout exist under the given
/// ids, in order.
pub open spec fn progress_after(user_id: i64, ids: Seq<i64>) -> DefaultsProgress
    decreases ids.len(),
{
    if ids.len() == 0 {
        DefaultsProgress { user_id, done: 0, collection_id: None }
    } else {
        progress_after(user_id, ids.drop_last()).after(ids.last())
    }
}

/// The position in the layout of the collection that entry `k` belongs to:
/// `Main` for the first six entries, `Planning` for the rest.
pub open spec fn owning_collection(k: int) -> int {
    if k < 6 {
        0
    } else {
        6
    }
}

/// Making the layout under any ids puts every sheet into the collection
/// just made or found before it: once entries `0..n` exist under `ids`, the
/// collection in use is the one whose id the database gave to the last
/// collection entry, `Main` for the first six entries and `Planning` after.
pub proof fn lemma_sheets_go_to_their_collection(user_id: i64, ids: Seq<i64>)
    requires
        ids.len() <= default_layout().len(),
    ensures
        progress_after(user_id, ids).wf(),
        progress_after(user_id, ids).user_id == user_id,
        progress_after(user_id, ids).done == ids.len(),
        ids.len() == 0 ==> progress_after(user_id, ids).collection_id is None,
        ids.len() > 0 ==> progress_after(user_id, ids).collection_id == Some(
            ids[owning_collection(ids.len() - 1)],
        ),
    decreases ids.len(),
{
    if ids.len() > 0 {
        let prefix = ids.drop_last();
        lemma_sheets_go_to_their_collection(user_id, prefix);
        let k = prefix.len() as int;
        assert(default_layout()[0].1 is None);
        assert(default_layout()[6].1 is None);
        assert(k != 0 && k != 6 ==> default_layout()[k].1 is Some) by {
            if k == 1 {} else if k == 2 {} else if k == 3 {} else if k == 4 {} else if k == 5 {}
            else if k == 7 {} else if k == 8 {}
        }
        if k > 0 {
            assert(prefix[owning_collection(k - 1)] == ids[owning_collection(k - 1)]);
        }
    }
}

/// Ensuring an entry moves the plan one entry on; a collection entry makes
/// its id the collection in use, a sheet entry keeps the one in use.
pub proof fn lemma_ensured_step(progress: DefaultsProgress, id: i64)
    requires
        progress.wf(),
        progress.done < default_layout().len(),
    ensures
        progress.after(id).wf(),
        progress.after(id).user_id == progress.user_id,
        progress.after(id).done == progress.done + 1,
        default_layout()[progress.done as int].1 is None ==> progress.after(id).collection_id == Some(id),
        default_layout()[progress.done as int].1 is Some ==> progress.after(id).collection_id
            == progress.collection_id,
{
}

/// The sum of the fractions of the entries `from..to` of the layout.
pub open spec fn fraction_sum(from: int, to: int) -> int
    decreases to - from,
{
    if from >= to {
        0
    } else {
        let (_, fraction) = default_layout()[from];
        (match fraction {
            Some(f) => f as int,
            None => 0,
        }) + fraction_sum(from + 1, to)
    }
}

/// In the `Main` collection the sheets that share income, all but
/// `Incomes`, share all of it: their fractions add up to 100.
pub proof fn lemma_main_shares_add_up()
    ensures
        default_layout()[0].0 == seq!['M', 'a', 'i', 'n'],
        default_layout()[1].0 == seq!['I', 'n', 'c', 'o', 'm', 'e', 's'],
        forall|k: int| 2 <= k < 6 ==> (#[trigger] default_layout()[k]).1 is Some,
        default_layout()[6].1 is None,
        fraction_sum(2, 6) == 100,
{
    reveal_with_fuel(fraction_sum, 5);
}

/// Every fraction of the layout is a percentage, between 0 and 100.
pub proof fn lemma_fractions_are_percentages()
    ensures
        forall|k: int|
            0 <= k < default_layout().len() ==> ((#[trigger] default_layout()[k]).1 matches Some(f)
                ==> 0 <= f <= 100),
{
}

/// Names within the layout never clash where the schema asks them to be
/// unique: the two collections have different names, and so do the sheets
/// of each collection.
pub proof fn lemma_layout_names_distinct()
    ensures
        default_layout()[0].1 is None && default_layout()[6].1 is None,
        default_layout()[0].0 != default_layout()[6].0,
        forall|i: int, j: int|
            1 <= i < j < 6 ==> (#[trigger] default_layout()[i]).0 != (#[trigger] default_layout()[j]).0,
        forall|i: int, j: int|
            7 <= i < j < 9 ==> (#[trigger] default_layout()[i]).0 != (#[trigger] default_layout()[j]).0,
{
    let l = default_layout();
    assert(l[0].0[0] != l[6].0[0]);
    assert forall|i: int, j: int| 1 <= i < j < 6 implies (#[trigger] l[i]).0 != (#[trigger] l[j]).0 by {
        assert(l[i].0[0] != l[j].0[0] || l[i].0.len() != l[j].0.len() || l[i].0[1] != l[j].0[1]);
    }
    assert(l[7].0[1] != l[8].0[1]);
}

} // verus!
