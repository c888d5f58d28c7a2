//! What an operation sees: one consistent read of the epoch, the command's row, the flags, the
//! environment and the latest rulesets.

use vstd::prelude::*;
use crate::domain::{
    outcome, EnvironmentRecord, EnvironmentView, ErrorView, FlagRecord, FlagView, PublishedRuleset,
    PublishedView, StorageError,
};
use crate::keyed::KeyedMap;
use super::revision::{failure, failure_view, revision, revision_of};
use super::rows::{read_column, column_text, row_view, rows_view, ColumnView, Row};

verus! {

/// A batch's answer is taken only if it has one set of rows per statement.
pub fn answered(count: usize, sets: Vec<Vec<Row>>) -> (result: Result<Vec<Vec<Row>>, StorageError>)
    ensures
        sets@.len() == count ==> result == Ok::<Vec<Vec<Row>>, StorageError>(sets),
        sets@.len() != count ==> result is Err && result->Err_0@ == failure_view(),
{
    if sets.len() == count {
        Ok(sets)
    } else {
        Err(failure())
    }
}

/// The rows of a snapshot, set by set, with the epoch read.
pub struct SnapshotRows {
    pub epoch: i64,
    pub command: Vec<Row>,
    pub flags: Vec<Row>,
    pub environment: Option<Row>,
    pub rulesets: Vec<Row>,
}

/// The epoch that a snapshot's first set holds.
pub open spec fn epoch_of(rows: Seq<Map<Seq<char>, ColumnView>>) -> Result<i64, ErrorView> {
    if rows.len() == 0 {
        Err(failure_view())
    } else {
        match column_text(rows[0], "revision"@) {
            Some(text) => revision_of(text),
            None => Err(failure_view()),
        }
    }
}

/// Reads the epoch from a snapshot's first set.
fn epoch(rows: &Vec<Row>) -> (result: Result<i64, StorageError>)
    ensures
        outcome(result) == epoch_of(rows_view(rows@)),
{
    if rows.len() == 0 {
        return Err(failure());
    }
    assert(rows_view(rows@)[0] == row_view(rows@[0]@));
    match read_column(&rows[0], "revision") {
        Some(text) => revision(text),
        None => Err(failure()),
    }
}

/// The rows are those of the five sets.
pub open spec fn splits(rows: SnapshotRows, sets: Seq<Vec<Row>>) -> bool {
    &&& rows.command == sets[1]
    &&& rows.flags == sets[2]
    &&& rows.rulesets == sets[4]
    &&& match rows.environment {
        Some(row) => sets[3]@.len() > 0 && row == sets[3]@[0],
        None => sets[3]@.len() == 0,
    }
}

/// Splits the answer to a snapshot's five statements, and reads the epoch.
pub fn snapshot_rows(sets: Vec<Vec<Row>>) -> (result: Result<SnapshotRows, StorageError>)
    ensures
        if sets@.len() < 5 {
            result is Err && result->Err_0@ == failure_view()
        } else {
            match epoch_of(rows_view(sets@[0]@)) {
                Ok(n) => result is Ok && result->Ok_0.epoch == n && splits(result->Ok_0, sets@),
                Err(error) => result is Err && result->Err_0@ == error,
            }
        },
{
    if sets.len() < 5 {
        return Err(failure());
    }
    let ghost given = sets@;
    let mut sets = sets;
    let epoch = match epoch(&sets[0]) {
        Ok(n) => n,
        Err(error) => return Err(error),
    };
    let rulesets = sets.remove(4);
    let mut places = sets.remove(3);
    let flags = sets.remove(2);
    let command = sets.remove(1);
    let environment = if places.len() == 0 {
        None
    } else {
        Some(places.remove(0))
    };
    let rows = SnapshotRows { epoch, command, flags, environment, rulesets };
    assert(splits(rows, given));
    Ok(rows)
}

/// A ruleset with the key of its flag.
pub struct KeyedRuleset {
    pub flag_key: String,
    pub ruleset: PublishedRuleset,
}

impl View for KeyedRuleset {
    type V = (Seq<char>, PublishedView);

    open spec fn view(&self) -> (Seq<char>, PublishedView) {
        (self.flag_key@, self.ruleset@)
    }
}

/// What an operation sees.
pub struct Snapshot {
    pub epoch: i64,
    pub command: Vec<Row>,
    pub flags: KeyedMap<FlagRecord>,
    pub environment: Option<EnvironmentRecord>,
    pub rulesets: KeyedMap<PublishedRuleset>,
}

/// The model of a `Snapshot`.
pub struct SnapshotView {
    pub epoch: int,
    pub command: Seq<Map<Seq<char>, ColumnView>>,
    pub flags: Map<Seq<char>, FlagView>,
    pub environment: Option<EnvironmentView>,
    pub rulesets: Map<Seq<char>, PublishedView>,
}

/// Flags by their keys, each taken by its model.
pub open spec fn flags_view(flags: Map<Seq<char>, FlagRecord>) -> Map<Seq<char>, FlagView> {
    flags.map_values(|flag: FlagRecord| flag@)
}

/// Rulesets by their flags' keys, each taken by its model.
pub open spec fn rulesets_view(rulesets: Map<Seq<char>, PublishedRuleset>) -> Map<
    Seq<char>,
    PublishedView,
> {
    rulesets.map_values(|ruleset: PublishedRuleset| ruleset@)
}

/// An optional environment, taken by its model.
pub open spec fn environment_view(environment: Option<EnvironmentRecord>) -> Option<
    EnvironmentView,
> {
    match environment {
        Some(record) => Some(record@),
        None => None,
    }
}

impl View for Snapshot {
    type V = SnapshotView;

    open spec fn view(&self) -> SnapshotView {
        SnapshotView {
            epoch: self.epoch as int,
            command: rows_view(self.command@),
            flags: flags_view(self.flags@),
            environment: environment_view(self.environment),
            rulesets: rulesets_view(self.rulesets@),
        }
    }
}

/// What each of a list of attempts gave, with value and error taken by their models.
pub open spec fn outcomes<T: View>(results: Seq<Result<T, StorageError>>) -> Seq<
    Result<T::V, ErrorView>,
> {
    results.map_values(|result: Result<T, StorageError>| outcome(result))
}

/// The flags by their keys, of two with the same key the later; or the first error.
pub open spec fn collected_flags(flags: Seq<Result<FlagView, ErrorView>>) -> Result<
    Map<Seq<char>, FlagView>,
    ErrorView,
>
    decreases flags.len(),
{
    if flags.len() == 0 {
        Ok(Map::empty())
    } else {
        match collected_flags(flags.drop_last()) {
            Ok(map) => match flags.last() {
                Ok(flag) => Ok(map.insert(flag.flag_key, flag)),
                Err(error) => Err(error),
            },
            Err(error) => Err(error),
        }
    }
}

/// The rulesets by their flags' keys, of two with the same key the later; or the first error.
pub open spec fn collected_rulesets(
    rulesets: Seq<Result<(Seq<char>, PublishedView), ErrorView>>,
) -> Result<Map<Seq<char>, PublishedView>, ErrorView>
    decreases rulesets.len(),
{
    if rulesets.len() == 0 {
        Ok(Map::empty())
    } else {
        match collected_rulesets(rulesets.drop_last()) {
            Ok(map) => match rulesets.last() {
                Ok((key, ruleset)) => Ok(map.insert(key, ruleset)),
                Err(error) => Err(error),
            },
            Err(error) => Err(error),
        }
    }
}

proof fn lemma_flags_error_stays(flags: Seq<Result<FlagView, ErrorView>>, k: int)
    requires
        0 <= k <= flags.len(),
        collected_flags(flags.take(k)) is Err,
    ensures
        collected_flags(flags) == collected_flags(flags.take(k)),
    decreases flags.len(),
{
    if k < flags.len() {
        assert(flags.take(k) =~= flags.drop_last().take(k));
        lemma_flags_error_stays(flags.drop_last(), k);
    } else {
        assert(flags.take(k) =~= flags);
    }
}

proof fn lemma_rulesets_error_stays(
    rulesets: Seq<Result<(Seq<char>, PublishedView), ErrorView>>,
    k: int,
)
    requires
        0 <= k <= rulesets.len(),
        collected_rulesets(rulesets.take(k)) is Err,
    ensures
        collected_rulesets(rulesets) == collected_rulesets(rulesets.take(k)),
    decreases rulesets.len(),
{
    if k < rulesets.len() {
        assert(rulesets.take(k) =~= rulesets.drop_last().take(k));
        lemma_rulesets_error_stays(rulesets.drop_last(), k);
    } else {
        assert(rulesets.take(k) =~= rulesets);
    }
}

/// Collects decoded flags by their keys.
fn collect_flags(flags: Vec<Result<FlagRecord, StorageError>>) -> (result: Result<
    KeyedMap<FlagRecord>,
    StorageError,
>)
    ensures
        match collected_flags(outcomes(flags@)) {
            Ok(map) => result is Ok && flags_view(result->Ok_0@) == map,
            Err(error) => result is Err && result->Err_0@ == error,
        },
{
    let ghost all = outcomes(flags@);
    let mut map: KeyedMap<FlagRecord> = KeyedMap::new();
    assert(all.take(0) =~= Seq::<Result<FlagView, ErrorView>>::empty());
    assert(flags_view(map@) =~= Map::<Seq<char>, FlagView>::empty());
    for attempt in it: flags
        invariant
            it.seq() == flags@,
            all == outcomes(flags@),
            collected_flags(all.take(it.index())) == Ok::<Map<Seq<char>, FlagView>, ErrorView>(
                flags_view(map@),
            ),
    {
        let ghost k = it.index();
        let ghost longer = all.take(k + 1);
        assert(longer.drop_last() =~= all.take(k));
        assert(longer.last() == outcome(attempt));
        match attempt {
            Ok(flag) => {
                let ghost before = map@;
                map.insert(flag.flag_key.clone(), flag);
                assert(flags_view(map@) =~= flags_view(before).insert(flag@.flag_key, flag@));
            },
            Err(error) => {
                proof {
                    lemma_flags_error_stays(all, k + 1);
                }
                return Err(error);
            },
        }
    }
    assert(all.take(all.len() as int) =~= all);
    Ok(map)
}

/// Collects decoded rulesets by their flags' keys.
fn collect_rulesets(rulesets: Vec<Result<KeyedRuleset, StorageError>>) -> (result: Result<
    KeyedMap<PublishedRuleset>,
    StorageError,
>)
    ensures
        match collected_rulesets(outcomes(rulesets@)) {
            Ok(map) => result is Ok && rulesets_view(result->Ok_0@) == map,
            Err(error) => result is Err && result->Err_0@ == error,
        },
{
    let ghost all = outcomes(rulesets@);
    let mut map: KeyedMap<PublishedRuleset> = KeyedMap::new();
    assert(all.take(0) =~= Seq::<Result<(Seq<char>, PublishedView), ErrorView>>::empty());
    assert(rulesets_view(map@) =~= Map::<Seq<char>, PublishedView>::empty());
    for attempt in it: rulesets
        invariant
            it.seq() == rulesets@,
            all == outcomes(rulesets@),
            collected_rulesets(all.take(it.index())) == Ok::<
                Map<Seq<char>, PublishedView>,
                ErrorView,
            >(rulesets_view(map@)),
    {
        let ghost k = it.index();
        let ghost longer = all.take(k + 1);
        assert(longer.drop_last() =~= all.take(k));
        assert(longer.last() == outcome(attempt));
        match attempt {
            Ok(keyed) => {
                let ghost before = map@;
                let ghost entry = keyed@;
                map.insert(keyed.flag_key, keyed.ruleset);
                assert(rulesets_view(map@) =~= rulesets_view(before).insert(entry.0, entry.1));
            },
            Err(error) => {
                proof {
                    lemma_rulesets_error_stays(all, k + 1);
                }
                return Err(error);
            },
        }
    }
    assert(all.take(all.len() as int) =~= all);
    Ok(map)
}

/// The snapshot that decoded rows make, or the first error in the order of the sets.
pub open spec fn assembled(
    epoch: int,
    command: Seq<Map<Seq<char>, ColumnView>>,
    flags: Seq<Result<FlagView, ErrorView>>,
    environment: Option<Result<EnvironmentView, ErrorView>>,
    rulesets: Seq<Result<(Seq<char>, PublishedView), ErrorView>>,
) -> Result<SnapshotView, ErrorView> {
    match collected_flags(flags) {
        Err(error) => Err(error),
        Ok(flags) => match environment {
            Some(Err(error)) => Err(error),
            _ => match collected_rulesets(rulesets) {
                Err(error) => Err(error),
                Ok(rulesets) => Ok(
                    SnapshotView {
                        epoch,
                        command,
                        flags,
                        environment: match environment {
                            Some(Ok(record)) => Some(record),
                            _ => None,
                        },
                        rulesets,
                    },
                ),
            },
        },
    }
}

/// Puts a snapshot together from the rows' decoded records.
pub fn assemble(
    epoch: i64,
    command: Vec<Row>,
    flags: Vec<Result<FlagRecord, StorageError>>,
    environment: Option<Result<EnvironmentRecord, StorageError>>,
    rulesets: Vec<Result<KeyedRuleset, StorageError>>,
) -> (result: Result<Snapshot, StorageError>)
    ensures
        outcome(result) == assembled(
            epoch as int,
            rows_view(command@),
            outcomes(flags@),
            match environment {
                Some(attempt) => Some(outcome(attempt)),
                None => None,
            },
            outcomes(rulesets@),
        ),
{
    let flags = match collect_flags(flags) {
        Ok(map) => map,
        Err(error) => return Err(error),
    };
    let environment = match environment {
        Some(Ok(record)) => Some(record),
        Some(Err(error)) => return Err(error),
        None => None,
    };
    let rulesets = match collect_rulesets(rulesets) {
        Ok(map) => map,
        Err(error) => return Err(error),
    };
    Ok(Snapshot { epoch, command, flags, environment, rulesets })
}

} // verus!
