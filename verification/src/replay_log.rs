//! Experience samples and the flat record in which they are stored.
//!
//! A stored record has 26 columns in a fixed order: the action, the reward,
//! the twelve features of the state and the twelve of the state that
//! followed. The order is the format: nothing in a record names its columns.

use crate::ratio::Ratio;
use vstd::prelude::*;

verus! {

/// One step of experience: the state that was seen, the action that was
/// taken (0 buys, 1 sells, 2 holds), the reward it earned and the state
/// that followed.
#[derive(Debug, Clone, Copy, PartialEq, Eq)]
pub struct ReplaySample {
    pub state: [Ratio; 12],
    pub action: usize,
    pub reward: Ratio,
    pub next_state: [Ratio; 12],
}

/// One stored record, column by column.
#[derive(Debug, Clone, Copy, PartialEq, Eq, Structural)]
pub struct Row {
    pub action: usize,
    pub reward: Ratio,
    pub state_0: Ratio,
    pub state_1: Ratio,
    pub state_2: Ratio,
    pub state_3: Ratio,
    pub state_4: Ratio,
    pub state_5: Ratio,
    pub state_6: Ratio,
    pub state_7: Ratio,
    pub state_8: Ratio,
    pub state_9: Ratio,
    pub state_10: Ratio,
    pub state_11: Ratio,
    pub next_0: Ratio,
    pub next_1: Ratio,
    pub next_2: Ratio,
    pub next_3: Ratio,
    pub next_4: Ratio,
    pub next_5: Ratio,
    pub next_6: Ratio,
    pub next_7: Ratio,
    pub next_8: Ratio,
    pub next_9: Ratio,
    pub next_10: Ratio,
    pub next_11: Ratio,
}

/// The record that stores `sample`: feature `i` of the state goes to column
/// `state_i`, feature `i` of the state that followed to column `next_i`.
pub open spec fn row_of(sample: ReplaySample) -> Row {
    Row {
        action: sample.action,
        reward: sample.reward,
        state_0: sample.state[0],
        state_1: sample.state[1],
        state_2: sample.state[2],
        state_3: sample.state[3],
        state_4: sample.state[4],
        state_5: sample.state[5],
        state_6: sample.state[6],
        state_7: sample.state[7],
        state_8: sample.state[8],
        state_9: sample.state[9],
        state_10: sample.state[10],
        state_11: sample.state[11],
        next_0: sample.next_state[0],
        next_1: sample.next_state[1],
        next_2: sample.next_state[2],
        next_3: sample.next_state[3],
        next_4: sample.next_state[4],
        next_5: sample.next_state[5],
        next_6: sample.next_state[6],
        next_7: sample.next_state[7],
        next_8: sample.next_state[8],
        next_9: sample.next_state[9],
        next_10: sample.next_state[10],
        next_11: sample.next_state[11],
    }
}

/// The sample that `row` stores.
pub open spec fn sample_of(row: Row) -> ReplaySample {
    ReplaySample {
        state: [
            row.state_0,
            row.state_1,
            row.state_2,
            row.state_3,
            row.state_4,
            row.state_5,
            row.state_6,
            row.state_7,
            row.state_8,
            row.state_9,
            row.state_10,
            row.state_11,
        ],
        action: row.action,
        reward: row.reward,
        next_state: [
            row.next_0,
            row.next_1,
            row.next_2,
            row.next_3,
            row.next_4,
            row.next_5,
            row.next_6,
            row.next_7,
            row.next_8,
            row.next_9,
            row.next_10,
            row.next_11,
        ],
    }
}

/// The records of `samples`, one for one.
pub open spec fn rows_of(samples: Seq<ReplaySample>) -> Seq<Row> {
    Seq::new(samples.len(), |i: int| row_of(samples[i]))
}

/// The samples of `rows`, one for one.
pub open spec fn samples_of(rows: Seq<Row>) -> Seq<ReplaySample> {
    Seq::new(rows.len(), |i: int| sample_of(rows[i]))
}

/// How many columns of a record hold numbers: all but the action.
pub const NUMBER_COLUMNS: usize = 25;

/// The numbers of `row` in the order of their columns: the reward, the
/// twelve features of the state, the twelve of the state that followed.
pub open spec fn numbers_of(row: Row) -> Seq<Ratio> {
    seq![
        row.reward,
        row.state_0,
        row.state_1,
        row.state_2,
        row.state_3,
        row.state_4,
        row.state_5,
        row.state_6,
        row.state_7,
        row.state_8,
        row.state_9,
        row.state_10,
        row.state_11,
        row.next_0,
        row.next_1,
        row.next_2,
        row.next_3,
        row.next_4,
        row.next_5,
        row.next_6,
        row.next_7,
        row.next_8,
        row.next_9,
        row.next_10,
        row.next_11,
    ]
}

/// The record whose action is `action` and whose numbers are `numbers`, if
/// there are as many numbers as a record has columns for them.
pub open spec fn row_from(action: usize, numbers: Seq<Ratio>) -> Option<Row> {
    if numbers.len() == NUMBER_COLUMNS {
        Some(
            Row {
                action,
                reward: numbers[0],
                state_0: numbers[1],
                state_1: numbers[2],
                state_2: numbers[3],
                state_3: numbers[4],
                state_4: numbers[5],
                state_5: numbers[6],
                state_6: numbers[7],
                state_7: numbers[8],
                state_8: numbers[9],
                state_9: numbers[10],
                state_10: numbers[11],
                state_11: numbers[12],
                next_0: numbers[13],
                next_1: numbers[14],
                next_2: numbers[15],
                next_3: numbers[16],
                next_4: numbers[17],
                next_5: numbers[18],
                next_6: numbers[19],
                next_7: numbers[20],
                next_8: numbers[21],
                next_9: numbers[22],
                next_10: numbers[23],
                next_11: numbers[24],
            },
        )
    } else {
        None
    }
}

/// A record is what its action and its numbers make.
pub proof fn lemma_columns_round_trip(row: Row)
    ensures
        row_from(row.action, numbers_of(row)) == Some(row),
{
}

/// Numbers that make a record are the numbers of that record.
pub proof fn lemma_numbers_round_trip(action: usize, numbers: Seq<Ratio>)
    requires
        numbers.len() == NUMBER_COLUMNS,
    ensures
        row_from(action, numbers) is Some,
        numbers_of(row_from(action, numbers).unwrap()) == numbers,
        row_from(action, numbers).unwrap().action == action,
{
}

/// Storing a sample and reading the record back gives the sample again:
/// every feature, the reward and the action.
pub proof fn lemma_sample_round_trip(sample: ReplaySample)
    ensures
        sample_of(row_of(sample)) == sample,
{
    let back = sample_of(row_of(sample));
    assert(back.state =~= sample.state);
    assert(back.next_state =~= sample.next_state);
}

/// Reading a record and storing the sample again gives the record again.
pub proof fn lemma_row_round_trip(row: Row)
    ensures
        row_of(sample_of(row)) == row,
{
}

/// Storing a batch and reading it back gives the batch again, in order.
pub proof fn lemma_batch_round_trip(samples: Seq<ReplaySample>)
    ensures
        samples_of(rows_of(samples)) == samples,
{
    assert forall|i: int| 0 <= i < samples.len() implies #[trigger] samples_of(rows_of(samples))[i]
        == samples[i] by {
        lemma_sample_round_trip(samples[i]);
    }
}

impl ReplaySample {
    /// The record that stores this sample.
    pub fn to_row(&self) -> (row: Row)
        ensures
            row == row_of(*self),
    {
        Row {
            action: self.action,
            reward: self.reward,
            state_0: self.state[0],
            state_1: self.state[1],
            state_2: self.state[2],
            state_3: self.state[3],
            state_4: self.state[4],
            state_5: self.state[5],
            state_6: self.state[6],
            state_7: self.state[7],
            state_8: self.state[8],
            state_9: self.state[9],
            state_10: self.state[10],
            state_11: self.state[11],
            next_0: self.next_state[0],
            next_1: self.next_state[1],
            next_2: self.next_state[2],
            next_3: self.next_state[3],
            next_4: self.next_state[4],
            next_5: self.next_state[5],
            next_6: self.next_state[6],
            next_7: self.next_state[7],
            next_8: self.next_state[8],
            next_9: self.next_state[9],
            next_10: self.next_state[10],
            next_11: self.next_state[11],
        }
    }
}

impl Row {
    /// The numbers of this record in the order of their columns.
    pub fn numbers(&self) -> (numbers: Vec<Ratio>)
        ensures
            numbers@ == numbers_of(*self),
    {
        let numbers = vec![
            self.reward,
            self.state_0,
            self.state_1,
            self.state_2,
            self.state_3,
            self.state_4,
            self.state_5,
            self.state_6,
            self.state_7,
            self.state_8,
            self.state_9,
            self.state_10,
            self.state_11,
            self.next_0,
            self.next_1,
            self.next_2,
            self.next_3,
            self.next_4,
            self.next_5,
            self.next_6,
            self.next_7,
            self.next_8,
            self.next_9,
            self.next_10,
            self.next_11,
        ];
        numbers
    }

    /// The record read from its columns: the action, then the numbers in
    /// the order of their columns. There is no record unless there are
    /// exactly 25 numbers.
    pub fn from_columns(action: usize, numbers: &[Ratio]) -> (row: Option<Row>)
        ensures
            row == row_from(action, numbers@),
            row is Some <==> numbers@.len() == NUMBER_COLUMNS,
    {
        if numbers.len() != NUMBER_COLUMNS {
            return None;
        }
        Some(
            Row {
                action,
                reward: numbers[0],
                state_0: numbers[1],
                state_1: numbers[2],
                state_2: numbers[3],
                state_3: numbers[4],
                state_4: numbers[5],
                state_5: numbers[6],
                state_6: numbers[7],
                state_7: numbers[8],
                state_8: numbers[9],
                state_9: numbers[10],
                state_10: numbers[11],
                state_11: numbers[12],
                next_0: numbers[13],
                next_1: numbers[14],
                next_2: numbers[15],
                next_3: numbers[16],
                next_4: numbers[17],
                next_5: numbers[18],
                next_6: numbers[19],
                next_7: numbers[20],
                next_8: numbers[21],
                next_9: numbers[22],
                next_10: numbers[23],
                next_11: numbers[24],
            },
        )
    }

    /// The sample that this record stores.
    pub fn to_sample(&self) -> (sample: ReplaySample)
        ensures
            sample == sample_of(*self),
    {
        ReplaySample {
            state: [
                self.state_0,
                self.state_1,
                self.state_2,
                self.state_3,
                self.state_4,
                self.state_5,
                self.state_6,
                self.state_7,
                self.state_8,
                self.state_9,
                self.state_10,
                self.state_11,
            ],
            action: self.action,
            reward: self.reward,
            next_state: [
                self.next_0,
                self.next_1,
                self.next_2,
                self.next_3,
                self.next_4,
                self.next_5,
                self.next_6,
                self.next_7,
                self.next_8,
                self.next_9,
                self.next_10,
                self.next_11,
            ],
        }
    }
}

/// The records that store `batch`, in the order of the batch.
pub fn to_rows(batch: &[ReplaySample]) -> (rows: Vec<Row>)
    ensures
        rows@ == rows_of(batch@),
{
    let mut rows: Vec<Row> = Vec::new();
    let mut i: usize = 0;
    while i < batch.len()
        invariant
            i <= batch@.len(),
            rows@ == rows_of(batch@.take(i as int)),
        decreases batch@.len() - i,
    {
        rows.push(batch[i].to_row());
        i = i + 1;
    }
    rows
}

/// The samples that `rows` store, in the order of the records.
pub fn from_rows(rows: &[Row]) -> (samples: Vec<ReplaySample>)
    ensures
        samples@ == samples_of(rows@),
{
    let mut samples: Vec<ReplaySample> = Vec::new();
    let mut i: usize = 0;
    while i < rows.len()
        invariant
            i <= rows@.len(),
            samples@ == samples_of(rows@.take(i as int)),
        decreases rows@.len() - i,
    {
        samples.push(rows[i].to_sample());
        i = i + 1;
    }
    samples
}

} // verus!
