//! A model of the stored tuition records, and what the handlers' decisions
//! mean for it.
//!
//! The store keeps rows of first name, last name and tuition cost. Nothing in
//! the store itself keeps a name from occurring twice: the handler looks before
//! it writes. The model is a sequence of rows, so that a second row of a name
//! can be spoken of.

use vstd::prelude::*;
use crate::money::Money;
use crate::form::LookupRequest;
use crate::handler::{Calculation, Stage, Reply, Failure, LookupReply, UserTuition, next_step, lookup_result};

verus! {

/// One stored row.
pub struct StoredTuition {
    pub first_name: Seq<char>,
    pub last_name: Seq<char>,
    pub tuition_cost: Money,
}

pub open spec fn has_name(row: StoredTuition, first: Seq<char>, last: Seq<char>) -> bool {
    row.first_name == first && row.last_name == last
}

/// How many rows have the name.
pub open spec fn count(rows: Seq<StoredTuition>, first: Seq<char>, last: Seq<char>) -> nat
    decreases rows.len(),
{
    if rows.len() == 0 {
        0
    } else {
        count(rows.drop_last(), first, last) + if has_name(rows.last(), first, last) {
            1nat
        } else {
            0nat
        }
    }
}

/// The rows after a new row is inserted.
pub open spec fn inserted(rows: Seq<StoredTuition>, first: Seq<char>, last: Seq<char>, cost: Money) -> Seq<StoredTuition> {
    rows.push(StoredTuition { first_name: first, last_name: last, tuition_cost: cost })
}

/// The rows after the cost of every row of the name is set.
pub open spec fn updated(rows: Seq<StoredTuition>, first: Seq<char>, last: Seq<char>, cost: Money) -> Seq<StoredTuition> {
    Seq::new(
        rows.len(),
        |i: int|
            if has_name(rows[i], first, last) {
                StoredTuition { first_name: first, last_name: last, tuition_cost: cost }
            } else {
                rows[i]
            },
    )
}

/// The rows after the write that a calculation is waiting for at its stage.
/// At every other stage nothing is written.
pub open spec fn after_write(rows: Seq<StoredTuition>, c: Calculation) -> Seq<StoredTuition> {
    match c.stage {
        Stage::Insert { charges } => inserted(
            rows,
            c.request.first_name@,
            c.request.last_name@,
            charges.total,
        ),
        Stage::Update { charges } => updated(
            rows,
            c.request.first_name@,
            c.request.last_name@,
            charges.total,
        ),
        _ => rows,
    }
}

/// The rows after a total is recorded for a name: updated where the name has a
/// row, inserted where it has none.
pub open spec fn recorded(rows: Seq<StoredTuition>, first: Seq<char>, last: Seq<char>, total: Money) -> Seq<StoredTuition> {
    if count(rows, first, last) > 0 {
        updated(rows, first, last, total)
    } else {
        inserted(rows, first, last, total)
    }
}

/// The row that a record shows.
pub open spec fn row_of(record: UserTuition) -> StoredTuition {
    StoredTuition {
        first_name: record.first_name@,
        last_name: record.last_name@,
        tuition_cost: record.tuition_cost,
    }
}

/// A reply to a lookup is faithful to the rows when a found record is the one
/// row of that name, with that row's tuition cost.
pub open spec fn faithful_lookup(rows: Seq<StoredTuition>, request: LookupRequest, reply: LookupReply) -> bool {
    match reply {
        LookupReply::Found(record) => {
            &&& count(rows, request.first_name, request.last_name) == 1
            &&& has_name(row_of(record), request.first_name, request.last_name)
            &&& exists|i: int| 0 <= i < rows.len() && #[trigger] rows[i] == row_of(record)
        },
        LookupReply::Failed(_) => true,
    }
}

pub proof fn lemma_count_inserted(rows: Seq<StoredTuition>, first: Seq<char>, last: Seq<char>, cost: Money)
    ensures
        count(inserted(rows, first, last, cost), first, last) == count(rows, first, last) + 1,
{
    assert(inserted(rows, first, last, cost).drop_last() =~= rows);
}

pub proof fn lemma_count_updated(rows: Seq<StoredTuition>, first: Seq<char>, last: Seq<char>, cost: Money)
    ensures
        count(updated(rows, first, last, cost), first, last) == count(rows, first, last),
    decreases rows.len(),
{
    if rows.len() > 0 {
        lemma_count_updated(rows.drop_last(), first, last, cost);
        assert(updated(rows, first, last, cost).drop_last() =~= updated(
            rows.drop_last(),
            first,
            last,
            cost,
        ));
    }
}

/// Where no row is counted for a name, no row has it.
pub proof fn lemma_count_zero(rows: Seq<StoredTuition>, first: Seq<char>, last: Seq<char>)
    requires
        count(rows, first, last) == 0,
    ensures
        forall|i: int| 0 <= i < rows.len() ==> !has_name(#[trigger] rows[i], first, last),
    decreases rows.len(),
{
    if rows.len() > 0 {
        lemma_count_zero(rows.drop_last(), first, last);
        assert forall|i: int| 0 <= i < rows.len() implies !has_name(
            #[trigger] rows[i],
            first,
            last,
        ) by {
            if i < rows.len() - 1 {
                assert(rows[i] == rows.drop_last()[i]);
            }
        }
    }
}

/// After a total is recorded, the name has at least one row, as many rows as
/// before where it had any, and every row of the name holds the total. Rows of
/// other names are as they were.
pub proof fn lemma_recorded(rows: Seq<StoredTuition>, first: Seq<char>, last: Seq<char>, total: Money)
    ensures
        count(recorded(rows, first, last, total), first, last) == if count(rows, first, last) > 0 {
            count(rows, first, last)
        } else {
            1
        },
        forall|i: int|
            0 <= i < recorded(rows, first, last, total).len() && has_name(
                #[trigger] recorded(rows, first, last, total)[i],
                first,
                last,
            ) ==> recorded(rows, first, last, total)[i].tuition_cost == total,
        forall|i: int|
            0 <= i < rows.len() && !has_name(rows[i], first, last) ==> #[trigger] recorded(
                rows,
                first,
                last,
                total,
            )[i] == rows[i],
{
    if count(rows, first, last) > 0 {
        lemma_count_updated(rows, first, last, total);
    } else {
        lemma_count_inserted(rows, first, last, total);
        lemma_count_zero(rows, first, last);
    }
}

/// Recording two totals for one name, one after the other, leaves exactly one
/// row of that name where there was at most one before, and that row holds the
/// second total.
pub proof fn lemma_recorded_twice(
    rows: Seq<StoredTuition>,
    first: Seq<char>,
    last: Seq<char>,
    total1: Money,
    total2: Money,
)
    requires
        count(rows, first, last) <= 1,
    ensures
        ({
            let twice = recorded(recorded(rows, first, last, total1), first, last, total2);
            &&& count(twice, first, last) == 1
            &&& forall|i: int|
                0 <= i < twice.len() && has_name(#[trigger] twice[i], first, last)
                    ==> twice[i].tuition_cost == total2
        }),
{
    lemma_recorded(rows, first, last, total1);
    lemma_recorded(recorded(rows, first, last, total1), first, last, total2);
}

/// A lookup shows what was written: once a total is recorded for a name, a
/// faithful lookup of that name that finds a record finds it with that total.
pub proof fn lemma_lookup_shows_what_was_written(
    rows: Seq<StoredTuition>,
    request: LookupRequest,
    total: Money,
    reply: LookupReply,
)
    requires
        reply is Found,
        faithful_lookup(
            recorded(rows, request.first_name, request.last_name, total),
            request,
            reply,
        ),
    ensures
        reply->Found_0.tuition_cost == total,
        lookup_result(reply) is Ok ==> (lookup_result(reply)->Ok_0).tuition_cost == total,
{
    lemma_recorded(rows, request.first_name, request.last_name, total);
}

/// A calculation that is told truly whether its name has a row asks for the
/// write that records its total: an update where the name has a row, an
/// insertion where it has none.
pub proof fn lemma_write_records_total(rows: Seq<StoredTuition>, c: Calculation)
    requires
        c.stage is Existence,
    ensures
        ({
            let found = count(rows, c.request.first_name@, c.request.last_name@) > 0;
            let step = next_step(c, Reply::Exists(found));
            &&& step is Ask
            &&& step->Ask_0.request == c.request
            &&& after_write(rows, step->Ask_0) == recorded(
                rows,
                c.request.first_name@,
                c.request.last_name@,
                c.stage->Existence_charges.total,
            )
        }),
{
}

/// Until a calculation waits for its write, it writes nothing; a form that is
/// turned down never becomes a calculation at all.
pub proof fn lemma_no_write_before_the_last_step(rows: Seq<StoredTuition>, c: Calculation)
    requires
        !(c.stage is Insert),
        !(c.stage is Update),
    ensures
        after_write(rows, c) == rows,
{
}

/// A lookup of a name that has no row ends in a failure, whatever the store
/// says of its reason.
pub proof fn lemma_lookup_of_unknown_name_fails(
    rows: Seq<StoredTuition>,
    request: LookupRequest,
    reply: LookupReply,
)
    requires
        count(rows, request.first_name, request.last_name) == 0,
        faithful_lookup(rows, request, reply),
    ensures
        reply is Failed,
        lookup_result(reply) == Err::<UserTuition, Failure>(
            Failure::Database(reply->Failed_0),
        ),
{
}

} // verus!
