//! The decisions of the two request handlers.
//!
//! A handler never talks to the record store itself. It is a sequence of
//! steps: each step says what is asked of the store next, the caller asks it
//! and hands the reply to [`Calculation::advance`], until the calculation is
//! done or has failed. A failure ends the request before anything else is
//! asked; the write is the last thing asked, so a failed request leaves
//! nothing half written.

use vstd::prelude::*;
use vstd::string::*;
use crate::form::{
    CalculateTuitionFormParams,
    LookupFormParams,
    TypeSafeLookupFormParams,
    TypeSafeParameters,
    ValidationError,
    tuition_request,
    lookup_request,
};
use crate::money::{Money, zero_amount};
use crate::tuition::{TuitionRates, total_amount, tuition_total, fee_or_zero};

verus! {

/// The amounts of a finished computation.
#[derive(Debug, Clone, Copy, PartialEq, Eq, Structural)]
pub struct Charges {
    pub rates: TuitionRates,
    /// The orientation fee that entered the total: zero where none was asked
    /// for.
    pub orientation_fee: Money,
    pub total: Money,
}

impl Charges {
    /// Every amount can be represented.
    pub open spec fn wf(self) -> bool {
        self.rates.wf() && self.orientation_fee.wf() && self.total.wf()
    }

    pub fn is_well_formed(&self) -> (b: bool)
        ensures
            b == self.wf(),
    {
        self.rates.credits_cost.is_well_formed() && self.rates.nonresidency_fee.is_well_formed()
            && self.orientation_fee.is_well_formed() && self.total.is_well_formed()
    }
}

/// What a calculation is waiting for.
#[derive(Debug, Clone, Copy, PartialEq, Eq, Structural)]
pub enum Stage {
    /// The rates of the request's study level and residency.
    Rates,
    /// The orientation fee.
    OrientationFee { rates: TuitionRates },
    /// Whether a record of the request's name is stored.
    Existence { charges: Charges },
    /// The insertion of a new record with the total.
    Insert { charges: Charges },
    /// The update of the stored record to the total.
    Update { charges: Charges },
}

/// A tuition calculation under way.
#[derive(Debug, Clone, PartialEq, Eq)]
pub struct Calculation {
    pub request: TypeSafeParameters,
    pub stage: Stage,
}

/// What the record store answered.
#[derive(Debug, Clone, PartialEq, Eq)]
pub enum Reply {
    Rates(TuitionRates),
    OrientationFee(Money),
    Exists(bool),
    Written,
    /// The store failed, or did not find exactly one row where one was asked
    /// for; the text is the store's own.
    Failed(String),
}

/// Why a request ended with the error page.
#[derive(Debug, Clone, PartialEq, Eq)]
pub enum Failure {
    Invalid(ValidationError),
    /// A read failed, with the store's detail.
    Database(String),
    /// The insertion failed, with the store's detail.
    Insert(String),
    /// The update failed, with the store's detail.
    Update(String),
    /// An amount from the store cannot be represented.
    Amount,
    /// The total does not fit a decimal amount.
    Overflow,
    /// The reply does not answer what was asked.
    Unexpected,
}

/// A finished calculation, ready to be shown.
#[derive(Debug, Clone, PartialEq, Eq)]
pub struct Receipt {
    pub request: TypeSafeParameters,
    pub charges: Charges,
}

/// Where a calculation stands after a reply.
#[derive(Debug, Clone, PartialEq, Eq)]
pub enum Progress {
    /// Something more is asked of the store.
    Ask(Calculation),
    /// The record is written.
    Done(Receipt),
    Failed(Failure),
}

/// A stored record as the lookup returns it.
#[derive(Debug, Clone, PartialEq, Eq)]
pub struct UserTuition {
    pub first_name: String,
    pub last_name: String,
    pub tuition_cost: Money,
}

/// What the record store answered to a lookup.
#[derive(Debug, Clone, PartialEq, Eq)]
pub enum LookupReply {
    /// Exactly one record has the name.
    Found(UserTuition),
    /// No record, several records, or a failure of the store.
    Failed(String),
}

/// The step after the amounts are known: the total is computed and the store
/// is asked whether the name has a record.
pub open spec fn with_total(request: TypeSafeParameters, rates: TuitionRates, fee: Option<Money>) -> Progress {
    match total_amount(rates, request.num_credits, fee) {
        Some(t) => Progress::Ask(
            Calculation {
                request,
                stage: Stage::Existence {
                    charges: Charges { rates, orientation_fee: fee_or_zero(fee), total: t },
                },
            },
        ),
        None => Progress::Failed(Failure::Overflow),
    }
}

/// The step that a reply leads to.
pub open spec fn next_step(c: Calculation, reply: Reply) -> Progress {
    match c.stage {
        Stage::Rates => match reply {
            Reply::Rates(rates) => if !rates.wf() {
                Progress::Failed(Failure::Amount)
            } else if c.request.orientation {
                Progress::Ask(Calculation { request: c.request, stage: Stage::OrientationFee { rates } })
            } else {
                with_total(c.request, rates, None)
            },
            Reply::Failed(detail) => Progress::Failed(Failure::Database(detail)),
            _ => Progress::Failed(Failure::Unexpected),
        },
        Stage::OrientationFee { rates } => match reply {
            Reply::OrientationFee(fee) => if !rates.wf() || !fee.wf() {
                Progress::Failed(Failure::Amount)
            } else {
                with_total(c.request, rates, Some(fee))
            },
            Reply::Failed(detail) => Progress::Failed(Failure::Database(detail)),
            _ => Progress::Failed(Failure::Unexpected),
        },
        Stage::Existence { charges } => match reply {
            Reply::Exists(true) => Progress::Ask(
                Calculation { request: c.request, stage: Stage::Update { charges } },
            ),
            Reply::Exists(false) => Progress::Ask(
                Calculation { request: c.request, stage: Stage::Insert { charges } },
            ),
            Reply::Failed(detail) => Progress::Failed(Failure::Database(detail)),
            _ => Progress::Failed(Failure::Unexpected),
        },
        Stage::Insert { charges } => match reply {
            Reply::Written => Progress::Done(Receipt { request: c.request, charges }),
            Reply::Failed(detail) => Progress::Failed(Failure::Insert(detail)),
            _ => Progress::Failed(Failure::Unexpected),
        },
        Stage::Update { charges } => match reply {
            Reply::Written => Progress::Done(Receipt { request: c.request, charges }),
            Reply::Failed(detail) => Progress::Failed(Failure::Update(detail)),
            _ => Progress::Failed(Failure::Unexpected),
        },
    }
}

/// The detail of a read that found no row where exactly one was expected.
pub const NO_ROW: &'static str = "no row was found where exactly one was expected";

/// The detail of a read that found several rows where exactly one was
/// expected.
pub const SEVERAL_ROWS: &'static str = "several rows were found where exactly one was expected";

/// The detail of a read that did not find exactly one row.
pub open spec fn row_count_detail(n: nat) -> Seq<char>
    recommends
        n != 1,
{
    if n == 0 {
        NO_ROW@
    } else {
        SEVERAL_ROWS@
    }
}

fn row_count_failure(n: usize) -> (s: String)
    ensures
        s@ == row_count_detail(n as nat),
{
    if n == 0 {
        String::from_str(NO_ROW)
    } else {
        String::from_str(SEVERAL_ROWS)
    }
}

/// The reply to the question for the rates, from the rows that match the
/// request's study level and residency: the rates where exactly one row
/// matches, a failure where none or several do.
pub fn single_rates(rows: Vec<TuitionRates>) -> (r: Reply)
    ensures
        rows@.len() == 1 ==> r == Reply::Rates(rows@[0]),
        rows@.len() != 1 ==> r is Failed && r->Failed_0@ == row_count_detail(rows@.len()),
{
    if rows.len() == 1 {
        Reply::Rates(rows[0])
    } else {
        Reply::Failed(row_count_failure(rows.len()))
    }
}

/// The reply to the question for the orientation fee, from the rows of the
/// fee table: the fee where the table has exactly one row, a failure where it
/// has none or several.
pub fn single_fee(rows: Vec<Money>) -> (r: Reply)
    ensures
        rows@.len() == 1 ==> r == Reply::OrientationFee(rows@[0]),
        rows@.len() != 1 ==> r is Failed && r->Failed_0@ == row_count_detail(rows@.len()),
{
    if rows.len() == 1 {
        Reply::OrientationFee(rows[0])
    } else {
        Reply::Failed(row_count_failure(rows.len()))
    }
}

/// The reply to the question whether a name has a record, from the number of
/// rows of that name.
pub fn existence(rows: usize) -> (r: Reply)
    ensures
        r == Reply::Exists(rows > 0),
{
    Reply::Exists(rows > 0)
}

/// The reply to a lookup, from the rows of the name: the record where exactly
/// one row has the name, a failure where none or several have it.
pub fn single_record(rows: Vec<UserTuition>) -> (r: LookupReply)
    ensures
        rows@.len() == 1 ==> r == LookupReply::Found(rows@[0]),
        rows@.len() != 1 ==> r is Failed && r->Failed_0@ == row_count_detail(rows@.len()),
{
    let mut rows = rows;
    let n: usize = rows.len();
    if n == 1 {
        match rows.pop() {
            Some(record) => LookupReply::Found(record),
            None => LookupReply::Failed(row_count_failure(0)),
        }
    } else {
        LookupReply::Failed(row_count_failure(n))
    }
}

/// Validates the tuition form. A valid form starts a calculation that waits
/// for the rates; an invalid one fails before anything is asked of the store.
pub fn begin_calculation(form: &CalculateTuitionFormParams) -> (r: Result<Calculation, Failure>)
    ensures
        match r {
            Ok(c) => tuition_request(form@) == Ok::<_, ValidationError>(c.request@) && c.stage
                == Stage::Rates,
            Err(f) => tuition_request(form@) is Err && f == Failure::Invalid(
                tuition_request(form@)->Err_0,
            ),
        },
{
    match form.validate() {
        Ok(request) => Ok(Calculation { request, stage: Stage::Rates }),
        Err(e) => Err(Failure::Invalid(e)),
    }
}

/// Computes the total once the amounts are known.
pub fn settle(request: TypeSafeParameters, rates: TuitionRates, fee: Option<Money>) -> (r: Progress)
    requires
        rates.wf(),
        fee is Some ==> fee->0.wf(),
    ensures
        r == with_total(request, rates, fee),
        r is Ask ==> r->Ask_0.stage is Existence && r->Ask_0.stage->Existence_charges.wf(),
{
    match tuition_total(&rates, request.num_credits, fee) {
        Some(t) => {
            let shown = match fee {
                Some(f) => f,
                None => Money::zero(),
            };
            Progress::Ask(
                Calculation {
                    request,
                    stage: Stage::Existence {
                        charges: Charges { rates, orientation_fee: shown, total: t },
                    },
                },
            )
        },
        None => Progress::Failed(Failure::Overflow),
    }
}

impl Calculation {
    /// Takes the store's reply to what this calculation was waiting for and
    /// decides what comes next. A failed read or write ends the calculation,
    /// and so do an amount from the store that cannot be represented, an
    /// overflowing total and a reply that does not answer the question.
    pub fn advance(self, reply: Reply) -> (r: Progress)
        ensures
            r == next_step(self, reply),
            (self.stage is Rates || self.stage is OrientationFee) && r is Ask
                && r->Ask_0.stage is Existence ==> r->Ask_0.stage->Existence_charges.wf(),
    {
        let request = self.request;
        match self.stage {
            Stage::Rates => match reply {
                Reply::Rates(rates) => {
                    if !rates.credits_cost.is_well_formed()
                        || !rates.nonresidency_fee.is_well_formed() {
                        Progress::Failed(Failure::Amount)
                    } else if request.orientation {
                        Progress::Ask(Calculation { request, stage: Stage::OrientationFee { rates } })
                    } else {
                        settle(request, rates, None)
                    }
                },
                Reply::Failed(detail) => Progress::Failed(Failure::Database(detail)),
                _ => Progress::Failed(Failure::Unexpected),
            },
            Stage::OrientationFee { rates } => match reply {
                Reply::OrientationFee(fee) => {
                    if !rates.credits_cost.is_well_formed()
                        || !rates.nonresidency_fee.is_well_formed() || !fee.is_well_formed() {
                        Progress::Failed(Failure::Amount)
                    } else {
                        settle(request, rates, Some(fee))
                    }
                },
                Reply::Failed(detail) => Progress::Failed(Failure::Database(detail)),
                _ => Progress::Failed(Failure::Unexpected),
            },
            Stage::Existence { charges } => match reply {
                Reply::Exists(found) => {
                    if found {
                        Progress::Ask(Calculation { request, stage: Stage::Update { charges } })
                    } else {
                        Progress::Ask(Calculation { request, stage: Stage::Insert { charges } })
                    }
                },
                Reply::Failed(detail) => Progress::Failed(Failure::Database(detail)),
                _ => Progress::Failed(Failure::Unexpected),
            },
            Stage::Insert { charges } => match reply {
                Reply::Written => Progress::Done(Receipt { request, charges }),
                Reply::Failed(detail) => Progress::Failed(Failure::Insert(detail)),
                _ => Progress::Failed(Failure::Unexpected),
            },
            Stage::Update { charges } => match reply {
                Reply::Written => Progress::Done(Receipt { request, charges }),
                Reply::Failed(detail) => Progress::Failed(Failure::Update(detail)),
                _ => Progress::Failed(Failure::Unexpected),
            },
        }
    }
}

/// The amounts agree with the request: the total is the tuition formula on
/// the rates, the request's credits and the fee, and without orientation the
/// fee is zero.
pub open spec fn charges_agree(request: TypeSafeParameters, charges: Charges) -> bool {
    &&& charges.rates.wf()
    &&& charges.orientation_fee.wf()
    &&& total_amount(charges.rates, request.num_credits, Some(charges.orientation_fee)) == Some(
        charges.total,
    )
    &&& !request.orientation ==> charges.orientation_fee == zero_amount()
}

impl Calculation {
    /// What holds of a calculation at every stage that the library leads it
    /// to: the fee is only asked for where orientation was, and from the
    /// existence check on the amounts agree with the request.
    pub open spec fn consistent(self) -> bool {
        match self.stage {
            Stage::Rates => true,
            Stage::OrientationFee { rates } => self.request.orientation && rates.wf(),
            Stage::Existence { charges } => charges_agree(self.request, charges),
            Stage::Insert { charges } => charges_agree(self.request, charges),
            Stage::Update { charges } => charges_agree(self.request, charges),
        }
    }
}

/// Every step keeps a calculation consistent and keeps its request, and the
/// receipt of a finished calculation holds amounts that agree with the
/// request: its total is the tuition formula on the rates that the store
/// gave.
pub proof fn lemma_steps_keep_consistency(c: Calculation, reply: Reply)
    requires
        c.consistent(),
    ensures
        match next_step(c, reply) {
            Progress::Ask(next) => next.consistent() && next.request == c.request,
            Progress::Done(receipt) => receipt.request == c.request && charges_agree(
                receipt.request,
                receipt.charges,
            ),
            Progress::Failed(_) => true,
        },
{
}

/// A write is the last thing a calculation asks for, and it is asked for only
/// after the store has said whether the name has a record. So a request that
/// fails at any earlier step has written nothing, and no request writes twice.
pub proof fn lemma_write_is_the_last_question(c: Calculation, reply: Reply)
    ensures
        next_step(c, reply) is Ask && (next_step(c, reply)->Ask_0.stage is Insert || next_step(
            c,
            reply,
        )->Ask_0.stage is Update) ==> c.stage is Existence,
        c.stage is Insert || c.stage is Update ==> !(next_step(c, reply) is Ask),
{
}

/// Validates the lookup form.
pub fn begin_lookup(form: &LookupFormParams) -> (r: Result<TypeSafeLookupFormParams, Failure>)
    ensures
        match r {
            Ok(p) => lookup_request(form@) == Ok::<_, ValidationError>(p@),
            Err(f) => lookup_request(form@) is Err && f == Failure::Invalid(
                lookup_request(form@)->Err_0,
            ),
        },
{
    match form.validate() {
        Ok(request) => Ok(request),
        Err(e) => Err(Failure::Invalid(e)),
    }
}

/// What a lookup ends with.
pub open spec fn lookup_result(reply: LookupReply) -> Result<UserTuition, Failure> {
    match reply {
        LookupReply::Found(record) => if record.tuition_cost.wf() {
            Ok(record)
        } else {
            Err(Failure::Amount)
        },
        LookupReply::Failed(detail) => Err(Failure::Database(detail)),
    }
}

/// Ends a lookup: the record where exactly one was found, a failure with the
/// store's detail where none was.
pub fn finish_lookup(reply: LookupReply) -> (r: Result<UserTuition, Failure>)
    ensures
        r == lookup_result(reply),
{
    match reply {
        LookupReply::Found(record) => {
            if record.tuition_cost.is_well_formed() {
                Ok(record)
            } else {
                Err(Failure::Amount)
            }
        },
        LookupReply::Failed(detail) => Err(Failure::Database(detail)),
    }
}

impl Failure {
    /// The diagnostic that is written for the operator.
    pub open spec fn message_text(self) -> Seq<char> {
        match self {
            Failure::Invalid(e) => e.message_text(),
            Failure::Database(detail) => "Error while accessing database: "@ + detail@,
            Failure::Insert(detail) => "Error while inserting to the database: "@ + detail@,
            Failure::Update(detail) => "Error while updating the database: "@ + detail@,
            Failure::Amount => "Error while accessing database: amount out of range"@,
            Failure::Overflow => "Error while calculating: the total is out of range"@,
            Failure::Unexpected => "Error while accessing database: unexpected reply"@,
        }
    }

    pub fn message(&self) -> (s: String)
        ensures
            s@ == self.message_text(),
    {
        match self {
            Failure::Invalid(e) => e.message(),
            Failure::Database(detail) => String::from_str("Error while accessing database: ").concat(
                detail.as_str(),
            ),
            Failure::Insert(detail) => String::from_str(
                "Error while inserting to the database: ",
            ).concat(detail.as_str()),
            Failure::Update(detail) => String::from_str(
                "Error while updating the database: ",
            ).concat(detail.as_str()),
            Failure::Amount => String::from_str(
                "Error while accessing database: amount out of range",
            ),
            Failure::Overflow => String::from_str(
                "Error while calculating: the total is out of range",
            ),
            Failure::Unexpected => String::from_str(
                "Error while accessing database: unexpected reply",
            ),
        }
    }
}

} // verus!
