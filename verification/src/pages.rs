//! The pages that answer a request, and the response that carries them.
//!
//! Every response, the error page too, has the same status: a failure is told
//! to the operator in the log line and to nobody else.

use vstd::prelude::*;
use vstd::string::*;
use crate::form::{StudentResidency, StudentStudies, TypeSafeParameters};
use crate::money::decimal_text;
use crate::text::{number_text, number_to_text};
use crate::handler::{Charges, Failure, Receipt, UserTuition};

verus! {

/// The status of every response.
pub const STATUS_OK: u16 = 200u16;

/// The page that every failed request is answered with.
pub const ERROR_PAGE: &'static str = "<!DOCTYPE html>\n<html>\n    <head>\n        <link rel=\"stylesheet\" type=\"text/css\" href=\"style.css\" />\n        <meta charset=utf-8>\n    </head>\n    <body>\n        <section>\n            <h1>Error</h1>\n            <p>Something went wrong with your request.</p>\n        </section>\n    </body>\n</html>\n";

/// The start of the log line of a finished calculation.
pub const TOTAL_LOG: &'static str = "The total tuition cost is $";

/// The lookup page up to the name.
pub const LOOKUP_HEAD: &'static str = "\n        <html>\n            <head>\n                <link rel=\"stylesheet\" type=\"text/css\" href=\"style.css\" />\n                <meta charset=utf-8>\n            </head>\n            <body>\n                <section>\n                    <table>\n                        <tr>\n                            <th>Name</th>\n                            <th>Tuition</th>\n                        </tr>\n                        <tr>\n                            <td>";

/// The lookup page between the name and the tuition.
pub const LOOKUP_COST: &'static str = "</td>\n                            <td>$";

/// The lookup page behind the tuition.
pub const LOOKUP_TAIL: &'static str = "</td>\n                        </tr>\n                    </table>\n                </section>\n            </body>\n        </html>\n    ";

/// The results page up to the name.
pub const RECEIPT_HEAD: &'static str = " \n    <!DOCTYPE html>\n    <html>\n        <head>\n            <link rel=\"stylesheet\" type=\"text/css\" href=\"style.css\" />\n        </head>\n        <body>\n            <section>\n                <h1>Tuition Results</h1>\n                <p>Name: ";

/// The results page from the name to the first cell of the table.
pub const RECEIPT_TABLE: &'static str = "</p>\n                <table>\n                    <tr>\n                        <th>Residency</th>\n                        <th>Studies</th>\n                        <th>New Student Status</th>\n                        <th>Orientation Fee</th>\n                        <th>Non-Residency Fee</th>\n                        <th>Number of Credits</th>\n                        <th>Costs per Credit</th>\n                    </tr>\n                    <tr>\n                        <td>";

/// The step from one cell of the table to a cell of text.
pub const NEXT_CELL: &'static str = "</td>\n                        <td>";

/// The step from one cell of the table to a cell that holds an amount.
pub const NEXT_AMOUNT_CELL: &'static str = "</td>\n                        <td>$";

/// The results page from the last cell to the total.
pub const RECEIPT_TOTAL: &'static str = "</td>\n                    </tr>\n                </table>\n                <p><b>Total: </b> $";

/// The results page behind the total.
pub const RECEIPT_TAIL: &'static str = "</p>\n            </section>\n        </body>\n    </html>";

/// What is sent back, and what is written for the operator.
#[derive(Debug, Clone, PartialEq, Eq)]
pub struct Response {
    pub status: u16,
    pub body: String,
    pub log: Option<String>,
}

pub open spec fn residency_label(r: StudentResidency) -> Seq<char> {
    match r {
        StudentResidency::In => "Resident"@,
        StudentResidency::Out => "Non-Resident"@,
    }
}

pub open spec fn studies_label(s: StudentStudies) -> Seq<char> {
    match s {
        StudentStudies::Undergraduate => "Undergraduate"@,
        StudentStudies::Graduate => "Graduate"@,
    }
}

pub open spec fn yes_no(b: bool) -> Seq<char> {
    if b {
        "Yes"@
    } else {
        "No"@
    }
}

/// The lookup page: a table of one row with the name and the tuition.
pub open spec fn lookup_page_text(first: Seq<char>, last: Seq<char>, cost: Seq<char>) -> Seq<char> {
    LOOKUP_HEAD@ + first + " "@ + last + LOOKUP_COST@ + cost + LOOKUP_TAIL@
}

/// The written amounts of a results page.
pub struct AmountTexts {
    pub orientation_fee: Seq<char>,
    pub nonresidency_fee: Seq<char>,
    pub credits_cost: Seq<char>,
    pub total: Seq<char>,
}

/// The results page: the name, a table of one row with residency, study
/// level, new-student status, orientation fee, non-residency fee, number of
/// credits and cost of a credit, and the total below it.
pub open spec fn receipt_page_text(request: TypeSafeParameters, amounts: AmountTexts) -> Seq<char> {
    RECEIPT_HEAD@ + request.first_name@ + " "@ + request.last_name@ + RECEIPT_TABLE@
        + residency_label(request.student_type) + NEXT_CELL@ + studies_label(
        request.student_studies,
    ) + NEXT_CELL@ + yes_no(request.new_student) + NEXT_AMOUNT_CELL@ + amounts.orientation_fee
        + NEXT_AMOUNT_CELL@ + amounts.nonresidency_fee + NEXT_CELL@ + number_text(
        request.num_credits,
    ) + NEXT_AMOUNT_CELL@ + amounts.credits_cost + RECEIPT_TOTAL@ + amounts.total + RECEIPT_TAIL@
}

/// The amounts of a finished calculation as the decimal arithmetic writes
/// them.
pub open spec fn charges_texts(c: Charges) -> AmountTexts {
    AmountTexts {
        orientation_fee: decimal_text(c.orientation_fee.mantissa, c.orientation_fee.scale),
        nonresidency_fee: decimal_text(
            c.rates.nonresidency_fee.mantissa,
            c.rates.nonresidency_fee.scale,
        ),
        credits_cost: decimal_text(c.rates.credits_cost.mantissa, c.rates.credits_cost.scale),
        total: decimal_text(c.total.mantissa, c.total.scale),
    }
}

pub fn residency_name(r: StudentResidency) -> (s: &'static str)
    ensures
        s@ == residency_label(r),
{
    match r {
        StudentResidency::In => "Resident",
        StudentResidency::Out => "Non-Resident",
    }
}

pub fn studies_name(s: StudentStudies) -> (t: &'static str)
    ensures
        t@ == studies_label(s),
{
    match s {
        StudentStudies::Undergraduate => "Undergraduate",
        StudentStudies::Graduate => "Graduate",
    }
}

/// Lays out the lookup page from the name and the written tuition.
pub fn lookup_page(first: &str, last: &str, cost: &str) -> (page: String)
    ensures
        page@ == lookup_page_text(first@, last@, cost@),
{
    let mut page: String = String::from_str(LOOKUP_HEAD);
    page.append(first);
    page.append(" ");
    page.append(last);
    page.append(LOOKUP_COST);
    page.append(cost);
    page.append(LOOKUP_TAIL);
    page
}

/// Lays out the results page from the request and the written amounts.
pub fn receipt_page(
    request: &TypeSafeParameters,
    orientation_fee: &str,
    nonresidency_fee: &str,
    credits_cost: &str,
    total: &str,
) -> (page: String)
    ensures
        page@ == receipt_page_text(
            *request,
            AmountTexts {
                orientation_fee: orientation_fee@,
                nonresidency_fee: nonresidency_fee@,
                credits_cost: credits_cost@,
                total: total@,
            },
        ),
{
    let credits: String = number_to_text(request.num_credits);
    let mut page: String = String::from_str(RECEIPT_HEAD);
    page.append(request.first_name.as_str());
    page.append(" ");
    page.append(request.last_name.as_str());
    page.append(RECEIPT_TABLE);
    page.append(residency_name(request.student_type));
    page.append(NEXT_CELL);
    page.append(studies_name(request.student_studies));
    page.append(NEXT_CELL);
    page.append(if request.new_student { "Yes" } else { "No" });
    page.append(NEXT_AMOUNT_CELL);
    page.append(orientation_fee);
    page.append(NEXT_AMOUNT_CELL);
    page.append(nonresidency_fee);
    page.append(NEXT_CELL);
    page.append(credits.as_str());
    page.append(NEXT_AMOUNT_CELL);
    page.append(credits_cost);
    page.append(RECEIPT_TOTAL);
    page.append(total);
    page.append(RECEIPT_TAIL);
    page
}

/// The answer to a failed request: the error page, the same whatever failed,
/// and the failure's message for the operator.
pub fn failure_response(failure: &Failure) -> (r: Response)
    ensures
        r.status == STATUS_OK,
        r.body@ == ERROR_PAGE@,
        r.log is Some,
        r.log->0@ == failure.message_text(),
{
    Response { status: STATUS_OK, body: String::from_str(ERROR_PAGE), log: Some(failure.message()) }
}

/// The answer to a lookup that found its record. A record whose amount cannot
/// be represented is answered as a failure.
pub fn lookup_response(record: &UserTuition) -> (r: Response)
    ensures
        r.status == STATUS_OK,
        record.tuition_cost.wf() ==> r.log is None && r.body@ == lookup_page_text(
            record.first_name@,
            record.last_name@,
            decimal_text(record.tuition_cost.mantissa, record.tuition_cost.scale),
        ),
        !record.tuition_cost.wf() ==> r.body@ == ERROR_PAGE@ && r.log is Some && r.log->0@
            == Failure::Amount.message_text(),
{
    if record.tuition_cost.is_well_formed() {
        let cost: String = record.tuition_cost.text();
        Response {
            status: STATUS_OK,
            body: lookup_page(record.first_name.as_str(), record.last_name.as_str(), cost.as_str()),
            log: None,
        }
    } else {
        failure_response(&Failure::Amount)
    }
}

/// The answer to a finished calculation: the results page, and the total for
/// the operator. A receipt with an amount that cannot be represented is
/// answered as a failure.
pub fn receipt_response(receipt: &Receipt) -> (r: Response)
    ensures
        r.status == STATUS_OK,
        receipt.charges.wf() ==> r.body@ == receipt_page_text(
            receipt.request,
            charges_texts(receipt.charges),
        ) && r.log is Some && r.log->0@ == TOTAL_LOG@ + decimal_text(
            receipt.charges.total.mantissa,
            receipt.charges.total.scale,
        ),
        !receipt.charges.wf() ==> r.body@ == ERROR_PAGE@ && r.log is Some && r.log->0@
            == Failure::Amount.message_text(),
{
    if receipt.charges.is_well_formed() {
        let fee: String = receipt.charges.orientation_fee.text();
        let nonresidency: String = receipt.charges.rates.nonresidency_fee.text();
        let cost: String = receipt.charges.rates.credits_cost.text();
        let total: String = receipt.charges.total.text();
        let body = receipt_page(
            &receipt.request,
            fee.as_str(),
            nonresidency.as_str(),
            cost.as_str(),
            total.as_str(),
        );
        let log: String = String::from_str(TOTAL_LOG).concat(total.as_str());
        Response { status: STATUS_OK, body, log: Some(log) }
    } else {
        failure_response(&Failure::Amount)
    }
}

} // verus!
