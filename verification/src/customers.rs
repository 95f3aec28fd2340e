//! The customer records and what their handlers answer.

use vstd::prelude::*;
use crate::number::{parse_i32, parse_trimmed_i32, parsed_i32, trimmed};
use crate::reply::{Reply, ReplyView, Status};

verus! {

pub const CUSTOMER_NOT_FOUND: &'static str = "Customer not found";

pub const INVALID_CUSTOMER_ID: &'static str = "Invalid customer id";

/// The query of a user listing.
#[derive(Clone, Debug, PartialEq, Eq)]
pub struct UsersRequest {
    pub email: Option<String>,
}

/// An account of the application.
#[derive(Clone, Debug, PartialEq, Eq)]
pub struct User {
    pub id: i32,
    pub external_id: Option<String>,
    pub email: String,
    pub role: Option<String>,
}

/// What an account says of its holder.
#[derive(Clone, Debug, PartialEq, Eq)]
pub struct PersonalInformation {
    pub fistname: Option<String>,
    pub lastname: Option<String>,
    pub dob: Option<String>,
    pub sex: Option<String>,
}

/// An order as an account lists it.
#[derive(Clone, Debug, PartialEq, Eq)]
pub struct Order {
    pub external_id: Option<String>,
    pub amount: Option<String>,
    pub extra_data: Option<String>,
    pub status: Option<String>,
}

/// A change of one column of a customer.
#[derive(Clone, Debug, PartialEq, Eq)]
pub struct ChangeRequest {
    pub columnname: String,
    pub new_value: String,
    pub email: String,
}

/// A customer to be created for the account with the address `userEmail`.
#[derive(Clone, Debug, PartialEq, Eq)]
#[allow(non_snake_case)]
pub struct NewCustomer {
    pub firstName: String,
    pub lastName: String,
    pub email: String,
    pub phone: String,
    pub priority: i32,
    pub userEmail: String,
}

/// The outcome of one statement, with its text taken as a sequence: the
/// number of rows that it touched, or the driver's message.
pub open spec fn outcome_view(outcome: Result<u64, String>) -> Result<u64, Seq<char>> {
    match outcome {
        Ok(rows) => Ok(rows),
        Err(message) => Err(message@),
    }
}

/// What the creation of a customer answers: success with no text where
/// the statement ran, an internal error in the driver's words where it did
/// not.
pub open spec fn statement_reply(outcome: Result<u64, Seq<char>>) -> ReplyView {
    match outcome {
        Ok(_) => ReplyView { status: Status::Success, body: Seq::empty() },
        Err(message) => ReplyView { status: Status::InternalServerError, body: message },
    }
}

/// The answer to the creation of a customer, from the outcome of its
/// statement.
pub fn create_customer(outcome: Result<u64, String>) -> (reply: Reply)
    ensures
        reply@ == statement_reply(outcome_view(outcome)),
{
    match outcome {
        Ok(_) => Reply { status: Status::Success, body: String::new() },
        Err(message) => Reply::internal(message),
    }
}

/// What a statement that aims at one customer answers: not found where it
/// touched no row, success with no text where it touched one, an internal
/// error in the driver's words where it failed.
pub open spec fn targeted_reply(outcome: Result<u64, Seq<char>>) -> ReplyView {
    match outcome {
        Ok(rows) => if rows == 0 {
            ReplyView { status: Status::NotFound, body: CUSTOMER_NOT_FOUND@ }
        } else {
            ReplyView { status: Status::Success, body: Seq::empty() }
        },
        Err(message) => ReplyView { status: Status::InternalServerError, body: message },
    }
}

fn reply_to_targeted(outcome: Result<u64, String>) -> (reply: Reply)
    ensures
        reply@ == targeted_reply(outcome_view(outcome)),
{
    match outcome {
        Ok(rows) => if rows == 0 {
            Reply::with_text(Status::NotFound, CUSTOMER_NOT_FOUND)
        } else {
            Reply { status: Status::Success, body: String::new() }
        },
        Err(message) => Reply::internal(message),
    }
}

/// The answer to the deletion of a customer, from the outcome of its
/// statement: not found where the account has no customer of that id.
pub fn destroy_customer(outcome: Result<u64, String>) -> (reply: Reply)
    ensures
        reply@ == targeted_reply(outcome_view(outcome)),
{
    reply_to_targeted(outcome)
}

/// The answer to the change of one column of a customer, from the outcome
/// of its statement: not found where the account has no customer of that
/// id.
pub fn edit_customer(outcome: Result<u64, String>) -> (reply: Reply)
    ensures
        reply@ == targeted_reply(outcome_view(outcome)),
{
    reply_to_targeted(outcome)
}

/// The text in which a customer's id is looked for: the parameter as it
/// came, or without the white space around it.
pub open spec fn id_text(text: Seq<char>, trim: bool) -> Seq<char> {
    if trim {
        trimmed(text)
    } else {
        text
    }
}

/// Whether the reply is the refusal of a parameter that is no id.
pub open spec fn is_id_refusal(reply: Reply) -> bool {
    reply@ == (ReplyView { status: Status::BadRequest, body: INVALID_CUSTOMER_ID@ })
}

/// Reads the id of a customer out of a path parameter. A parameter that
/// writes no 32-bit number is answered with a bad request, and no statement
/// is run for it.
pub fn customer_id(text: &str, trim: bool) -> (r: Result<i32, Reply>)
    ensures
        parsed_i32(id_text(text@, trim)) matches Some(id) ==> r == Ok::<i32, Reply>(id),
        parsed_i32(id_text(text@, trim)) is None ==> (r matches Err(reply) && is_id_refusal(reply)),
{
    let parsed = if trim {
        parse_trimmed_i32(text)
    } else {
        parse_i32(text)
    };
    match parsed {
        Some(id) => Ok(id),
        None => Err(Reply::with_text(Status::BadRequest, INVALID_CUSTOMER_ID)),
    }
}

/// A deletion or an edit that names a customer who is not there touches no
/// row and is answered with not found; it is answered with success exactly
/// where a row was touched.
pub proof fn lemma_missing_customer_is_not_found(rows: u64)
    ensures
        targeted_reply(Ok(rows)).status == Status::NotFound <==> rows == 0,
        targeted_reply(Ok(rows)).status == Status::Success <==> rows > 0,
{
}

} // verus!
