//! The orders, the credentials of an account, and what the order handlers
//! answer.

use vstd::prelude::*;
use crate::customers::outcome_view;
use crate::reply::{Reply, ReplyView, Status};

verus! {

pub const ORDER_CREATED: &'static str = "Order created!";

/// The name tag under which every order is stored.
pub const ORDER_NAME: &'static str = "test 0";

/// What a new account registers with.
#[derive(Clone, Debug, PartialEq, Eq)]
pub struct RegisterDetails {
    pub email: String,
    pub password: String,
    pub role: Option<String>,
}

/// What an account logs in with.
#[derive(Clone, Debug, PartialEq, Eq)]
pub struct LoginDetails {
    pub email: String,
    pub password: String,
}

/// A stored order: its name tag, its payload and the time of its creation,
/// each as the text that the store holds.
#[derive(Clone, Debug, PartialEq, Eq)]
pub struct StoredOrder {
    pub name: String,
    pub data: String,
    pub created_at: String,
}

/// An order as the listing shows it: the name tag as its type, the payload
/// as the order.
#[derive(Clone, Debug, PartialEq, Eq)]
pub struct ListedOrder {
    pub kind: String,
    pub order: String,
    pub created_at: String,
}

/// What the creation of an order answers.
pub open spec fn creation_reply(outcome: Result<u64, Seq<char>>) -> ReplyView {
    match outcome {
        Ok(_) => ReplyView { status: Status::Created, body: ORDER_CREATED@ },
        Err(message) => ReplyView { status: Status::InternalServerError, body: message },
    }
}

/// The answer to the creation of an order, from the outcome of its
/// statement: created where it ran, an internal error in the driver's words
/// where it did not.
pub fn create(outcome: Result<u64, String>) -> (reply: Reply)
    ensures
        reply@ == creation_reply(outcome_view(outcome)),
{
    match outcome {
        Ok(_) => Reply::with_text(Status::Created, ORDER_CREATED),
        Err(message) => Reply::internal(message),
    }
}

/// Whether `listed` shows `stored`.
pub open spec fn shows(listed: ListedOrder, stored: StoredOrder) -> bool {
    &&& listed.kind == stored.name
    &&& listed.order == stored.data
    &&& listed.created_at == stored.created_at
}

/// The answer to the listing of the orders: every stored order, in the
/// order of the store, or an internal error in the driver's words.
pub fn get_all(outcome: Result<Vec<StoredOrder>, String>) -> (r: Result<Vec<ListedOrder>, Reply>)
    ensures
        outcome matches Ok(rows) ==> (r matches Ok(listed) && listed@.len() == rows@.len()
            && forall|i: int| 0 <= i < rows@.len() ==> shows(#[trigger] listed@[i], rows@[i])),
        outcome matches Err(message) ==> (r matches Err(reply) && reply@ == (ReplyView {
            status: Status::InternalServerError,
            body: message@,
        })),
{
    match outcome {
        Ok(rows) => {
            let mut listed: Vec<ListedOrder> = Vec::new();
            let mut i: usize = 0;
            while i < rows.len()
                invariant
                    i <= rows@.len(),
                    listed@.len() == i,
                    forall|j: int| 0 <= j < i ==> shows(#[trigger] listed@[j], rows@[j]),
                decreases rows@.len() - i,
            {
                let row = &rows[i];
                listed.push(
                    ListedOrder {
                        kind: row.name.clone(),
                        order: row.data.clone(),
                        created_at: row.created_at.clone(),
                    },
                );
                i = i + 1;
            }
            Ok(listed)
        },
        Err(message) => Err(Reply::internal(message)),
    }
}

} // verus!
