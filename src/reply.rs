use vstd::prelude::*;
use crate::categories::{name_views, CategoryIndex};
use crate::fortune::{
    error_message, fortune_from_run, fortune_outcome, outcome_view, run_view, FortuneError,
    ProgramRun,
};

verus! {

/// The status of a reply that carries what was asked for.
pub const STATUS_OK: u16 = 200;

/// The status of a reply that carries an error message.
pub const STATUS_NOT_FOUND: u16 = 404;

/// A reply to a request: its status code and its body.
#[derive(Debug)]
pub struct Reply {
    pub status: u16,
    pub body: String,
}

/// Which of the two handlers a request goes to.
#[derive(Clone, Copy, Debug, PartialEq, Eq, Structural)]
pub enum Route {
    /// The list of categories.
    Categories,
    /// A fortune, drawn from the category that the query names.
    Fortune,
}

/// The path under which the categories are listed.
pub open spec fn categories_path() -> Seq<char> {
    "/categories"@
}

/// Requests go by their path: the categories path exactly, or anything else.
pub open spec fn route_of(path: Seq<char>) -> Route {
    if path == categories_path() {
        Route::Categories
    } else {
        Route::Fortune
    }
}

/// The text of a JSON object whose keys are `keys`, each with a null value,
/// as serde_json writes it.
pub uninterp spec fn object_json(keys: Set<Seq<char>>) -> Seq<char>;

/// The body of the categories reply, given what serialising the category
/// set gave: that text, or `[]` when serialising failed.
pub open spec fn categories_body(serialized: Option<Seq<char>>) -> Seq<char> {
    match serialized {
        Some(text) => text,
        None => "[]"@,
    }
}

/// The status and body of the reply to a fortune outcome.
pub open spec fn fortune_reply_of(outcome: Result<Seq<char>, FortuneError>) -> (u16, Seq<char>) {
    match outcome {
        Ok(text) => (STATUS_OK, text),
        Err(e) => (STATUS_NOT_FOUND, error_message(e)),
    }
}

/// Relies on serde_json::to_string, on a serde_json::Map that maps each name
/// to null. Without its `preserve_order` feature that map is ordered by key,
/// so the text depends on the set of names alone. It succeeds: the keys are
/// strings, null always serialises, and the output goes to a `Vec`.
#[verifier::external_body]
fn names_to_json_object(names: &Vec<String>) -> (r: Option<String>)
    ensures
        r is Some,
        r->0@ == object_json(name_views(names@).to_set()),
{
    let object: serde_json::Map<String, serde_json::Value> = names
        .iter()
        .map(|n| (n.clone(), serde_json::Value::Null))
        .collect();
    serde_json::to_string(&object).ok()
}

/// Sends a request to its handler by its path.
pub fn route(path: &str) -> (r: Route)
    ensures
        r == route_of(path@),
{
    let categories = "/categories".to_owned();
    let path = path.to_owned();
    if path == categories {
        Route::Categories
    } else {
        Route::Fortune
    }
}

/// The categories reply, given what serialising the category set gave.
pub fn categories_reply_from(serialized: Option<String>) -> (r: Reply)
    ensures
        r.status == STATUS_OK,
        r.body@ == categories_body(
            match serialized {
                Some(s) => Some(s@),
                None => None,
            },
        ),
{
    match serialized {
        Some(text) => Reply { status: STATUS_OK, body: text },
        None => Reply { status: STATUS_OK, body: "[]".to_owned() },
    }
}

/// The reply to a request for the categories: a JSON object whose keys are
/// the index's categories.
pub fn categories_reply(index: &CategoryIndex) -> (r: Reply)
    ensures
        r.status == STATUS_OK,
        r.body@ == object_json(index@),
{
    categories_reply_from(names_to_json_object(index.names()))
}

/// The reply to a fortune outcome: the fortune with status 200, or the
/// error's message with status 404.
pub fn fortune_reply(result: Result<String, FortuneError>) -> (r: Reply)
    ensures
        (r.status, r.body@) == fortune_reply_of(outcome_view(result)),
{
    match result {
        Ok(text) => Reply { status: STATUS_OK, body: text },
        Err(e) => Reply { status: STATUS_NOT_FOUND, body: e.message() },
    }
}

/// The reply to a fortune request, given what the program's run gave back
/// (`None` when it could not be started).
pub fn reply_for_run(run: Option<ProgramRun>) -> (r: Reply)
    ensures
        (r.status, r.body@) == fortune_reply_of(fortune_outcome(run_view(run))),
{
    fortune_reply(fortune_from_run(run))
}

} // verus!
