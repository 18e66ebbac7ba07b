//! The request handlers, as far as they decide anything.
//!
//! A handler that renders works in two steps with the render sink between
//! them: it first says what is to be rendered, and
//! [`render_or_error`](crate::response::render_or_error) then turns the
//! sink's outcome into the response.

use crate::diagnostic::{diagnose, is_record_of, LogRecord, SAMPLE_RESOLUTION};
use crate::response::{BodyKind, HttpResponse, STATUS_OK};
use crate::shared::SharedTodoStore;
use crate::store::TodoListView;
use vstd::prelude::*;

verus! {

/// A submitted form: the text of one new todo item.
#[derive(Debug)]
pub struct TodoRequest {
    pub todo: String,
}

/// What adding a todo leaves to be done: a list to render and a record to log.
#[derive(Debug)]
pub struct TodoAdded {
    pub view: TodoListView,
    pub record: LogRecord,
}

/// The text that the greeting endpoint answers with.
pub open spec fn greeting() -> Seq<char> {
    "HELSJALKDJKASDa"@
}

/// Answers the greeting endpoint: status 200 and the fixed text, as plain
/// text. Nothing is rendered.
pub fn hello_from_the_server() -> (response: HttpResponse)
    ensures
        response.holds(STATUS_OK, BodyKind::PlainText, greeting()),
{
    HttpResponse {
        status: STATUS_OK,
        kind: BodyKind::PlainText,
        body: "HELSJALKDJKASDa".to_string(),
    }
}

/// Adds the requested item to the store and runs the diagnostic branch once.
///
/// The snapshot to render ends with the requested item, whatever other
/// requests did meanwhile. The record to log is that of the one sample
/// drawn; it has no bearing on the snapshot.
pub fn add_todo(store: &SharedTodoStore, request: TodoRequest) -> (added: TodoAdded)
    ensures
        added.view@.len() > 0,
        added.view@.last() == request.todo@,
        exists|n: int| 0 <= n < SAMPLE_RESOLUTION && is_record_of(added.record, n),
{
    let view = store.append(request.todo);
    let record = diagnose();
    TodoAdded { view, record }
}

} // verus!
