//! Why a request for access is refused, and what is said about it.

use vstd::prelude::*;
use vstd::string::StringExecFns;

verus! {

/// Why a request for access is refused.
#[derive(Clone, Copy, Debug, PartialEq, Eq, Structural)]
pub enum BorrowError {
    /// A request to read what is being written.
    Immutable,
    /// A request to write what is being read or written.
    Mutable,
    /// A request to read what already has as many readers as can be counted.
    TooManyReaders,
}

/// `before`, then `name`, then `after`.
fn name_between(before: &str, name: &str, after: &str) -> (message: String)
    ensures
        message@ == before@ + name@ + after@,
{
    let mut message = String::new();
    message.append(before);
    message.append(name);
    message.append(after);
    message
}

impl BorrowError {
    /// What is said when access to a resource whose type is called `name` is refused.
    pub open spec fn spec_message(self, name: Seq<char>) -> Seq<char> {
        match self {
            BorrowError::Immutable => "Attempted to immutably access "@ + name
                + ", but it is already mutably borrowed"@,
            BorrowError::Mutable => "Attempted to mutably access "@ + name
                + ", but it is already mutably borrowed"@,
            BorrowError::TooManyReaders => "attempt to add with overflow"@,
        }
    }

    /// What is said when access to a resource whose type is called `name` is refused.
    pub fn message(&self, name: &str) -> (message: String)
        ensures
            message@ == self.spec_message(name@),
            self is Immutable ==> message@ == "Attempted to immutably access "@ + name@
                + ", but it is already mutably borrowed"@,
            self is Mutable ==> message@ == "Attempted to mutably access "@ + name@
                + ", but it is already mutably borrowed"@,
            self is TooManyReaders ==> message@ == "attempt to add with overflow"@,
    {
        match self {
            BorrowError::Immutable => name_between(
                "Attempted to immutably access ",
                name,
                ", but it is already mutably borrowed",
            ),
            BorrowError::Mutable => name_between(
                "Attempted to mutably access ",
                name,
                ", but it is already mutably borrowed",
            ),
            BorrowError::TooManyReaders => "attempt to add with overflow".to_owned(),
        }
    }
}

/// What is said when a resource whose type is called `name` is missing.
pub fn missing_resource_message(name: &str) -> (message: String)
    ensures
        message@ == "Requested resource "@ + name@
            + " does not exist in the `World`. \n                Did you forget to add it using `app.insert_resource` / `app.init_resource`? \n                Resources are also implicitly added via `app.add_event`,\n                and can be added by plugins."@,
{
    name_between(
        "Requested resource ",
        name,
        " does not exist in the `World`. \n                Did you forget to add it using `app.insert_resource` / `app.init_resource`? \n                Resources are also implicitly added via `app.add_event`,\n                and can be added by plugins.",
    )
}

/// What is said when a non-send resource whose type is called `name` is missing.
pub fn missing_non_send_resource_message(name: &str) -> (message: String)
    ensures
        message@ == "Requested non-send resource "@ + name@
            + " does not exist in the `World`. \n                Did you forget to add it using `app.insert_non_send_resource` / `app.init_non_send_resource`? \n                Non-send resources can also be be added by plugins."@,
{
    name_between(
        "Requested non-send resource ",
        name,
        " does not exist in the `World`. \n                Did you forget to add it using `app.insert_non_send_resource` / `app.init_non_send_resource`? \n                Non-send resources can also be be added by plugins.",
    )
}

/// What is said when an event whose type is called `name` is sent and there is no queue to take it.
pub fn missing_events_message(name: &str) -> (message: String)
    ensures
        message@ == "Unable to send event `"@ + name@
            + "`\n\tEvent must be added to the app with `add_event()`\n\thttps://docs.rs/bevy/*/bevy/app/struct.App.html#method.add_event "@,
{
    name_between(
        "Unable to send event `",
        name,
        "`\n\tEvent must be added to the app with `add_event()`\n\thttps://docs.rs/bevy/*/bevy/app/struct.App.html#method.add_event ",
    )
}

} // verus!
