//! Errors that the domain rules report.
use vstd::prelude::*;

verus! {

/// A rule of the domain that a request broke.
#[derive(Debug, Clone, Copy, PartialEq, Eq)]
pub enum DomainError {
    /// A rule without a variant of its own, with its message.
    Static(&'static str),
    /// The WIP column is full: it holds its limit (the value) of items.
    WipLimitExceeded(usize),
    /// The To Do column is full: it holds its limit (the value) of items.
    TodoLimitExceeded(usize),
    AlreadyInColumn,
    BoardMemberLimitExceeded,
    /// The board has no member with this user id.
    MemberNotFound(u128),
}

/// What a domain rule gives back.
pub type DomainResult<T> = Result<T, DomainError>;

/// The message of a `Static` error, as a sequence of characters.
pub open spec fn static_message(e: DomainError) -> Seq<char> {
    match e {
        DomainError::Static(m) => m@,
        _ => Seq::empty(),
    }
}

/// `e` is the `Static` error with message `msg`.
pub open spec fn is_static_error(e: DomainError, msg: Seq<char>) -> bool {
    e is Static && static_message(e) == msg
}

} // verus!
