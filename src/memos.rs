use vstd::prelude::*;
use vstd::string::StringExecFns;
use crate::errors::{ApiError, Backend, BackendFailure};
use crate::files::{owned_lookup, StoredFile};

verus! {

#[derive(Debug)]
pub struct CreateMemoRequest {
    pub title: String,
    pub description: Option<String>,
}

#[derive(Debug)]
pub struct CreateMemoMessageRequest {
    pub content: String,
}

/// A memo row as the handlers read it.
#[derive(Debug)]
pub struct MemoRecord {
    pub id: u128,
    pub user_id: u128,
    pub title: String,
    pub description: Option<String>,
}

/// A memo as listed: its row and how many messages it holds.
#[derive(Debug)]
pub struct MemoSummary {
    pub memo: MemoRecord,
    pub message_count: i64,
}

/// The role recorded for a message a user writes.
pub fn user_role() -> (r: String)
    ensures
        r@ == "user"@,
{
    String::from_str("user")
}

/// A newly created memo, which holds no messages yet.
pub fn create_memo(created: Result<MemoRecord, BackendFailure>) -> (r: Result<MemoSummary, ApiError>)
    ensures
        match r {
            Ok(s) => created == Ok::<MemoRecord, BackendFailure>(s.memo) && s.message_count == 0,
            Err(e) => created is Err && e == ApiError::Downstream(Backend::Database),
        },
{
    match created {
        Ok(memo) => Ok(MemoSummary { memo, message_count: 0 }),
        Err(_) => Err(ApiError::Downstream(Backend::Database)),
    }
}

/// A memo's message count; zero where the count could not be read.
pub fn message_count_or_zero(count: Result<i64, BackendFailure>) -> (r: i64)
    ensures
        r == match count {
            Ok(n) => n,
            Err(_) => 0,
        },
{
    match count {
        Ok(n) => n,
        Err(_) => 0,
    }
}

/// A memo with its message count.
pub fn get_memo(memo: MemoRecord, count: Result<i64, BackendFailure>) -> (r: MemoSummary)
    ensures
        r.memo == memo,
        r.message_count == match count {
            Ok(n) => n,
            Err(_) => 0,
        },
{
    MemoSummary { memo, message_count: message_count_or_zero(count) }
}

/// The memos of a user, each with its message count as read for it.
pub fn list_memos(memos: Vec<(MemoRecord, Result<i64, BackendFailure>)>) -> (r: Vec<MemoSummary>)
    ensures
        r@.len() == memos@.len(),
        forall|i: int|
            0 <= i < r@.len() ==> r@[i].memo == memos@[i].0 && r@[i].message_count == match memos@[i].1 {
                Ok(n) => n,
                Err(_) => 0,
            },
{
    let ghost ms = memos@;
    let mut memos = memos;
    let mut out: Vec<MemoSummary> = Vec::new();
    let n = memos.len();
    let mut i: usize = 0;
    while i < n
        invariant
            n == ms.len(),
            i <= n,
            memos@ == ms.subrange(i as int, n as int),
            out@.len() == i,
            forall|j: int|
                0 <= j < i ==> out@[j].memo == ms[j].0 && out@[j].message_count == match ms[j].1 {
                    Ok(c) => c,
                    Err(_) => 0,
                },
        decreases n - i,
    {
        let (memo, count) = memos.remove(0);
        out.push(get_memo(memo, count));
        proof {
            assert(memos@ =~= ms.subrange(i + 1, n as int));
        }
        i = i + 1;
    }
    out
}

/// Any memo handler, after looking the memo up by id and owner.
pub fn memo_lookup(found: Result<Option<MemoRecord>, BackendFailure>) -> (r: Result<MemoRecord, ApiError>)
    ensures
        r == owned_lookup(found, ApiError::MemoNotFound),
{
    match found {
        Err(_) => Err(ApiError::Downstream(Backend::Database)),
        Ok(None) => Err(ApiError::MemoNotFound),
        Ok(Some(m)) => Ok(m),
    }
}

/// Delete a memo: nothing deleted means no such memo of the caller's.
pub fn delete_memo(deleted: Result<bool, BackendFailure>) -> (r: Result<(), ApiError>)
    ensures
        r == match deleted {
            Err(_) => Err(ApiError::Downstream(Backend::Database)),
            Ok(false) => Err(ApiError::MemoNotFound),
            Ok(true) => Ok::<(), ApiError>(()),
        },
{
    match deleted {
        Err(_) => Err(ApiError::Downstream(Backend::Database)),
        Ok(false) => Err(ApiError::MemoNotFound),
        Ok(true) => Ok(()),
    }
}

/// A message's attachments; none where they could not be read.
pub fn attachments_or_empty<T>(found: Result<Vec<T>, BackendFailure>) -> (r: Vec<T>)
    ensures
        r@ == match found {
            Ok(v) => v@,
            Err(_) => Seq::<T>::empty(),
        },
{
    match found {
        Ok(v) => v,
        Err(_) => Vec::new(),
    }
}

/// The messages of a memo, once the memo has been looked up by id and owner and,
/// where it is the caller's, its messages read (`Ok` of nothing where they were
/// not read). A memo that is not the caller's is `MemoNotFound`.
pub fn get_memo_messages<T>(
    memo: Result<Option<MemoRecord>, BackendFailure>,
    messages: Result<Vec<T>, BackendFailure>,
) -> (r: Result<Vec<T>, ApiError>)
    ensures
        match owned_lookup(memo, ApiError::MemoNotFound) {
            Err(e) => r == Err::<Vec<T>, ApiError>(e),
            Ok(_) => match messages {
                Err(_) => r == Err::<Vec<T>, ApiError>(ApiError::Downstream(Backend::Database)),
                Ok(v) => r matches Ok(w) && w@ == v@,
            },
        },
{
    match memo_lookup(memo) {
        Err(e) => Err(e),
        Ok(_) => match messages {
            Err(_) => Err(ApiError::Downstream(Backend::Database)),
            Ok(v) => Ok(v),
        },
    }
}

/// Attach a file to a message: the memo must be the caller's, the message must
/// belong to that memo, and the file must be the caller's; checked in that order.
pub fn attach_file_to_message(
    memo: Result<Option<MemoRecord>, BackendFailure>,
    message: Result<Option<u128>, BackendFailure>,
    file: Result<Option<StoredFile>, BackendFailure>,
) -> (r: Result<(), ApiError>)
    ensures
        r == match owned_lookup(memo, ApiError::MemoNotFound) {
            Err(e) => Err(e),
            Ok(_) => match owned_lookup(message, ApiError::MessageNotFound) {
                Err(e) => Err(e),
                Ok(_) => match owned_lookup(file, ApiError::FileNotFound) {
                    Err(e) => Err(e),
                    Ok(_) => Ok::<(), ApiError>(()),
                },
            },
        },
{
    match memo_lookup(memo) {
        Err(e) => Err(e),
        Ok(_) => match message {
            Err(_) => Err(ApiError::Downstream(Backend::Database)),
            Ok(None) => Err(ApiError::MessageNotFound),
            Ok(Some(_)) => match crate::files::file_lookup(file) {
                Err(e) => Err(e),
                Ok(_) => Ok(()),
            },
        },
    }
}

} // verus!
