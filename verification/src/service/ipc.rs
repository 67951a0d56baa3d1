//! Replies of the helper service.

use crate::error::{in_context, note_error, CoreError, Failure, Message, Note};
use vstd::prelude::*;

verus! {

/// A reply of the service: a code above zero is a refusal, which `message`
/// explains.
#[derive(Debug)]
pub struct IpcResponse<T> {
    pub code: i32,
    pub message: String,
    pub data: Option<T>,
}

/// The refusal that the service explains with `text`.
pub open spec fn refusal(text: String) -> CoreError {
    CoreError::Plain(Message::Reply { text })
}

/// The error that getting no reply at all is.
pub open spec fn no_reply(failure: Failure, unreachable: Note) -> CoreError {
    CoreError::Outside(failure).within(unreachable)
}

/// Whether a request went through.
pub open spec fn done_reply<T>(
    reply: Result<IpcResponse<T>, Failure>,
    unreachable: Note,
) -> Result<(), CoreError> {
    match reply {
        Err(failure) => Err(no_reply(failure, unreachable)),
        Ok(response) => if response.code > 0 {
            Err(refusal(response.message))
        } else {
            Ok(())
        },
    }
}

/// What the service was asked for, where it is owed.
pub open spec fn data_reply<T>(
    reply: Result<IpcResponse<T>, Failure>,
    unreachable: Note,
    missing: Note,
) -> Result<T, CoreError> {
    match reply {
        Err(failure) => Err(no_reply(failure, unreachable)),
        Ok(response) => if response.code > 0 {
            Err(refusal(response.message))
        } else {
            match response.data {
                Some(data) => Ok(data),
                None => Err(CoreError::of(missing)),
            }
        },
    }
}

/// Reads a reply that carries nothing but success or refusal.
pub fn read_done<T>(reply: Result<IpcResponse<T>, Failure>, unreachable: Note) -> (r: Result<
    (),
    CoreError,
>)
    ensures
        r == done_reply(reply, unreachable),
{
    match reply {
        Err(failure) => Err(in_context(CoreError::Outside(failure), unreachable)),
        Ok(response) => if response.code > 0 {
            Err(CoreError::Plain(Message::Reply { text: response.message }))
        } else {
            Ok(())
        },
    }
}

/// Reads a reply that owes data.
pub fn read_data<T>(
    reply: Result<IpcResponse<T>, Failure>,
    unreachable: Note,
    missing: Note,
) -> (r: Result<T, CoreError>)
    ensures
        r == data_reply(reply, unreachable, missing),
{
    match reply {
        Err(failure) => Err(in_context(CoreError::Outside(failure), unreachable)),
        Ok(response) => if response.code > 0 {
            Err(CoreError::Plain(Message::Reply { text: response.message }))
        } else {
            match response.data {
                Some(data) => Ok(data),
                None => Err(note_error(missing)),
            }
        },
    }
}

/// Reads a reply that carries a list; no list is an empty one.
pub fn read_list<T>(reply: Result<IpcResponse<Vec<T>>, Failure>, unreachable: Note) -> (r: Result<
    Vec<T>,
    CoreError,
>)
    ensures
        r is Ok <==> done_reply(reply, unreachable) is Ok,
        r is Err ==> r->Err_0 == done_reply(reply, unreachable)->Err_0,
        r is Ok ==> r->Ok_0@ == (match reply->Ok_0.data {
            Some(list) => list@,
            None => Seq::<T>::empty(),
        }),
{
    match reply {
        Err(failure) => Err(in_context(CoreError::Outside(failure), unreachable)),
        Ok(response) => if response.code > 0 {
            Err(CoreError::Plain(Message::Reply { text: response.message }))
        } else {
            match response.data {
                Some(list) => Ok(list),
                None => Ok(Vec::new()),
            }
        },
    }
}

} // verus!
