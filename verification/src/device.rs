//! Finding the YubiKey and telling it apart.

use crate::error::WrapError;
use vstd::prelude::*;

verus! {

/// The public key of a slot's certificate.
pub enum SlotKey {
    /// A key on P-256, as the SEC-1 encoding of its point.
    EcP256(Vec<u8>),
    /// A key of any other kind.
    Other,
}

/// How far the search for a YubiKey has come, with what the last step found.
pub enum OpenEvent {
    /// Nothing has been done yet.
    Start,
    /// The smart card service was asked for a context.
    Context(Result<(), String>),
    /// The context was asked for its readers; this many are connected.
    Readers(Result<usize, String>),
    /// A reader was opened.
    Reader(Result<(), String>),
}

/// What the search for a YubiKey does next.
pub enum OpenAction {
    /// Ask the smart card service for a context.
    OpenContext,
    /// Ask the context for its readers.
    ListReaders,
    /// Open the reader at this place of the list.
    OpenReader(usize),
    /// The key is open.
    Ready,
}

/// The step that follows `event`, or why the search has failed.
pub open spec fn open_next(event: OpenEvent) -> Result<OpenAction, WrapError> {
    match event {
        OpenEvent::Start => Ok(OpenAction::OpenContext),
        OpenEvent::Context(Ok(_)) => Ok(OpenAction::ListReaders),
        OpenEvent::Readers(Ok(n)) => if n > 0 {
            Ok(OpenAction::OpenReader(0))
        } else {
            Err(WrapError::NoYubiKey)
        },
        OpenEvent::Reader(Ok(_)) => Ok(OpenAction::Ready),
        OpenEvent::Context(Err(e)) | OpenEvent::Readers(Err(e)) => Err(WrapError::Pcsc(e)),
        OpenEvent::Reader(Err(e)) => Err(WrapError::OpenYubiKey(e)),
    }
}

/// Opens the first available YubiKey, step by step: given what the last step
/// found, the next step, or why the search has failed.
pub fn open_yubikey(event: OpenEvent) -> (r: Result<OpenAction, WrapError>)
    ensures
        r == open_next(event),
        match event {
            OpenEvent::Start => r == Ok::<OpenAction, WrapError>(OpenAction::OpenContext),
            OpenEvent::Context(Ok(_)) => r == Ok::<OpenAction, WrapError>(OpenAction::ListReaders),
            OpenEvent::Context(Err(e)) => r == Err::<OpenAction, WrapError>(WrapError::Pcsc(e)),
            OpenEvent::Readers(Ok(n)) => if n > 0 {
                r == Ok::<OpenAction, WrapError>(OpenAction::OpenReader(0))
            } else {
                r == Err::<OpenAction, WrapError>(WrapError::NoYubiKey)
            },
            OpenEvent::Readers(Err(e)) => r == Err::<OpenAction, WrapError>(WrapError::Pcsc(e)),
            OpenEvent::Reader(Ok(_)) => r == Ok::<OpenAction, WrapError>(OpenAction::Ready),
            OpenEvent::Reader(Err(e)) => r == Err::<OpenAction, WrapError>(
                WrapError::OpenYubiKey(e),
            ),
        },
{
    match event {
        OpenEvent::Start => Ok(OpenAction::OpenContext),
        OpenEvent::Context(Ok(_)) => Ok(OpenAction::ListReaders),
        OpenEvent::Context(Err(e)) => Err(WrapError::Pcsc(e)),
        OpenEvent::Readers(Ok(n)) => {
            if n > 0 {
                Ok(OpenAction::OpenReader(0))
            } else {
                Err(WrapError::NoYubiKey)
            }
        },
        OpenEvent::Readers(Err(e)) => Err(WrapError::Pcsc(e)),
        OpenEvent::Reader(Ok(_)) => Ok(OpenAction::Ready),
        OpenEvent::Reader(Err(e)) => Err(WrapError::OpenYubiKey(e)),
    }
}

/// Verifies that the inserted YubiKey is the one that wrapped the key.
///
/// Checked before any touch-gated operation, so that a wrong key fails fast with
/// a clear message instead of waiting for a touch that can never succeed.
pub fn check_serial(wrapped: u32, actual: u32) -> (r: Result<(), WrapError>)
    ensures
        r is Ok <==> wrapped == actual,
        r matches Err(e) ==> e == (WrapError::SerialMismatch { wrapped, actual }),
{
    if wrapped != actual {
        return Err(WrapError::SerialMismatch { wrapped, actual });
    }
    Ok(())
}

/// What the search for a YubiKey comes to, given what each step finds: the failure
/// of the first step that fails, or no failure.
pub open spec fn open_failure(
    context: Result<(), String>,
    readers: Result<usize, String>,
    reader: Result<(), String>,
) -> Option<WrapError> {
    match open_next(OpenEvent::Start) {
        Err(e) => Some(e),
        Ok(_) => match open_next(OpenEvent::Context(context)) {
            Err(e) => Some(e),
            Ok(_) => match open_next(OpenEvent::Readers(readers)) {
                Err(e) => Some(e),
                Ok(_) => match open_next(OpenEvent::Reader(reader)) {
                    Err(e) => Some(e),
                    Ok(_) => None,
                },
            },
        },
    }
}

/// A search succeeds whenever it can: with a context, at least one reader and a
/// first reader that opens. Otherwise it fails for the first of these that is
/// missing, in the words of the component that failed.
pub proof fn search_succeeds_whenever_it_can(
    context: Result<(), String>,
    readers: Result<usize, String>,
    reader: Result<(), String>,
)
    ensures
        open_failure(context, readers, reader) is None <==> context is Ok && (readers matches Ok(n)
            && n > 0) && reader is Ok,
        context matches Err(e) ==> open_failure(context, readers, reader) == Some(
            WrapError::Pcsc(e),
        ),
        context is Ok ==> (readers matches Err(e) ==> open_failure(context, readers, reader)
            == Some(WrapError::Pcsc(e))),
        context is Ok && readers == Ok::<usize, String>(0) ==> open_failure(
            context,
            readers,
            reader,
        ) == Some(WrapError::NoYubiKey),
        context is Ok && (readers matches Ok(n) && n > 0) ==> (reader matches Err(e)
            ==> open_failure(context, readers, reader) == Some(WrapError::OpenYubiKey(e))),
{
}

/// However many readers there are, the one that is opened is the first; and the
/// steps before and after it are to get a context, to list the readers and to be
/// ready.
pub proof fn first_reader_is_opened(event: OpenEvent)
    ensures
        open_next(OpenEvent::Start) matches Ok(OpenAction::OpenContext),
        open_next(event) matches Ok(OpenAction::ListReaders) <==> (event matches OpenEvent::Context(
            found,
        ) && found is Ok),
        open_next(event) matches Ok(OpenAction::OpenReader(_)) <==> (event
            matches OpenEvent::Readers(found) && found matches Ok(n) && n > 0),
        open_next(event) matches Ok(OpenAction::OpenReader(place)) ==> place == 0,
        open_next(event) matches Ok(OpenAction::Ready) <==> (event matches OpenEvent::Reader(found)
            && found is Ok),
{
}

} // verus!
