//! Translation of a native status handle into an outcome, with the guarantee
//! that the handle is released exactly once.
//!
//! The native calls themselves (reading the message, releasing the handle)
//! happen outside this module: the wrapper tells its driver which call to make
//! next and takes back what the call produced.

use vstd::prelude::*;
use crate::error::{DetailView, ErrorInternal};

verus! {

/// What UTF-8 decoding makes of a byte sequence: the characters, or `None`
/// when the bytes are not valid UTF-8.
pub uninterp spec fn utf8_decoded(b: Seq<u8>) -> Option<Seq<char>>;

/// Relies on `String::from_utf8`: `Ok` exactly when the bytes are valid UTF-8,
/// and the result depends on the bytes alone.
#[verifier::external_body]
fn string_from_utf8(bytes: Vec<u8>) -> (r: Result<String, std::string::FromUtf8Error>)
    ensures
        match r {
            Ok(s) => utf8_decoded(bytes@) == Some(s@),
            Err(_) => utf8_decoded(bytes@) is None,
        },
{
    String::from_utf8(bytes)
}

/// The detail that a native message with these bytes yields.
pub open spec fn detail_of(message: Seq<u8>) -> DetailView {
    match utf8_decoded(message) {
        Some(m) => DetailView::Msg(m),
        None => DetailView::Undecodable,
    }
}

/// Decodes the bytes of a native error message.
pub fn message_to_detail(message: Vec<u8>) -> (r: ErrorInternal)
    ensures
        r.view() == detail_of(message@),
{
    match string_from_utf8(message) {
        Ok(s) => ErrorInternal::Msg(s),
        Err(e) => ErrorInternal::IntoStringError(e),
    }
}


/// The native call that a status wrapper asks its driver to make next.
#[derive(PartialEq, Eq, Structural, Clone, Copy, Debug)]
pub enum StatusAction {
    /// Read the message that the handle owns.
    ReadMessage,
    /// Release the handle; after that the wrapper yields its outcome.
    Release,
}

/// The state of a status wrapper: the handle's address (zero is the null
/// handle, meaning success) and the detail decoded from its message, once read.
pub struct StatusView {
    pub status: usize,
    pub detail: Option<DetailView>,
}

impl StatusView {
    /// A wrapper that has just taken ownership of `status`.
    pub open spec fn fresh(status: usize) -> StatusView {
        StatusView { status, detail: None }
    }

    pub open spec fn action(self) -> StatusAction {
        if self.status == 0 || self.detail is Some {
            StatusAction::Release
        } else {
            StatusAction::ReadMessage
        }
    }

    /// The state once the driver has handed back the message it read; a
    /// message that was not asked for changes nothing.
    pub open spec fn after_message(self, message: Seq<u8>) -> StatusView {
        if self.action() == StatusAction::ReadMessage {
            StatusView { status: self.status, detail: Some(detail_of(message)) }
        } else {
            self
        }
    }

    pub open spec fn outcome(self) -> Result<(), DetailView> {
        match self.detail {
            Some(d) => Err(d),
            None => Ok(()),
        }
    }
}

pub open spec fn outcome_view(r: Result<(), ErrorInternal>) -> Result<(), DetailView> {
    match r {
        Ok(()) => Ok(()),
        Err(e) => Err(e.view()),
    }
}

/// Owns one native status handle, given by its address (zero is null).
///
/// The wrapper is consumed by [`OrtStatusWrapper::released`], the only way to
/// obtain its outcome, so the release it asks for happens once per handle.
pub struct OrtStatusWrapper {
    status: usize,
    detail: Option<ErrorInternal>,
}

impl View for OrtStatusWrapper {
    type V = StatusView;

    closed spec fn view(&self) -> StatusView {
        StatusView {
            status: self.status,
            detail: match self.detail {
                Some(d) => Some(d.view()),
                None => None,
            },
        }
    }
}

impl OrtStatusWrapper {
    /// Takes ownership of a status handle.
    pub fn from(status: usize) -> (r: Self)
        ensures
            r@ == StatusView::fresh(status),
    {
        OrtStatusWrapper { status, detail: None }
    }

    /// The held handle, without giving up ownership of it.
    pub fn ptr(&self) -> (r: usize)
        ensures
            r == self@.status,
    {
        self.status
    }

    pub fn next_action(&self) -> (r: StatusAction)
        ensures
            r == self@.action(),
    {
        if self.status == 0 || self.detail.is_some() {
            StatusAction::Release
        } else {
            StatusAction::ReadMessage
        }
    }

    /// Takes the bytes of the message that the handle owns.
    pub fn message_read(&mut self, message: Vec<u8>)
        ensures
            final(self)@ == old(self)@.after_message(message@),
    {
        if self.status != 0 && self.detail.is_none() {
            self.detail = Some(message_to_detail(message));
        }
    }

    /// Records that the handle was released and yields the outcome: success
    /// for the null handle, else the detail decoded from its message.
    pub fn released(self) -> (r: Result<(), ErrorInternal>)
        requires
            self@.action() == StatusAction::Release,
        ensures
            outcome_view(r) == self@.outcome(),
    {
        match self.detail {
            Some(d) => Err(d),
            None => Ok(()),
        }
    }
}

/// A null handle means success: its wrapper asks for no message, asks for the
/// release straight away, and yields `Ok`.
pub proof fn lemma_null_status_released()
    ensures
        StatusView::fresh(0).action() == StatusAction::Release,
        StatusView::fresh(0).outcome() == Ok::<(), DetailView>(()),
        forall|m: Seq<u8>| #[trigger] StatusView::fresh(0).after_message(m) == StatusView::fresh(0),
{
}

/// A non-null handle whose message decodes to `msg`: the wrapper asks for the
/// message, then for one release, and yields a failure whose detail is `msg`.
/// Once the message is in, a second one changes nothing.
pub proof fn lemma_message_status_released(status: usize, message: Seq<u8>, msg: Seq<char>)
    requires
        status != 0,
        utf8_decoded(message) == Some(msg),
    ensures
        StatusView::fresh(status).action() == StatusAction::ReadMessage,
        StatusView::fresh(status).after_message(message).action() == StatusAction::Release,
        StatusView::fresh(status).after_message(message).outcome() == Err::<(), DetailView>(
            DetailView::Msg(msg),
        ),
        forall|m: Seq<u8>| #[trigger]
            StatusView::fresh(status).after_message(message).after_message(m)
                == StatusView::fresh(status).after_message(message),
{
}

/// A non-null handle whose message is not valid UTF-8: the wrapper asks for the
/// message, then for one release, and yields the decoding failure.
pub proof fn lemma_undecodable_status_released(status: usize, message: Seq<u8>)
    requires
        status != 0,
        utf8_decoded(message) is None,
    ensures
        StatusView::fresh(status).action() == StatusAction::ReadMessage,
        StatusView::fresh(status).after_message(message).action() == StatusAction::Release,
        StatusView::fresh(status).after_message(message).outcome() == Err::<(), DetailView>(
            DetailView::Undecodable,
        ),
        forall|m: Seq<u8>| #[trigger]
            StatusView::fresh(status).after_message(message).after_message(m)
                == StatusView::fresh(status).after_message(message),
{
}

} // verus!
