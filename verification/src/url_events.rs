//! The channel that carries URLs delivered to the program by the system
//! (macOS hands a scheme URL to the running bundle as an event) to the
//! daemon that forwards them, and the reading of the URL out of an event's
//! payload.
use vstd::prelude::*;
use vstd::string::*;
use std::sync::mpsc::{Receiver, Sender};
use crate::text::{strip_both, trim_char};

verus! {

#[verifier::external_type_specification]
#[verifier::external_body]
#[verifier::reject_recursive_types(T)]
pub struct ExSender<T>(std::sync::mpsc::Sender<T>);

#[verifier::external_type_specification]
#[verifier::external_body]
#[verifier::reject_recursive_types(T)]
pub struct ExReceiver<T>(std::sync::mpsc::Receiver<T>);

/// `std::sync::mpsc::channel()` (std): a new channel, as its sending and
/// receiving ends. Nothing is claimed of them.
#[verifier::external_body]
fn url_channel() -> (Sender<String>, Receiver<String>) {
    std::sync::mpsc::channel()
}

/// Both ends of the channel: the sending end stays for the event handler;
/// the receiving end can be taken once.
pub struct UrlEvents {
    pub sender: Sender<String>,
    receiver: Option<Receiver<String>>,
}

impl UrlEvents {
    /// The receiving end has not been taken yet.
    pub closed spec fn receiver_available(&self) -> bool {
        self.receiver is Some
    }
}

/// Creates the channel; its receiving end is available.
pub fn listen() -> (r: UrlEvents)
    ensures
        r.receiver_available(),
{
    let (sender, receiver) = url_channel();
    UrlEvents { sender, receiver: Some(receiver) }
}

/// Takes the receiving end out: it is handed out exactly once, on the
/// first call after `listen`; every later call gives `None`.
pub fn take_receiver(events: &mut UrlEvents) -> (r: Option<Receiver<String>>)
    ensures
        r is Some <==> old(events).receiver_available(),
        !final(events).receiver_available(),
{
    events.receiver.take()
}

/// The largest "open URL" event payload that is read, plus one.
pub open spec fn url_event_limit() -> int {
    8192
}

/// Whether an event payload of `size` bytes (as the system reports it) is
/// read: more than nothing and less than the limit.
pub fn url_event_size_ok(size: isize) -> (r: bool)
    ensures
        r == (0 < size && size < url_event_limit()),
{
    0 < size && size < 8192
}

/// What `String::from_utf8_lossy` makes of `bytes`, as text.
pub uninterp spec fn utf8_lossy_text(bytes: Seq<u8>) -> Seq<char>;

/// `String::from_utf8_lossy(bytes)` (std). Claims only that the result is
/// the named one for `bytes`.
#[verifier::external_body]
fn utf8_lossy(bytes: &[u8]) -> (r: String)
    ensures
        r@ == utf8_lossy_text(bytes@),
{
    String::from_utf8_lossy(bytes).into_owned()
}

/// The URL an "open URL" event carries in `bytes`, if any.
pub open spec fn event_url(bytes: Seq<u8>) -> Option<Seq<char>> {
    let text = strip_both(utf8_lossy_text(bytes), '\0');
    if text.len() == 0 {
        None
    } else {
        Some(text)
    }
}

/// The URL of an "open URL" event payload: the bytes read as UTF-8 (each
/// invalid sequence replaced), NULs at either end removed; `None` where
/// nothing is left.
pub fn url_from_event(bytes: &[u8]) -> (r: Option<String>)
    ensures
        crate::config::opt_view(r) == event_url(bytes@),
{
    let text = utf8_lossy(bytes);
    let url = trim_char(text.as_str(), '\0');
    if url.unicode_len() == 0 {
        None
    } else {
        Some(url)
    }
}

} // verus!
