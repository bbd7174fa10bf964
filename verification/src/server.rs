//! A small HTTP/WebSocket server: which request is which, and what it is answered.
pub mod proto;
pub mod utils;

use vstd::prelude::*;

verus! {

/// What the server does with a request, by how the request begins.
#[derive(Debug, Clone, Copy, PartialEq, Eq)]
pub enum Route {
    /// `GET /echo`: the request is sent back as it came.
    Echo,
    /// `GET /index`: the index page is sent.
    Index,
    /// `GET /chat`: the WebSocket handshake key is read.
    Chat,
    /// Anything else is left unanswered.
    Ignore,
}

/// Whether `b` begins with `pat`.
pub open spec fn has_prefix(b: Seq<u8>, pat: Seq<u8>) -> bool {
    b.len() >= pat.len() && b.subrange(0, pat.len() as int) == pat
}

/// `GET /echo`
pub open spec fn echo_prefix() -> Seq<u8> {
    seq![71u8, 69, 84, 32, 47, 101, 99, 104, 111]
}

/// `GET /index`
pub open spec fn index_prefix() -> Seq<u8> {
    seq![71u8, 69, 84, 32, 47, 105, 110, 100, 101, 120]
}

/// `GET /chat`
pub open spec fn chat_prefix() -> Seq<u8> {
    seq![71u8, 69, 84, 32, 47, 99, 104, 97, 116]
}

fn starts_with(b: &[u8], pat: &[u8]) -> (r: bool)
    ensures
        r == has_prefix(b@, pat@),
{
    if b.len() < pat.len() {
        return false;
    }
    let mut i: usize = 0;
    while i < pat.len()
        invariant
            pat@.len() <= b@.len(),
            i <= pat@.len(),
            forall|j: int| 0 <= j < i ==> b@[j] == pat@[j],
        decreases pat@.len() - i,
    {
        if b[i] != pat[i] {
            assert(b@.subrange(0, pat@.len() as int)[i as int] != pat@[i as int]);
            return false;
        }
        i = i + 1;
    }
    assert(b@.subrange(0, pat@.len() as int) =~= pat@);
    true
}

/// Decides what to do with a request from the bytes it begins with.
pub fn route(request: &[u8]) -> (r: Route)
    ensures
        r == (if has_prefix(request@, echo_prefix()) {
            Route::Echo
        } else if has_prefix(request@, index_prefix()) {
            Route::Index
        } else if has_prefix(request@, chat_prefix()) {
            Route::Chat
        } else {
            Route::Ignore
        }),
{
    let echo: [u8; 9] = [71, 69, 84, 32, 47, 101, 99, 104, 111];
    let index: [u8; 10] = [71, 69, 84, 32, 47, 105, 110, 100, 101, 120];
    let chat: [u8; 9] = [71, 69, 84, 32, 47, 99, 104, 97, 116];
    assert(echo@ =~= echo_prefix());
    assert(index@ =~= index_prefix());
    assert(chat@ =~= chat_prefix());
    if starts_with(request, echo.as_slice()) {
        Route::Echo
    } else if starts_with(request, index.as_slice()) {
        Route::Index
    } else if starts_with(request, chat.as_slice()) {
        Route::Chat
    } else {
        Route::Ignore
    }
}

} // verus!
