//! What the window decides: when it closes, and when its texture is renewed.
use vstd::prelude::*;

verus! {

/// A key, as far as the window tells keys apart.
#[derive(Debug, Clone, Copy, PartialEq, Eq, Structural)]
pub enum Key {
    Escape,
    Q,
    Other,
}

/// Something that happened to the window.
#[derive(Debug, Clone, Copy, PartialEq, Eq, Structural)]
pub enum UiEvent {
    /// The close button was pressed.
    Quit,
    /// A key went down; not every key is known to the system.
    KeyDown(Option<Key>),
    /// Anything else.
    Other,
}

/// Whether to go on polling for events.
#[derive(Debug, Clone, Copy, PartialEq, Eq, Structural)]
pub enum Polling {
    /// Poll for one more event.
    More,
    /// Stop polling; this says whether the window is to close.
    Over(bool),
}

/// `event` asks for the window to close: the close button, Escape or Q.
pub open spec fn closes(event: UiEvent) -> bool {
    ||| event == UiEvent::Quit
    ||| event == UiEvent::KeyDown(Some(Key::Escape))
    ||| event == UiEvent::KeyDown(Some(Key::Q))
}

/// What an event that was polled, or the end of the queue, means for polling.
pub open spec fn polling(polled: Option<UiEvent>) -> Polling {
    match polled {
        None => Polling::Over(false),
        Some(event) => if closes(event) {
            Polling::Over(true)
        } else {
            Polling::More
        },
    }
}

/// Whether the window should close, as far as the event that was polled tells;
/// `None` is the end of the queue. Events behind one that closes the window are
/// left in the queue.
pub fn should_quit(polled: Option<UiEvent>) -> (next: Polling)
    ensures
        next == polling(polled),
{
    match polled {
        None => Polling::Over(false),
        Some(UiEvent::Quit) => Polling::Over(true),
        Some(UiEvent::KeyDown(Some(Key::Escape))) => Polling::Over(true),
        Some(UiEvent::KeyDown(Some(Key::Q))) => Polling::Over(true),
        Some(_) => Polling::More,
    }
}

/// How polling a queue ends.
pub open spec fn polled_through(queue: Seq<UiEvent>) -> bool
    decreases queue.len(),
{
    if queue.len() == 0 {
        polling(None) == Polling::Over(true)
    } else {
        match polling(Some(queue[0])) {
            Polling::Over(quit) => quit,
            Polling::More => polled_through(queue.skip(1)),
        }
    }
}

/// Polling a queue of events says that the window should close if and only if
/// one of them asks for it.
pub proof fn law_quit_if_asked(queue: Seq<UiEvent>)
    ensures
        polled_through(queue) <==> exists|i: int| 0 <= i < queue.len() && closes(queue[i]),
    decreases queue.len(),
{
    if queue.len() > 0 {
        let rest = queue.skip(1);
        law_quit_if_asked(rest);
        if polled_through(queue) && !closes(queue[0]) {
            let i = choose|i: int| 0 <= i < rest.len() && closes(rest[i]);
            assert(closes(queue[i + 1]));
        }
        if exists|i: int| 0 <= i < queue.len() && closes(queue[i]) {
            let i = choose|i: int| 0 <= i < queue.len() && closes(queue[i]);
            if i > 0 {
                assert(closes(rest[i - 1]));
            }
        }
    }
}

/// A texture of the size `held` does not fit a picture of `width` by `height`.
pub open spec fn outgrown(held: Option<(u32, u32)>, width: u32, height: u32) -> bool {
    held != Some((width, height))
}

/// Whether a picture of `width` by `height` needs another texture than the one
/// that is held, whose size is given if there is one.
pub fn needs_texture(held: Option<(u32, u32)>, width: u32, height: u32) -> (yes: bool)
    ensures
        yes == outgrown(held, width, height),
{
    match held {
        None => true,
        Some((w, h)) => w != width || h != height,
    }
}

/// A texture is kept exactly for a picture that is as wide and as high.
pub proof fn law_texture_is_kept_for_its_size(
    held: Option<(u32, u32)>,
    width: u32,
    height: u32,
)
    ensures
        outgrown(None, width, height),
        held is Some ==> (!outgrown(held, width, height) <==> held->Some_0.0 == width
            && held->Some_0.1 == height),
{
}

/// The window closes on the close button, on Escape and on Q, and on nothing else;
/// the queue is polled to its end unless it does.
pub proof fn law_only_these_close(event: UiEvent)
    ensures
        polling(Some(event)) == Polling::Over(true) <==> {
            ||| event == UiEvent::Quit
            ||| event == UiEvent::KeyDown(Some(Key::Escape))
            ||| event == UiEvent::KeyDown(Some(Key::Q))
        },
        polling(Some(event)) != Polling::Over(true) ==> polling(Some(event)) == Polling::More,
        polling(None) == Polling::Over(false),
{
}

} // verus!
