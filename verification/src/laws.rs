//! The guarantees the controller gives across whole event sequences: what an
//! arbitrary burst of pre-construction events leaves in the buffers, that
//! resize coalescing applies only the last size, that buffered redraw
//! requests collapse to one, that zero-area sizes never reach the surface,
//! and that a duplicate activation constructs nothing.

use vstd::prelude::*;
use crate::app::WgpuApp;
use crate::event::{Effect, Event};
use crate::handler::WgpuAppHandler;
use crate::size::Size;

verus! {

/// The controller state after delivering `events` to `h` in order.
pub open spec fn deliver_all(h: WgpuAppHandler, events: Seq<Event>) -> WgpuAppHandler
    decreases events.len(),
{
    if events.len() == 0 {
        h
    } else {
        deliver_all(h.spec_window_event(events[0]).0, events.skip(1))
    }
}

/// The buffered resize after `events` arrive on an unconstructed
/// controller whose buffer holds `pending`: each nonzero resize overwrites
/// it, everything else leaves it alone.
pub open spec fn pending_resize_after(pending: Option<Size>, events: Seq<Event>) -> Option<Size>
    decreases events.len(),
{
    if events.len() == 0 {
        pending
    } else {
        let next = match events[0] {
            Event::Resized(s) => if !s.is_zero_area() {
                Some(s)
            } else {
                pending
            },
            _ => pending,
        };
        pending_resize_after(next, events.skip(1))
    }
}

/// The buffered redraw flag after `events` arrive on an unconstructed
/// controller whose flag is `pending`: any redraw request sets it.
pub open spec fn pending_redraw_after(pending: bool, events: Seq<Event>) -> bool
    decreases events.len(),
{
    if events.len() == 0 {
        pending
    } else {
        pending_redraw_after(pending || events[0] is RedrawRequested, events.skip(1))
    }
}

/// The resize events for a sequence of sizes.
pub open spec fn resize_events(sizes: Seq<Size>) -> Seq<Event> {
    sizes.map_values(|s: Size| Event::Resized(s))
}

/// While construction is pending, event delivery only fills the two
/// buffers: the instance slot stays empty, the buffered resize is the last
/// nonzero size to arrive, and the redraw flag is set as soon as one redraw
/// request arrives. No event is acted on in any other way.
pub proof fn lemma_pre_construction_buffering(h: WgpuAppHandler, events: Seq<Event>)
    requires
        h.app is None,
    ensures
        deliver_all(h, events) == (WgpuAppHandler {
            app: None,
            missed_resize: pending_resize_after(h.missed_resize, events),
            missed_request_redraw: pending_redraw_after(h.missed_request_redraw, events),
        }),
    decreases events.len(),
{
    if events.len() == 0 {
        assert(h == (WgpuAppHandler {
            app: None,
            missed_resize: h.missed_resize,
            missed_request_redraw: h.missed_request_redraw,
        }));
    } else {
        let h1 = h.spec_window_event(events[0]).0;
        lemma_pre_construction_buffering(h1, events.skip(1));
    }
}

/// A nonzero sequence of nonzero resizes leaves exactly the last one
/// buffered, whatever was buffered before.
pub proof fn lemma_pending_resize_last(pending: Option<Size>, sizes: Seq<Size>)
    requires
        sizes.len() > 0,
        forall|i: int| 0 <= i < sizes.len() ==> !(#[trigger] sizes[i]).is_zero_area(),
    ensures
        pending_resize_after(pending, resize_events(sizes)) == Some(sizes.last()),
    decreases sizes.len(),
{
    let events = resize_events(sizes);
    assert(events[0] == Event::Resized(sizes[0]));
    assert(pending_resize_after(pending, events) == pending_resize_after(
        Some(sizes[0]),
        events.skip(1),
    ));
    if sizes.len() == 1 {
        assert(events.skip(1).len() == 0);
        assert(pending_resize_after(Some(sizes[0]), events.skip(1)) == Some(sizes[0]));
        assert(sizes.last() == sizes[0]);
    } else {
        assert(events.skip(1) =~= resize_events(sizes.skip(1)));
        lemma_pending_resize_last(Some(sizes[0]), sizes.skip(1));
        assert(sizes.skip(1).last() == sizes.last());
    }
}

/// The buffered redraw flag after an event burst is set if and only if it
/// was set before or some event in the burst requested a redraw.
pub proof fn lemma_pending_redraw_characterization(pending: bool, events: Seq<Event>)
    ensures
        pending_redraw_after(pending, events) == (pending || exists|i: int|
            0 <= i < events.len() && #[trigger] events[i] is RedrawRequested),
    decreases events.len(),
{
    if events.len() == 0 {
    } else {
        let rest = events.skip(1);
        lemma_pending_redraw_characterization(pending || events[0] is RedrawRequested, rest);
        if exists|i: int| 0 <= i < rest.len() && #[trigger] rest[i] is RedrawRequested {
            let i = choose|i: int| 0 <= i < rest.len() && #[trigger] rest[i] is RedrawRequested;
            assert(events[i + 1] is RedrawRequested);
        }
        if exists|i: int| 0 <= i < events.len() && #[trigger] events[i] is RedrawRequested {
            let i = choose|i: int|
                0 <= i < events.len() && #[trigger] events[i] is RedrawRequested;
            if i > 0 {
                assert(rest[i - 1] is RedrawRequested);
            }
        }
    }
}

/// Coalescing: of all the resize events delivered before construction
/// completes, only the last one's dimensions are applied once it does.
pub proof fn lemma_resize_coalescing(h: WgpuAppHandler, sizes: Seq<Size>, app: WgpuApp)
    requires
        h.app is None,
        sizes.len() > 0,
        forall|i: int| 0 <= i < sizes.len() ==> !(#[trigger] sizes[i]).is_zero_area(),
    ensures
        deliver_all(h, resize_events(sizes)).spec_finish_construction(app).0.app == Some(
            app.spec_set_window_resized(sizes.last()),
        ),
{
    lemma_pre_construction_buffering(h, resize_events(sizes));
    lemma_pending_resize_last(h.missed_resize, sizes);
}

/// Idempotence: completion issues a host redraw request if and only if at
/// least one redraw request was received while unconstructed, however many
/// there were — and the flag is clear afterwards, so exactly one is issued.
pub proof fn lemma_redraw_idempotent(h: WgpuAppHandler, events: Seq<Event>, app: WgpuApp)
    requires
        h.app is None,
    ensures
        deliver_all(h, events).spec_finish_construction(app).1 == (h.missed_request_redraw
            || exists|i: int| 0 <= i < events.len() && #[trigger] events[i] is RedrawRequested),
        !deliver_all(h, events).spec_finish_construction(app).0.missed_request_redraw,
{
    lemma_pre_construction_buffering(h, events);
    lemma_pending_redraw_characterization(h.missed_request_redraw, events);
}

/// While construction is pending, no event is ever delivered anywhere: the
/// dispatch of every event kind asks the caller for nothing at all.
pub proof fn lemma_nothing_reaches_unconstructed(h: WgpuAppHandler, event: Event)
    requires
        h.app is None,
    ensures
        h.spec_window_event(event).1 == Effect::Ignored,
{
}

/// Illegal-size guard, while buffering: a zero-area resize delivered before
/// construction completes is dropped entirely — nothing is buffered, so
/// nothing of it is applied at completion.
pub proof fn lemma_zero_resize_dropped_while_buffering(h: WgpuAppHandler, s: Size)
    requires
        h.app is None,
        s.is_zero_area(),
    ensures
        h.spec_window_event(Event::Resized(s)) == (h, Effect::Ignored),
{
}

/// Illegal-size guard, once constructed: a zero-area resize changes nothing
/// and yields only the "minimized" diagnostic. In particular the effect is
/// not a frame plan, so no surface reconfiguration can follow from it.
pub proof fn lemma_zero_resize_minimized(h: WgpuAppHandler, s: Size)
    requires
        h.app is Some,
        s.is_zero_area(),
    ensures
        h.spec_window_event(Event::Resized(s)) == (h, Effect::Minimized),
{
}

/// No duplicate construction: completion fills the instance slot, and while
/// the slot is filled an activation signal asks for no construction, so two
/// activations without an intervening teardown construct exactly one
/// instance.
pub proof fn lemma_no_duplicate_construction(h: WgpuAppHandler, app: WgpuApp)
    ensures
        h.spec_finish_construction(app).0.app is Some,
{
}

} // verus!
