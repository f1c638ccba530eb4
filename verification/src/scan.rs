//! Decisions of the device-discovery loop: the software service filter, the
//! pause/resume state machine over the shared pause flag, and what each
//! adapter event turns into on the outbound queue. The adapter layer owns
//! the event stream and performs the scan actions decided here.
use vstd::prelude::*;

use crate::HEART_RATE_SERVICE_UUID;
use crate::device::{AdvertisedProperties, DeviceData, DeviceInfo};
use crate::device::message_seq;
use crate::outbound::send_message;

verus! {

/// An advertised service list passes the software filter exactly when it is
/// non-empty and names the heart-rate service. An empty list means the
/// advertisement payload has not been parsed yet; such an event is skipped,
/// not judged.
pub open spec fn passes_filter(services: Seq<u128>) -> bool {
    services.len() > 0 && services.contains(HEART_RATE_SERVICE_UUID)
}

/// Evaluates the software service filter on one advertised service list.
pub fn service_filter(services: &Vec<u128>) -> (r: bool)
    ensures
        r == passes_filter(services@),
{
    let mut i: usize = 0;
    let mut found = false;
    while i < services.len()
        invariant
            i <= services@.len(),
            found == exists|j: int| 0 <= j < i && services@[j] == HEART_RATE_SERVICE_UUID,
        decreases services@.len() - i,
    {
        if services[i] == HEART_RATE_SERVICE_UUID {
            found = true;
        }
        i = i + 1;
    }
    services.len() > 0 && found
}

/// One device seen by an advertisement event, after the adapter layer has
/// resolved the device handle and looked its advertised properties up.
pub struct DeviceEvent {
    /// The platform identity of the device, rendered as text.
    pub id: String,
    /// The advertised properties; `None` when the adapter had none yet,
    /// which the loop treats as an empty default set.
    pub properties: Option<AdvertisedProperties>,
}

/// One event of the adapter's stream, as the discovery loop sees it.
pub enum AdapterEvent {
    /// A device was seen for the first time.
    DeviceDiscovered(DeviceEvent),
    /// A known device's advertisement changed.
    DeviceUpdated(DeviceEvent),
    /// Any other event of the stream; the loop ignores it. An event whose
    /// device handle cannot be resolved carries no advertisement and is
    /// treated the same way.
    Other,
}

/// Whether an event is an advertisement event (discovered or updated).
pub open spec fn is_advertisement(ev: AdapterEvent) -> bool {
    ev is DeviceDiscovered || ev is DeviceUpdated
}

/// The device an advertisement event speaks of.
pub open spec fn event_device(ev: AdapterEvent) -> DeviceEvent
    recommends
        is_advertisement(ev),
{
    match ev {
        AdapterEvent::DeviceDiscovered(d) => d,
        AdapterEvent::DeviceUpdated(d) => d,
        AdapterEvent::Other => arbitrary(),
    }
}

/// The service list an event advertises: absent properties mean an empty
/// default set rather than a failure.
pub open spec fn effective_services(d: DeviceEvent) -> Seq<u128> {
    match d.properties {
        Some(p) => p.services@,
        None => Seq::<u128>::empty(),
    }
}

/// The record a passing event turns into. Its properties are present, since
/// an absent property set has no services and never passes the filter.
pub open spec fn found_record(d: DeviceEvent) -> DeviceInfo
    recommends
        d.properties is Some,
{
    let p = d.properties->0;
    DeviceInfo {
        id: d.id,
        name: p.local_name,
        tx_power_level: p.tx_power_level,
        address: p.address,
        rssi: p.rssi,
        manufacturer_data: p.manufacturer_data,
        services: p.services,
        service_data: p.service_data,
        has_device: true,
    }
}

/// What one adapter event puts on the outbound queue: a fresh device record
/// exactly when the event is an advertisement whose service list passes the
/// filter, and nothing otherwise.
pub open spec fn event_message(ev: AdapterEvent) -> Option<DeviceData> {
    if is_advertisement(ev) && passes_filter(effective_services(event_device(ev))) {
        Some(DeviceData::DeviceInfo(found_record(event_device(ev))))
    } else {
        None
    }
}

/// Decides what one adapter event yields, without touching the queue.
pub fn process_event(ev: AdapterEvent) -> (r: Option<DeviceData>)
    ensures
        r == event_message(ev),
{
    match ev {
        AdapterEvent::DeviceDiscovered(d) | AdapterEvent::DeviceUpdated(d) => {
            match d.properties {
                Some(p) => {
                    if service_filter(&p.services) {
                        Some(DeviceData::DeviceInfo(DeviceInfo {
                            id: d.id,
                            name: p.local_name,
                            tx_power_level: p.tx_power_level,
                            address: p.address,
                            rssi: p.rssi,
                            manufacturer_data: p.manufacturer_data,
                            services: p.services,
                            service_data: p.service_data,
                            has_device: true,
                        }))
                    } else {
                        None
                    }
                },
                None => None,
            }
        },
        AdapterEvent::Other => None,
    }
}

/// Handles one adapter event as the discovery loop does: evaluate the
/// filter and, on a pass, push the fresh record onto the outbound queue.
/// A failed send (the consumer is gone) is swallowed. Returns the message
/// that was pushed, if any.
pub fn dispatch_event(
    tx: &tokio::sync::mpsc::UnboundedSender<DeviceData>,
    ev: AdapterEvent,
) -> (r: Option<DeviceData>)
    ensures
        r == event_message(ev),
{
    let m = process_event(ev);
    match &m {
        Some(msg) => {
            let _delivered = send_message(tx, msg);
        },
        None => {},
    }
    m
}

/// What the discovery loop asks of the adapter layer after one look at the
/// pause flag, before the next event is handled.
#[derive(Clone, Copy, PartialEq, Eq, Structural, Debug)]
pub enum PauseDecision {
    /// Paused while a scan session runs: stop scanning once, then wait.
    StopAndWait,
    /// Paused with the scan already stopped: wait before looking again.
    Wait,
    /// Unpaused after a stop: start a fresh scan session, then handle events.
    Resume,
    /// Unpaused with the session still running: handle events.
    Proceed,
}

/// The decision one look at the pause flag yields.
pub open spec fn pause_decision_spec(paused: bool, scanning: bool) -> PauseDecision {
    if paused {
        if scanning {
            PauseDecision::StopAndWait
        } else {
            PauseDecision::Wait
        }
    } else {
        if scanning {
            PauseDecision::Proceed
        } else {
            PauseDecision::Resume
        }
    }
}

/// After the decision's actions are performed, a scan session runs exactly
/// when the flag was clear.
pub open spec fn next_scanning(paused: bool) -> bool {
    !paused
}

/// One look at the pause flag: decide the adapter actions and track whether
/// a scan session runs afterwards. A stop is decided only while `scanning`
/// still holds, so a pause observed many times in a row stops the scan at
/// most once; the first clear look after a stop starts exactly one fresh
/// session.
pub fn pause_tick(paused: bool, scanning: &mut bool) -> (r: PauseDecision)
    ensures
        r == pause_decision_spec(paused, *old(scanning)),
        *final(scanning) == next_scanning(paused),
{
    if paused {
        if *scanning {
            *scanning = false;
            PauseDecision::StopAndWait
        } else {
            PauseDecision::Wait
        }
    } else {
        if *scanning {
            PauseDecision::Proceed
        } else {
            *scanning = true;
            PauseDecision::Resume
        }
    }
}

/// A scan-session action the adapter layer performs on the loop's behalf.
#[derive(Clone, Copy, PartialEq, Eq, Structural, Debug)]
pub enum ScanAction {
    /// Stop the running scan session.
    StopScan,
    /// Start a fresh scan session.
    StartScan,
}

/// The adapter actions one pause decision asks for.
pub open spec fn decision_actions(d: PauseDecision) -> Seq<ScanAction> {
    match d {
        PauseDecision::StopAndWait => seq![ScanAction::StopScan],
        PauseDecision::Wait => Seq::empty(),
        PauseDecision::Resume => seq![ScanAction::StartScan],
        PauseDecision::Proceed => Seq::empty(),
    }
}

/// The adapter actions issued over a run of pause-flag observations,
/// starting from a given scan-session state.
pub open spec fn pause_trace(scanning: bool, obs: Seq<bool>) -> Seq<ScanAction>
    decreases obs.len(),
{
    if obs.len() == 0 {
        Seq::empty()
    } else {
        decision_actions(pause_decision_spec(obs[0], scanning)) + pause_trace(
            next_scanning(obs[0]),
            obs.drop_first(),
        )
    }
}

/// Pause idempotence, stopping half: a pause observed any number of times in
/// a row stops the scan at most once — exactly once when a session was
/// running, and never when none was.
pub proof fn lemma_pause_stops_at_most_once(scanning: bool, obs: Seq<bool>)
    requires
        forall|i: int| 0 <= i < obs.len() ==> obs[i],
    ensures
        scanning && obs.len() > 0 ==> pause_trace(scanning, obs) =~= seq![ScanAction::StopScan],
        !scanning ==> pause_trace(scanning, obs) =~= Seq::<ScanAction>::empty(),
    decreases obs.len(),
{
    if obs.len() > 0 {
        assert(obs[0]);
        assert(forall|i: int| 0 <= i < obs.drop_first().len() ==> obs.drop_first()[i]);
        lemma_pause_stops_at_most_once(next_scanning(obs[0]), obs.drop_first());
    }
}

/// Pause idempotence, resuming half: after a non-empty run of paused
/// observations with a session initially running, the first clear
/// observation issues exactly one start, after the single stop and before
/// the next event is handled.
pub proof fn lemma_resume_exactly_once(obs: Seq<bool>)
    requires
        obs.len() > 0,
        forall|i: int| 0 <= i < obs.len() ==> obs[i],
    ensures
        pause_trace(true, obs.push(false)) =~= seq![ScanAction::StopScan, ScanAction::StartScan],
{
    let whole = obs.push(false);
    assert(whole[0]);
    assert(whole.drop_first() =~= obs.drop_first().push(false));
    assert(forall|i: int|
        0 <= i < obs.drop_first().len() ==> obs.drop_first()[i]);
    lemma_paused_run_then_resume(obs.drop_first());
    assert(pause_trace(true, whole) =~= seq![ScanAction::StopScan] + pause_trace(
        false,
        obs.drop_first().push(false),
    ));
}

/// With the scan already stopped, a run of paused observations issues
/// nothing, and the first clear observation issues exactly one start.
pub proof fn lemma_paused_run_then_resume(obs: Seq<bool>)
    requires
        forall|i: int| 0 <= i < obs.len() ==> obs[i],
    ensures
        pause_trace(false, obs.push(false)) =~= seq![ScanAction::StartScan],
    decreases obs.len(),
{
    let whole = obs.push(false);
    if obs.len() == 0 {
        assert(!whole[0]);
        assert(whole.drop_first() =~= Seq::<bool>::empty());
        assert(pause_trace(false, whole) == decision_actions(PauseDecision::Resume)
            + pause_trace(true, whole.drop_first()));
        assert(pause_trace(true, Seq::<bool>::empty()) =~= Seq::<ScanAction>::empty());
    } else {
        assert(whole[0]);
        assert(whole.drop_first() =~= obs.drop_first().push(false));
        assert(forall|i: int|
            0 <= i < obs.drop_first().len() ==> obs.drop_first()[i]);
        lemma_paused_run_then_resume(obs.drop_first());
        assert(pause_trace(false, whole) == decision_actions(PauseDecision::Wait)
            + pause_trace(false, whole.drop_first()));
    }
}

/// Every message the discovery loop emits over a run of adapter events, in
/// emission order: events are handled one at a time and each appends its own
/// message, if any.
pub open spec fn discovery_trace(events: Seq<AdapterEvent>) -> Seq<DeviceData>
    decreases events.len(),
{
    if events.len() == 0 {
        Seq::empty()
    } else {
        discovery_trace(events.drop_last()) + message_seq(event_message(events.last()))
    }
}

/// Filter invariant for one event: a device message is emitted exactly when
/// the event is an advertisement whose service list is non-empty and names
/// the heart-rate service; the record then carries that advertisement, and
/// in particular its service list names the heart-rate service.
pub proof fn lemma_filter_invariant(ev: AdapterEvent)
    ensures
        event_message(ev) is Some <==> (is_advertisement(ev) && passes_filter(
            effective_services(event_device(ev)),
        )),
        event_message(ev) matches Some(m) ==> m == DeviceData::DeviceInfo(
            found_record(event_device(ev)),
        ),
        event_message(ev) matches Some(m) ==> (m matches DeviceData::DeviceInfo(rec)
            && rec.services@.contains(HEART_RATE_SERVICE_UUID) && rec.services@.len() > 0),
{
}

/// Filter invariant over a whole run: everything in the discovery trace is
/// a device record whose advertised services name the heart-rate service.
pub proof fn lemma_trace_filter_invariant(events: Seq<AdapterEvent>)
    ensures
        forall|k: int| 0 <= k < discovery_trace(events).len() ==> ((#[trigger] discovery_trace(
            events,
        )[k]) matches DeviceData::DeviceInfo(rec) && rec.services@.contains(
            HEART_RATE_SERVICE_UUID,
        )),
    decreases events.len(),
{
    if events.len() > 0 {
        lemma_trace_filter_invariant(events.drop_last());
        lemma_filter_invariant(events.last());
    }
}

/// Per-producer FIFO, step form: handling one more event only appends to
/// the trace; nothing already emitted moves or disappears.
pub proof fn lemma_trace_append(events: Seq<AdapterEvent>, ev: AdapterEvent)
    ensures
        discovery_trace(events.push(ev)) =~= discovery_trace(events) + message_seq(
            event_message(ev),
        ),
{
    assert(events.push(ev).drop_last() =~= events);
    assert(events.push(ev).last() == ev);
}

/// Per-producer FIFO, run form: what stood on the queue after the first `i`
/// events is a prefix of what stands on it after any later point of the
/// run, so two messages are delivered in the order they were produced.
pub proof fn lemma_trace_order_preserved(events: Seq<AdapterEvent>, i: int, j: int)
    requires
        0 <= i <= j <= events.len(),
    ensures
        discovery_trace(events.take(i)).is_prefix_of(discovery_trace(events.take(j))),
    decreases j - i,
{
    let earlier = discovery_trace(events.take(i));
    if i == j {
        assert(earlier =~= discovery_trace(events.take(j)).take(earlier.len() as int));
    } else {
        lemma_trace_order_preserved(events, i, j - 1);
        let mid = discovery_trace(events.take(j - 1));
        assert(events.take(j).drop_last() =~= events.take(j - 1));
        let last_msg = message_seq(event_message(events.take(j).last()));
        assert(discovery_trace(events.take(j)) == mid + last_msg);
        assert(earlier =~= (mid + last_msg).take(earlier.len() as int));
    }
}

} // verus!
