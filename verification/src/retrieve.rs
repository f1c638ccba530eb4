//! Decisions of the characteristic retriever: one request against a
//! previously discovered device yields exactly one terminal message — a
//! failure report when the handle is missing or the bounded connect attempt
//! does not succeed, and otherwise the complete characteristic batch. The
//! adapter layer performs the connect and the GATT discovery and hands their
//! outcomes back here.
use vstd::prelude::*;
use vstd::string::StringExecFns;

use crate::device::{Characteristic, DeviceData, GattCharacteristic, flattened_from, message_seq};
use crate::outbound::send_message;

verus! {

/// The bound on one connect attempt, in seconds.
pub const CONNECT_TIMEOUT_SECS: u64 = 10;

/// What the bounded connect attempt came to, as the adapter layer saw it.
pub enum ConnectOutcome {
    /// The connection completed within the bound.
    Connected,
    /// The transport rejected the attempt; the text carries its error.
    Failed(String),
    /// The bound elapsed first; the attempt was abandoned.
    TimedOut,
}

/// Begins one retrieval request: when the record carries no live device
/// handle, the failure is reported at once and nothing else happens for this
/// request; otherwise the connect attempt goes ahead. Returns the message
/// that was pushed, `None` meaning the request proceeds.
pub fn begin_retrieval(
    tx: &tokio::sync::mpsc::UnboundedSender<DeviceData>,
    has_device: bool,
) -> (r: Option<DeviceData>)
    ensures
        r is Some <==> !has_device,
        r matches Some(m) ==> (m matches DeviceData::Error(e) && e@ == "device not found"@),
{
    if has_device {
        None
    } else {
        let msg = DeviceData::Error(String::from_str("device not found"));
        let _delivered = send_message(tx, &msg);
        Some(msg)
    }
}

/// Classifies the outcome of the bounded connect attempt. A transport error
/// or an elapsed bound is reported at once — a connect that does not
/// complete within the bound always yields the timeout report, never a
/// silent hang. `None` means the connection stands and GATT discovery goes
/// ahead. Returns the message that was pushed, if any.
pub fn resolve_connect(
    tx: &tokio::sync::mpsc::UnboundedSender<DeviceData>,
    outcome: ConnectOutcome,
) -> (r: Option<DeviceData>)
    ensures
        r is Some <==> !(outcome is Connected),
        outcome is TimedOut ==> (r matches Some(m) && m matches DeviceData::Error(e) && e@
            == "connection timed out"@),
        outcome matches ConnectOutcome::Failed(err) ==> (r matches Some(m)
            && m matches DeviceData::Error(e) && e@ == "connection error: "@ + err@),
{
    match outcome {
        ConnectOutcome::Connected => None,
        ConnectOutcome::Failed(err) => {
            let mut text = String::from_str("connection error: ");
            text.append(err.as_str());
            let msg = DeviceData::Error(text);
            let _delivered = send_message(tx, &msg);
            Some(msg)
        },
        ConnectOutcome::TimedOut => {
            let msg = DeviceData::Error(String::from_str("connection timed out"));
            let _delivered = send_message(tx, &msg);
            Some(msg)
        },
    }
}

/// A batch is complete: one record per discovered characteristic, each
/// carrying its characteristic's fields, in discovery order.
pub open spec fn complete_batch(found: Seq<GattCharacteristic>, batch: Seq<Characteristic>) -> bool {
    &&& batch.len() == found.len()
    &&& forall|i: int| 0 <= i < found.len() ==> flattened_from(#[trigger] batch[i], found[i])
}

/// Copies a list of UUIDs.
fn copy_uuids(src: &Vec<u128>) -> (r: Vec<u128>)
    ensures
        r@ == src@,
{
    let mut out: Vec<u128> = Vec::new();
    let mut i: usize = 0;
    while i < src.len()
        invariant
            i <= src@.len(),
            out@ =~= src@.take(i as int),
        decreases src@.len() - i,
    {
        out.push(src[i]);
        i = i + 1;
    }
    assert(out@ =~= src@);
    out
}

/// Flattens the discovered characteristics into consumer records, preserving
/// discovery order and dropping none.
pub fn flatten_characteristics(found: &Vec<GattCharacteristic>) -> (r: Vec<Characteristic>)
    ensures
        complete_batch(found@, r@),
{
    let mut out: Vec<Characteristic> = Vec::new();
    let mut i: usize = 0;
    while i < found.len()
        invariant
            i <= found@.len(),
            out@.len() == i,
            forall|j: int| 0 <= j < i ==> flattened_from(#[trigger] out@[j], found@[j]),
        decreases found@.len() - i,
    {
        let g = &found[i];
        out.push(
            Characteristic {
                uuid: g.uuid,
                properties: g.properties,
                descriptors: copy_uuids(&g.descriptor_uuids),
                service: g.service_uuid,
            },
        );
        i = i + 1;
    }
    out
}

/// Ends a successful retrieval: builds the complete batch — never a subset —
/// and pushes it as the request's one terminal message. Returns that message.
pub fn deliver_characteristics(
    tx: &tokio::sync::mpsc::UnboundedSender<DeviceData>,
    found: &Vec<GattCharacteristic>,
) -> (r: DeviceData)
    ensures
        r matches DeviceData::Characteristics(batch) && complete_batch(found@, batch@),
{
    let msg = DeviceData::Characteristics(flatten_characteristics(found));
    let _delivered = send_message(tx, &msg);
    msg
}

/// The messages one retrieval request put on the queue, given what each of
/// its three phases pushed: the handle check, the connect attempt, the
/// delivery of the batch.
pub open spec fn session_trace(
    m1: Option<DeviceData>,
    m2: Option<DeviceData>,
    m3: Option<DeviceData>,
) -> Seq<DeviceData> {
    message_seq(m1) + message_seq(m2) + message_seq(m3)
}

/// No partial characteristic batches: one retrieval request emits exactly
/// one terminal message. It is the complete batch exactly when the record
/// carried a live handle and the bounded connect attempt succeeded, and a
/// failure report otherwise. The hypotheses are the shapes the three phases'
/// contracts give their messages: a missing handle reports at once and skips
/// the rest, a failed or timed-out connect reports and stops, and only a
/// successful connect delivers the batch.
pub proof fn lemma_one_terminal_message(
    has_device: bool,
    outcome: ConnectOutcome,
    found: Seq<GattCharacteristic>,
    m1: Option<DeviceData>,
    m2: Option<DeviceData>,
    m3: Option<DeviceData>,
)
    requires
        m1 is Some <==> !has_device,
        m1 matches Some(m) ==> m is Error,
        has_device ==> (m2 is Some <==> !(outcome is Connected)),
        !has_device ==> m2 is None,
        m2 matches Some(m) ==> m is Error,
        m3 is Some <==> (has_device && outcome is Connected),
        m3 matches Some(m) ==> (m matches DeviceData::Characteristics(batch) && complete_batch(
            found,
            batch@,
        )),
    ensures
        session_trace(m1, m2, m3).len() == 1,
        has_device && outcome is Connected ==> (session_trace(m1, m2, m3)[0]
            matches DeviceData::Characteristics(batch) && complete_batch(found, batch@)),
        !(has_device && outcome is Connected) ==> session_trace(m1, m2, m3)[0] is Error,
{
}

} // verus!
