//! The characteristics overlay, as data: the rows listing one inspected
//! device's services, characteristics, operation bitsets and descriptors,
//! grouped by service in ascending UUID order, and the scroll window over
//! them. Rendering the rows as styled text is presentation and lives with
//! the terminal layer.
use vstd::prelude::*;
use vstd::string::StringExecFns;

use crate::device::Characteristic;

verus! {

/// One row of the characteristics overlay, before rendering.
#[derive(Clone, Copy, PartialEq, Eq, Structural, Debug)]
pub enum OverlayRow {
    /// Shown while no characteristics have arrived yet.
    Loading,
    /// Header of one service's group.
    Service(u128),
    /// One characteristic of the service above.
    Characteristic(u128),
    /// The operation bitset of the characteristic above.
    Properties(u8),
    /// One descriptor of the characteristic above.
    Descriptor(u128),
}

/// The rows one characteristic contributes: its UUID, its operation bitset,
/// then one row per descriptor, in order.
pub open spec fn characteristic_rows(c: Characteristic) -> Seq<OverlayRow> {
    seq![OverlayRow::Characteristic(c.uuid), OverlayRow::Properties(c.properties)]
        + c.descriptors@.map_values(|d: u128| OverlayRow::Descriptor(d))
}

/// The rows of the characteristics belonging to one service, keeping the
/// characteristics in their original order.
pub open spec fn service_rows(cs: Seq<Characteristic>, svc: u128) -> Seq<OverlayRow>
    decreases cs.len(),
{
    if cs.len() == 0 {
        Seq::empty()
    } else {
        service_rows(cs.drop_last(), svc) + if cs.last().service == svc {
            characteristic_rows(cs.last())
        } else {
            Seq::empty()
        }
    }
}

/// One service's group: its header, then its characteristics' rows.
pub open spec fn group_rows(cs: Seq<Characteristic>, svc: u128) -> Seq<OverlayRow> {
    seq![OverlayRow::Service(svc)] + service_rows(cs, svc)
}

/// The groups of the given services, one after the other.
pub open spec fn blocks(svcs: Seq<u128>, cs: Seq<Characteristic>) -> Seq<OverlayRow>
    decreases svcs.len(),
{
    if svcs.len() == 0 {
        Seq::empty()
    } else {
        blocks(svcs.drop_last(), cs) + group_rows(cs, svcs.last())
    }
}

/// `svcs` lists each service that occurs in `cs`, exactly once, in strictly
/// ascending order — the order their text forms sort in, the text form of a
/// UUID being fixed-width hexadecimal. These conditions pin `svcs` down
/// completely.
pub open spec fn sorted_distinct_services(cs: Seq<Characteristic>, svcs: Seq<u128>) -> bool {
    &&& forall|i: int, j: int| 0 <= i < j < svcs.len() ==> svcs[i] < svcs[j]
    &&& forall|u: u128| svcs.contains(u) <==> exists|k: int| 0 <= k < cs.len() && (#[trigger] cs[k]).service == u
}

/// The full overlay: a loading row while no characteristics have arrived,
/// and otherwise the service groups in ascending service-UUID order.
pub open spec fn overlay_rows_spec(cs: Seq<Characteristic>, rows: Seq<OverlayRow>) -> bool {
    if cs.len() == 0 {
        rows == seq![OverlayRow::Loading]
    } else {
        exists|svcs: Seq<u128>| #[trigger] sorted_distinct_services(cs, svcs) && rows == blocks(
            svcs,
            cs,
        )
    }
}

/// Two sequences that are strictly ascending and have the same members are
/// equal; so the service list, and with it the whole overlay, is unique.
pub proof fn lemma_sorted_distinct_unique(a: Seq<u128>, b: Seq<u128>)
    requires
        forall|i: int, j: int| 0 <= i < j < a.len() ==> a[i] < a[j],
        forall|i: int, j: int| 0 <= i < j < b.len() ==> b[i] < b[j],
        forall|u: u128| a.contains(u) <==> b.contains(u),
    ensures
        a =~= b,
    decreases a.len(),
{
    if a.len() == 0 {
        if b.len() > 0 {
            assert(b.contains(b[0]));
        }
    } else {
        assert(a.contains(a[0]));
        assert(b.contains(a[0]));
        let j = choose|j: int| 0 <= j < b.len() && b[j] == a[0];
        if j > 0 {
            assert(b.contains(b[0]));
            assert(a.contains(b[0]));
            let i = choose|i: int| 0 <= i < a.len() && a[i] == b[0];
            assert(b[0] < b[j]);
            assert(i > 0 ==> a[0] < a[i]);
            assert(false);
        }
        assert(b.len() > 0 && b[0] == a[0]);
        let a1 = a.drop_first();
        let b1 = b.drop_first();
        assert forall|u: u128| a1.contains(u) implies b1.contains(u) by {
            let i = choose|i: int| 0 <= i < a1.len() && a1[i] == u;
            assert(a[i + 1] == u);
            assert(a[0] < u);
            assert(a.contains(u));
            assert(b.contains(u));
            let j2 = choose|j2: int| 0 <= j2 < b.len() && b[j2] == u;
            assert(j2 > 0);
            assert(b1[j2 - 1] == u);
        }
        assert forall|u: u128| b1.contains(u) implies a1.contains(u) by {
            let i = choose|i: int| 0 <= i < b1.len() && b1[i] == u;
            assert(b[i + 1] == u);
            assert(b[0] < u);
            assert(b.contains(u));
            assert(a.contains(u));
            let j2 = choose|j2: int| 0 <= j2 < a.len() && a[j2] == u;
            assert(j2 > 0);
            assert(a1[j2 - 1] == u);
        }
        assert forall|i: int, j: int| 0 <= i < j < a1.len() implies a1[i] < a1[j] by {
            assert(a[i + 1] < a[j + 1]);
        }
        assert forall|i: int, j: int| 0 <= i < j < b1.len() implies b1[i] < b1[j] by {
            assert(b[i + 1] < b[j + 1]);
        }
        lemma_sorted_distinct_unique(a1, b1);
        assert(a.len() == b.len());
        assert forall|i: int| 0 <= i < a.len() implies a[i] == b[i] by {
            if i > 0 {
                assert(a1[i - 1] == b1[i - 1]);
            }
        }
    }
}

/// Collects the distinct service UUIDs of the characteristic list, in
/// ascending order.
pub fn sorted_services(cs: &Vec<Characteristic>) -> (r: Vec<u128>)
    ensures
        sorted_distinct_services(cs@, r@),
{
    let mut r: Vec<u128> = Vec::new();
    let mut k: usize = 0;
    while k < cs.len()
        invariant
            k <= cs@.len(),
            forall|i: int, j: int| 0 <= i < j < r@.len() ==> r@[i] < r@[j],
            forall|u: u128| r@.contains(u) <==> exists|t: int|
                0 <= t < k && (#[trigger] cs@[t]).service == u,
        decreases cs@.len() - k,
    {
        let svc = cs[k].service;
        let mut p: usize = 0;
        while p < r.len() && r[p] < svc
            invariant
                p <= r@.len(),
                forall|q: int| 0 <= q < p ==> r@[q] < svc,
                forall|i: int, j: int| 0 <= i < j < r@.len() ==> r@[i] < r@[j],
            decreases r@.len() - p,
        {
            p = p + 1;
        }
        if p == r.len() || r[p] != svc {
            let ghost old_r = r@;
            proof {
                old_r.insert_ensures(p as int, svc);
            }
            r.insert(p, svc);
            assert forall|u: u128| r@.contains(u) implies (old_r.contains(u) || u == svc) by {
                let i = choose|i: int| 0 <= i < r@.len() && r@[i] == u;
                if i < p {
                    assert(old_r[i] == u);
                } else if i > p {
                    assert(old_r[i - 1] == u);
                }
            }
            assert forall|u: u128| old_r.contains(u) implies r@.contains(u) by {
                let i = choose|i: int| 0 <= i < old_r.len() && old_r[i] == u;
                if i < p {
                    assert(r@[i] == u);
                } else {
                    assert(r@[i + 1] == u);
                }
            }
            assert(r@.contains(svc)) by {
                assert(r@[p as int] == svc);
            }
            assert forall|i: int, j: int| 0 <= i < j < r@.len() implies r@[i] < r@[j] by {
                if j < p {
                } else if i < p && j == p {
                    assert(r@[i] == old_r[i] && old_r[i] < svc);
                } else if i < p && j > p {
                    assert(r@[i] == old_r[i] && r@[j] == old_r[j - 1]);
                    assert(old_r[i] < svc);
                    assert(p < old_r.len() ==> svc < old_r[p as int]);
                } else if i == p {
                    assert(r@[j] == old_r[j - 1]);
                    assert(svc < old_r[p as int]);
                } else {
                    assert(r@[i] == old_r[i - 1] && r@[j] == old_r[j - 1]);
                }
            }
            assert forall|u: u128| r@.contains(u) implies exists|t: int|
                0 <= t < k + 1 && (#[trigger] cs@[t]).service == u by {
                assert(old_r.contains(u) || u == svc);
                if u == svc {
                    assert(cs@[k as int].service == u);
                }
            }
            assert forall|u: u128| (exists|t: int|
                0 <= t < k + 1 && (#[trigger] cs@[t]).service == u) implies r@.contains(u) by {
                let t = choose|t: int| 0 <= t < k + 1 && cs@[t].service == u;
                if t == k {
                    assert(u == svc);
                } else {
                    assert(old_r.contains(u));
                }
            }
        } else {
            assert(r@.contains(svc)) by {
                assert(r@[p as int] == svc);
            }
            assert forall|u: u128| r@.contains(u) implies exists|t: int|
                0 <= t < k + 1 && (#[trigger] cs@[t]).service == u by {
                if u == svc {
                    assert(cs@[k as int].service == u);
                }
            }
            assert forall|u: u128| (exists|t: int|
                0 <= t < k + 1 && (#[trigger] cs@[t]).service == u) implies r@.contains(u) by {
                let t = choose|t: int| 0 <= t < k + 1 && cs@[t].service == u;
                if t == k {
                    assert(u == svc);
                }
            }
        }
        k = k + 1;
    }
    r
}

/// Builds one characteristic's rows.
fn characteristic_block(c: &Characteristic) -> (r: Vec<OverlayRow>)
    ensures
        r@ == characteristic_rows(*c),
{
    let mut out: Vec<OverlayRow> = Vec::new();
    out.push(OverlayRow::Characteristic(c.uuid));
    out.push(OverlayRow::Properties(c.properties));
    let mut d: usize = 0;
    while d < c.descriptors.len()
        invariant
            d <= c.descriptors@.len(),
            out@ =~= seq![
                OverlayRow::Characteristic(c.uuid),
                OverlayRow::Properties(c.properties),
            ] + c.descriptors@.take(d as int).map_values(|u: u128| OverlayRow::Descriptor(u)),
        decreases c.descriptors@.len() - d,
    {
        out.push(OverlayRow::Descriptor(c.descriptors[d]));
        assert(c.descriptors@.take(d + 1).map_values(|u: u128| OverlayRow::Descriptor(u)) =~= c
            .descriptors@.take(d as int).map_values(|u: u128| OverlayRow::Descriptor(u)).push(
            OverlayRow::Descriptor(c.descriptors@[d as int]),
        ));
        d = d + 1;
    }
    assert(c.descriptors@.take(c.descriptors@.len() as int) =~= c.descriptors@);
    assert(out@ =~= characteristic_rows(*c));
    out
}

/// Builds one service's group: the header, then the rows of exactly the
/// characteristics that belong to it, in their original order.
pub fn service_group(cs: &Vec<Characteristic>, svc: u128) -> (r: Vec<OverlayRow>)
    ensures
        r@ == group_rows(cs@, svc),
{
    let mut out: Vec<OverlayRow> = Vec::new();
    out.push(OverlayRow::Service(svc));
    let mut t: usize = 0;
    while t < cs.len()
        invariant
            t <= cs@.len(),
            out@ =~= seq![OverlayRow::Service(svc)] + service_rows(cs@.take(t as int), svc),
        decreases cs@.len() - t,
    {
        assert(cs@.take(t + 1).drop_last() =~= cs@.take(t as int));
        if cs[t].service == svc {
            let block = characteristic_block(&cs[t]);
            let mut b: usize = 0;
            while b < block.len()
                invariant
                    b <= block@.len(),
                    out@ =~= seq![OverlayRow::Service(svc)] + service_rows(
                        cs@.take(t as int),
                        svc,
                    ) + block@.take(b as int),
                decreases block@.len() - b,
            {
                out.push(block[b]);
                assert(block@.take(b + 1) =~= block@.take(b as int).push(block@[b as int]));
                b = b + 1;
            }
            assert(block@.take(block@.len() as int) =~= block@);
        }
        t = t + 1;
    }
    assert(cs@.take(cs@.len() as int) =~= cs@);
    out
}

/// Builds the whole overlay for one characteristic list: the loading row
/// while the list is empty, and otherwise the service groups in ascending
/// service-UUID order, each service once.
pub fn overlay_rows(cs: &Vec<Characteristic>) -> (r: Vec<OverlayRow>)
    ensures
        overlay_rows_spec(cs@, r@),
{
    if cs.len() == 0 {
        let mut out: Vec<OverlayRow> = Vec::new();
        out.push(OverlayRow::Loading);
        assert(out@ =~= seq![OverlayRow::Loading]);
        out
    } else {
        let svcs = sorted_services(cs);
        let mut out: Vec<OverlayRow> = Vec::new();
        let mut s: usize = 0;
        while s < svcs.len()
            invariant
                s <= svcs@.len(),
                out@ =~= blocks(svcs@.take(s as int), cs@),
            decreases svcs@.len() - s,
        {
            assert(svcs@.take(s + 1).drop_last() =~= svcs@.take(s as int));
            let group = service_group(cs, svcs[s]);
            let mut b: usize = 0;
            while b < group.len()
                invariant
                    b <= group@.len(),
                    out@ =~= blocks(svcs@.take(s as int), cs@) + group@.take(b as int),
                decreases group@.len() - b,
            {
                out.push(group[b]);
                assert(group@.take(b + 1) =~= group@.take(b as int).push(group@[b as int]));
                b = b + 1;
            }
            assert(group@.take(group@.len() as int) =~= group@);
            s = s + 1;
        }
        assert(svcs@.take(svcs@.len() as int) =~= svcs@);
        out
    }
}

/// The window of rows the overlay shows: the border and title take three
/// lines off the height when there is room, the window starts at the scroll
/// position, and a scroll past the end shows nothing.
pub open spec fn window_spec(rows: Seq<OverlayRow>, scroll: int, height: int) -> Seq<OverlayRow> {
    let visible = if height > 3 {
        height - 3
    } else {
        height
    };
    if scroll < rows.len() {
        let end = if scroll + visible < rows.len() {
            scroll + visible
        } else {
            rows.len() as int
        };
        rows.subrange(scroll, end)
    } else {
        Seq::empty()
    }
}

/// Cuts the visible window out of the overlay rows.
pub fn visible_window(rows: &Vec<OverlayRow>, scroll: usize, height: u16) -> (r: Vec<OverlayRow>)
    ensures
        r@ == window_spec(rows@, scroll as int, height as int),
{
    let visible: usize = if height > 3 {
        (height - 3) as usize
    } else {
        height as usize
    };
    let mut out: Vec<OverlayRow> = Vec::new();
    if scroll < rows.len() {
        let end: usize = if rows.len() - scroll < visible {
            rows.len()
        } else {
            scroll + visible
        };
        let mut k: usize = scroll;
        while k < end
            invariant
                scroll <= k <= end <= rows@.len(),
                out@ =~= rows@.subrange(scroll as int, k as int),
            decreases end - k,
        {
            out.push(rows[k]);
            assert(rows@.subrange(scroll as int, k + 1) =~= rows@.subrange(
                scroll as int,
                k as int,
            ).push(rows@[k as int]));
            k = k + 1;
        }
    }
    assert(out@ =~= window_spec(rows@, scroll as int, height as int));
    out
}

/// The rows the overlay shows for one characteristic list at one scroll
/// position: the visible window of the full overlay.
pub fn inspect_rows(cs: &Vec<Characteristic>, scroll: usize, height: u16) -> (r: Vec<OverlayRow>)
    ensures
        exists|rows: Seq<OverlayRow>| #[trigger] overlay_rows_spec(cs@, rows) && r@ == window_spec(
            rows,
            scroll as int,
            height as int,
        ),
{
    let rows = overlay_rows(cs);
    let ghost full = rows@;
    let r = visible_window(&rows, scroll, height);
    assert(overlay_rows_spec(cs@, full) && r@ == window_spec(
        full,
        scroll as int,
        height as int,
    ));
    r
}

/// The names of the set operation bits, in declaration order of the bitset.
pub open spec fn name_part(present: bool, name: Seq<char>) -> Seq<Seq<char>> {
    if present {
        seq![name]
    } else {
        Seq::empty()
    }
}

/// The names of the operations a characteristic's bitset supports, in the
/// order the adapter declares the bits.
pub open spec fn flag_names(bits: u8) -> Seq<Seq<char>> {
    name_part(bits & 0x01 != 0, "BROADCAST"@) + name_part(bits & 0x02 != 0, "READ"@) + name_part(
        bits & 0x04 != 0,
        "WRITE_WITHOUT_RESPONSE"@,
    ) + name_part(bits & 0x08 != 0, "WRITE"@) + name_part(bits & 0x10 != 0, "NOTIFY"@) + name_part(
        bits & 0x20 != 0,
        "INDICATE"@,
    ) + name_part(bits & 0x40 != 0, "AUTHENTICATED_SIGNED_WRITES"@) + name_part(
        bits & 0x80 != 0,
        "EXTENDED_PROPERTIES"@,
    )
}

/// Lists the names of the operations a bitset supports, for the properties
/// row of the overlay.
#[verifier::rlimit(100)]
pub fn property_names(bits: u8) -> (r: Vec<String>)
    ensures
        r@.map_values(|s: String| s@) == flag_names(bits),
{
    let mut names: Vec<String> = Vec::new();
    if bits & 0x01 != 0 {
        names.push(String::from_str("BROADCAST"));
    }
    assert(names@.map_values(|s: String| s@) =~= name_part(bits & 0x01 != 0, "BROADCAST"@));
    let ghost done1 = names@.map_values(|s: String| s@);
    if bits & 0x02 != 0 {
        names.push(String::from_str("READ"));
    }
    assert(names@.map_values(|s: String| s@) =~= done1 + name_part(bits & 0x02 != 0, "READ"@));
    let ghost done2 = names@.map_values(|s: String| s@);
    if bits & 0x04 != 0 {
        names.push(String::from_str("WRITE_WITHOUT_RESPONSE"));
    }
    assert(names@.map_values(|s: String| s@) =~= done2 + name_part(
        bits & 0x04 != 0,
        "WRITE_WITHOUT_RESPONSE"@,
    ));
    let ghost done3 = names@.map_values(|s: String| s@);
    if bits & 0x08 != 0 {
        names.push(String::from_str("WRITE"));
    }
    assert(names@.map_values(|s: String| s@) =~= done3 + name_part(bits & 0x08 != 0, "WRITE"@));
    let ghost done4 = names@.map_values(|s: String| s@);
    if bits & 0x10 != 0 {
        names.push(String::from_str("NOTIFY"));
    }
    assert(names@.map_values(|s: String| s@) =~= done4 + name_part(bits & 0x10 != 0, "NOTIFY"@));
    let ghost done5 = names@.map_values(|s: String| s@);
    if bits & 0x20 != 0 {
        names.push(String::from_str("INDICATE"));
    }
    assert(names@.map_values(|s: String| s@) =~= done5 + name_part(bits & 0x20 != 0, "INDICATE"@));
    let ghost done6 = names@.map_values(|s: String| s@);
    if bits & 0x40 != 0 {
        names.push(String::from_str("AUTHENTICATED_SIGNED_WRITES"));
    }
    assert(names@.map_values(|s: String| s@) =~= done6 + name_part(
        bits & 0x40 != 0,
        "AUTHENTICATED_SIGNED_WRITES"@,
    ));
    let ghost done7 = names@.map_values(|s: String| s@);
    if bits & 0x80 != 0 {
        names.push(String::from_str("EXTENDED_PROPERTIES"));
    }
    assert(names@.map_values(|s: String| s@) =~= done7 + name_part(
        bits & 0x80 != 0,
        "EXTENDED_PROPERTIES"@,
    ));
    assert(names@.map_values(|s: String| s@) =~= flag_names(bits));
    names
}

} // verus!
