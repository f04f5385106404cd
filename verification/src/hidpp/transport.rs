//! Choosing the HID++ interface to talk to among the HID devices present. The
//! program enumerates and opens devices; the choice is made here.

use crate::hidpp::protocol::{
    PID_MX_MASTER_2S_BT, PID_UNIFYING_RECEIVER, USAGE_HIDPP_LONG, USAGE_PAGE_HIDPP,
    VENDOR_LOGITECH,
};
use crate::text::{decimal, empty_string, push_decimal, push_str};
use vstd::prelude::*;

verus! {

#[derive(Debug, Clone, Copy, PartialEq, Eq, Structural)]
pub enum ConnectionKind {
    Receiver,
    Bluetooth,
}

/// The connection label the Device tab shows.
pub open spec fn label_text(kind: ConnectionKind, device_index: u8) -> Seq<char> {
    match kind {
        ConnectionKind::Receiver => "Unifying receiver (device "@ + decimal(device_index as nat) + ")"@,
        ConnectionKind::Bluetooth => "Bluetooth"@,
    }
}

impl ConnectionKind {
    pub fn label(&self, device_index: u8) -> (r: String)
        ensures
            r@ == label_text(*self, device_index),
    {
        match self {
            ConnectionKind::Receiver => {
                let mut s = empty_string();
                push_str(&mut s, "Unifying receiver (device ");
                push_decimal(&mut s, device_index as u32);
                push_str(&mut s, ")");
                assert(s@ =~= label_text(*self, device_index));
                s
            },
            ConnectionKind::Bluetooth => String::from_str("Bluetooth"),
        }
    }
}

/// What the interface choice reads of one enumerated HID device.
#[derive(Debug, Clone, Copy, PartialEq, Eq, Structural)]
pub struct HidInfo {
    pub vendor_id: u16,
    pub product_id: u16,
    pub usage_page: u16,
    pub usage: u16,
}

/// A Unifying receiver's HID++ collection.
pub open spec fn is_receiver(i: HidInfo) -> bool {
    i.vendor_id == VENDOR_LOGITECH && i.product_id == PID_UNIFYING_RECEIVER && i.usage_page
        == USAGE_PAGE_HIDPP
}

/// The receiver's long-report collection, which is preferred.
pub open spec fn receiver_prefers(i: HidInfo) -> bool {
    i.usage == USAGE_HIDPP_LONG
}

/// The 2S's Bluetooth HID++ collection: a vendor-defined usage page (the
/// standard mouse collection is skipped).
pub open spec fn is_bluetooth(i: HidInfo) -> bool {
    i.vendor_id == VENDOR_LOGITECH && !is_receiver(i) && i.product_id == PID_MX_MASTER_2S_BT
        && i.usage_page >= 0xFF00
}

/// The long collection over Bluetooth may use usage 0x0002 or 0x0202.
pub open spec fn bluetooth_prefers(i: HidInfo) -> bool {
    i.usage == USAGE_HIDPP_LONG || i.usage == 0x0202
}

/// The entry chosen among `infos` for a kind: the last preferred one when any
/// is preferred, else the first that qualifies; `None` when none does.
pub open spec fn pick(infos: Seq<HidInfo>, qualifies: spec_fn(HidInfo) -> bool, prefers: spec_fn(HidInfo) -> bool) -> Option<int>
    decreases infos.len(),
{
    if infos.len() == 0 {
        None
    } else {
        let earlier = pick(infos.drop_last(), qualifies, prefers);
        let i = infos.len() - 1;
        if qualifies(infos[i]) && (earlier is None || prefers(infos[i])) {
            Some(i)
        } else {
            earlier
        }
    }
}

pub open spec fn receiver_choice(infos: Seq<HidInfo>) -> Option<int> {
    pick(infos, |i: HidInfo| is_receiver(i), |i: HidInfo| receiver_prefers(i))
}

pub open spec fn bluetooth_choice(infos: Seq<HidInfo>) -> Option<int> {
    pick(infos, |i: HidInfo| is_bluetooth(i), |i: HidInfo| bluetooth_prefers(i))
}

pub open spec fn opt_seq(kind: ConnectionKind, choice: Option<int>) -> Seq<(usize, ConnectionKind)> {
    match choice {
        Some(i) => seq![(i as usize, kind)],
        None => Seq::empty(),
    }
}

/// Pick the Logitech HID++ control interfaces to try, receiver first then
/// Bluetooth, as indices into `infos`. A receiver may be plugged in with no
/// paired mouse while the 2S is on Bluetooth, so the caller tries each until
/// one yields a live device; an empty result means none was found.
pub fn select_candidates(infos: &[HidInfo]) -> (r: Vec<(usize, ConnectionKind)>)
    ensures
        r@ == opt_seq(ConnectionKind::Receiver, receiver_choice(infos@)) + opt_seq(
            ConnectionKind::Bluetooth,
            bluetooth_choice(infos@),
        ),
        (exists|i: int| 0 <= i < infos@.len() && #[trigger] bt_hidpp(infos@[i])) ==> exists|k: int|
            0 <= k < r@.len() && (#[trigger] r@[k]).1 == ConnectionKind::Bluetooth,
        (exists|i: int| 0 <= i < infos@.len() && #[trigger] receiver_hidpp(infos@[i])) ==> r@.len()
            > 0 && r@[0].1 == ConnectionKind::Receiver,
{
    proof {
        lemma_candidates_found(infos@);
    }
    let mut receiver: Option<usize> = None;
    let mut bluetooth: Option<usize> = None;
    let mut n: usize = 0;
    while n < infos.len()
        invariant
            n <= infos.len(),
            opt_int(receiver) == receiver_choice(infos@.take(n as int)),
            opt_int(bluetooth) == bluetooth_choice(infos@.take(n as int)),
        decreases infos.len() - n,
    {
        let info = infos[n];
        assert(infos@.take(n + 1).drop_last() =~= infos@.take(n as int));
        assert(infos@.take(n + 1)[n as int] == info);
        if info.vendor_id == VENDOR_LOGITECH {
            if info.product_id == PID_UNIFYING_RECEIVER && info.usage_page == USAGE_PAGE_HIDPP {
                // Prefer the long-report (usage 0x0002) collection.
                let prefer = info.usage == USAGE_HIDPP_LONG;
                if receiver.is_none() || prefer {
                    receiver = Some(n);
                }
            } else if info.product_id == PID_MX_MASTER_2S_BT && info.usage_page >= 0xFF00 {
                let prefer = info.usage == USAGE_HIDPP_LONG || info.usage == 0x0202;
                if bluetooth.is_none() || prefer {
                    bluetooth = Some(n);
                }
            }
        }
        n = n + 1;
    }
    assert(infos@.take(infos.len() as int) =~= infos@);
    let mut out: Vec<(usize, ConnectionKind)> = Vec::new();
    if let Some(i) = receiver {
        out.push((i, ConnectionKind::Receiver));
    }
    if let Some(i) = bluetooth {
        out.push((i, ConnectionKind::Bluetooth));
    }
    assert(out@ =~= opt_seq(ConnectionKind::Receiver, receiver_choice(infos@)) + opt_seq(
        ConnectionKind::Bluetooth,
        bluetooth_choice(infos@),
    ));
    out
}

pub open spec fn opt_int(o: Option<usize>) -> Option<int> {
    match o {
        Some(v) => Some(v as int),
        None => None,
    }
}

/// A Logitech MX Master 2S (product 0xB019) collection on a vendor-defined
/// usage page (0xFF00 and above, such as 0xFF43): its HID++ interface over
/// Bluetooth.
pub open spec fn bt_hidpp(i: HidInfo) -> bool {
    i.vendor_id == 0x046D && i.product_id == 0xB019 && i.usage_page >= 0xFF00
}

/// A Logitech Unifying receiver (product 0xC52B) collection on the HID++
/// usage page 0xFF00.
pub open spec fn receiver_hidpp(i: HidInfo) -> bool {
    i.vendor_id == 0x046D && i.product_id == 0xC52B && i.usage_page == 0xFF00
}

proof fn lemma_pick_finds(infos: Seq<HidInfo>, q: spec_fn(HidInfo) -> bool, pr: spec_fn(HidInfo) -> bool)
    ensures
        (exists|i: int| 0 <= i < infos.len() && q(#[trigger] infos[i])) ==> pick(infos, q, pr) is Some,
        pick(infos, q, pr) matches Some(j) ==> 0 <= j < infos.len() && q(infos[j]),
    decreases infos.len(),
{
    if infos.len() > 0 {
        let init = infos.drop_last();
        lemma_pick_finds(init, q, pr);
        if exists|i: int| 0 <= i < infos.len() && q(#[trigger] infos[i]) {
            let i = choose|i: int| 0 <= i < infos.len() && q(#[trigger] infos[i]);
            if i < infos.len() - 1 {
                assert(init[i] == infos[i]);
            }
        }
    }
}

/// Both ways of reaching the mouse are found: any 2S collection on a
/// vendor-defined usage page yields a Bluetooth candidate, which is such a
/// collection; any receiver HID++ collection yields a receiver candidate,
/// offered first; and every candidate is of the kind it claims.
pub proof fn lemma_candidates_found(infos: Seq<HidInfo>)
    requires
        infos.len() <= usize::MAX,
    ensures
        ({
            let r = opt_seq(ConnectionKind::Receiver, receiver_choice(infos)) + opt_seq(
                ConnectionKind::Bluetooth,
                bluetooth_choice(infos),
            );
            &&& (exists|i: int| 0 <= i < infos.len() && #[trigger] bt_hidpp(infos[i])) ==> exists|k: int|
                0 <= k < r.len() && (#[trigger] r[k]).1 == ConnectionKind::Bluetooth
            &&& (exists|i: int| 0 <= i < infos.len() && #[trigger] receiver_hidpp(infos[i])) ==> r.len() > 0
                && r[0].1 == ConnectionKind::Receiver
            &&& forall|k: int|
                0 <= k < r.len() ==> 0 <= (#[trigger] r[k]).0 < infos.len() && (r[k].1
                    == ConnectionKind::Bluetooth ==> bt_hidpp(infos[r[k].0 as int])) && (r[k].1
                    == ConnectionKind::Receiver ==> receiver_hidpp(infos[r[k].0 as int]))
        }),
{
    let qb = |i: HidInfo| is_bluetooth(i);
    let pb = |i: HidInfo| bluetooth_prefers(i);
    let qr = |i: HidInfo| is_receiver(i);
    let pr = |i: HidInfo| receiver_prefers(i);
    lemma_pick_finds(infos, qb, pb);
    lemma_pick_finds(infos, qr, pr);
    assert(bluetooth_choice(infos) == pick(infos, qb, pb));
    assert(receiver_choice(infos) == pick(infos, qr, pr));
    if exists|i: int| 0 <= i < infos.len() && #[trigger] bt_hidpp(infos[i]) {
        let i = choose|i: int| 0 <= i < infos.len() && #[trigger] bt_hidpp(infos[i]);
        assert(qb(infos[i]));
    }
    if exists|i: int| 0 <= i < infos.len() && #[trigger] receiver_hidpp(infos[i]) {
        let i = choose|i: int| 0 <= i < infos.len() && #[trigger] receiver_hidpp(infos[i]);
        assert(qr(infos[i]));
    }
    let r = opt_seq(ConnectionKind::Receiver, receiver_choice(infos)) + opt_seq(
        ConnectionKind::Bluetooth,
        bluetooth_choice(infos),
    );
    let rs = opt_seq(ConnectionKind::Receiver, receiver_choice(infos));
    let bs = opt_seq(ConnectionKind::Bluetooth, bluetooth_choice(infos));
    if let Some(j) = bluetooth_choice(infos) {
        assert(bs[0] == (j as usize, ConnectionKind::Bluetooth));
        assert(r[r.len() - 1] == bs[0]);
        assert(r[r.len() - 1].1 == ConnectionKind::Bluetooth);
    }
    if let Some(j) = receiver_choice(infos) {
        assert(r[0] == rs[0]);
    }
    assert forall|k: int| 0 <= k < r.len() implies 0 <= (#[trigger] r[k]).0 < infos.len() && (r[k].1
        == ConnectionKind::Bluetooth ==> bt_hidpp(infos[r[k].0 as int])) && (r[k].1
        == ConnectionKind::Receiver ==> receiver_hidpp(infos[r[k].0 as int])) by {
        if k < rs.len() {
            assert(r[k] == rs[k]);
        } else {
            assert(r[k] == bs[k - rs.len()]);
        }
    }
}

} // verus!
