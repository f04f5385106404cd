//! HID++ 1.0 / 2.0 wire constants and report (de)serialization.
//!
//! Packet layout (matching Solaar / logiops):
//!   byte0  report id      0x10 short (7 bytes) / 0x11 long (20 bytes)
//!   byte1  device index   1..=6 via receiver, 0xFF for direct Bluetooth
//!   byte2  feature index  (or 0xFF/0x8F on error reports)
//!   byte3  address        (function << 4) | software id
//!   byte4+ parameters

use vstd::prelude::*;

verus! {

pub const VENDOR_LOGITECH: u16 = 0x046D;

pub const PID_UNIFYING_RECEIVER: u16 = 0xC52B;

pub const PID_MX_MASTER_2S_BT: u16 = 0xB019;

/// Vendor-defined HID usage page carrying HID++ collections.
pub const USAGE_PAGE_HIDPP: u16 = 0xFF00;

/// Long-report (0x11) collection usage.
pub const USAGE_HIDPP_LONG: u16 = 0x0002;

pub const REPORT_ID_SHORT: u8 = 0x10;

pub const REPORT_ID_LONG: u8 = 0x11;

pub const SHORT_LEN: usize = 7;

pub const LONG_LEN: usize = 20;

/// Our software id (low nibble of the address byte, 1..=15). Responses echo it,
/// letting us distinguish command replies from device-initiated events (which
/// carry software id 0).
pub const SW_ID: u8 = 0x0A;

/// IRoot is always reachable at feature index 0.
pub const ROOT_INDEX: u8 = 0x00;

pub const FEAT_FEATURE_SET: u16 = 0x0001;

pub const FEAT_DEVICE_INFO: u16 = 0x0003;

pub const FEAT_BATTERY_STATUS: u16 = 0x1000;

pub const FEAT_REPROG_CONTROLS_V4: u16 = 0x1B04;

pub const FEAT_SMART_SHIFT: u16 = 0x2110;

pub const FEAT_HIRES_WHEEL: u16 = 0x2121;

pub const FEAT_ADJUSTABLE_DPI: u16 = 0x2201;

/// Marker in the feature-index byte for a HID++ 2.0 error reply.
pub const ERR20_MARKER: u8 = 0xFF;

/// Sub-id marker for a HID++ 1.0 error reply.
pub const ERR10_MARKER: u8 = 0x8F;

/// The address byte for `function`: its low nibble in the high nibble, our
/// software id in the low nibble.
pub open spec fn address_of(function: u8) -> u8 {
    ((function as int % 16) * 16 + SW_ID as int) as u8
}

/// Byte `i` of a report, reading as 0 past its end.
pub open spec fn byte_at(raw: Seq<u8>, i: int) -> u8 {
    if 0 <= i < raw.len() {
        raw[i]
    } else {
        0
    }
}

/// The first `n` bytes of `params`, zero-padded to exactly `n`.
pub open spec fn padded(params: Seq<u8>, n: nat) -> Seq<u8> {
    Seq::new(n, |i: int| byte_at(params, i))
}

/// The 20 bytes of a long request.
pub open spec fn long_request_bytes(
    device_index: u8,
    feature_index: u8,
    function: u8,
    params: Seq<u8>,
) -> Seq<u8> {
    seq![REPORT_ID_LONG, device_index, feature_index, address_of(function)] + padded(params, 16)
}

/// The 7 bytes of a short request.
pub open spec fn short_request_bytes(
    device_index: u8,
    sub_id: u8,
    address_byte: u8,
    params: Seq<u8>,
) -> Seq<u8> {
    seq![REPORT_ID_SHORT, device_index, sub_id, address_byte] + padded(params, 3)
}

/// Compose the address byte from a function id and our software id.
pub fn address(function: u8) -> (r: u8)
    ensures
        r == address_of(function),
{
    let r = (function << 4u8) | (SW_ID & 0x0F);
    assert(((function << 4u8) | (0x0Au8 & 0x0Fu8)) == ((function % 16) * 16 + 10) as u8)
        by (bit_vector);
    r
}

/// Build a 20-byte long request. `params` is zero-padded / truncated to fit.
pub fn long_request(device_index: u8, feature_index: u8, function: u8, params: &[u8]) -> (r: [u8; 20])
    ensures
        r@ == long_request_bytes(device_index, feature_index, function, params@),
{
    let mut r = [0u8; 20];
    r[0] = REPORT_ID_LONG;
    r[1] = device_index;
    r[2] = feature_index;
    r[3] = address(function);
    let n = if params.len() < LONG_LEN - 4 {
        params.len()
    } else {
        LONG_LEN - 4
    };
    let mut i: usize = 0;
    while i < n
        invariant
            n <= params.len(),
            n <= 16,
            i <= n,
            r@.len() == 20,
            r@[0] == REPORT_ID_LONG,
            r@[1] == device_index,
            r@[2] == feature_index,
            r@[3] == address_of(function),
            forall|k: int| 4 <= k < 4 + i ==> r@[k] == params@[k - 4],
            forall|k: int| 4 + i <= k < 20 ==> r@[k] == 0,
        decreases n - i,
    {
        r[4 + i] = params[i];
        i = i + 1;
    }
    assert(r@ =~= long_request_bytes(device_index, feature_index, function, params@));
    r
}

/// Build a 7-byte short request (HID++ 1.0 receiver registers).
pub fn short_request(device_index: u8, sub_id: u8, address_byte: u8, params: &[u8]) -> (r: [u8; 7])
    ensures
        r@ == short_request_bytes(device_index, sub_id, address_byte, params@),
{
    let mut r = [0u8; 7];
    r[0] = REPORT_ID_SHORT;
    r[1] = device_index;
    r[2] = sub_id;
    r[3] = address_byte;
    let n = if params.len() < SHORT_LEN - 4 {
        params.len()
    } else {
        SHORT_LEN - 4
    };
    let mut i: usize = 0;
    while i < n
        invariant
            n <= params.len(),
            n <= 3,
            i <= n,
            r@.len() == 7,
            r@[0] == REPORT_ID_SHORT,
            r@[1] == device_index,
            r@[2] == sub_id,
            r@[3] == address_byte,
            forall|k: int| 4 <= k < 4 + i ==> r@[k] == params@[k - 4],
            forall|k: int| 4 + i <= k < 7 ==> r@[k] == 0,
        decreases n - i,
    {
        r[4 + i] = params[i];
        i = i + 1;
    }
    assert(r@ =~= short_request_bytes(device_index, sub_id, address_byte, params@));
    r
}

/// A parsed HID++ report (any length). `raw` keeps the exact bytes read so the
/// error layouts can be decoded precisely.
pub struct Report {
    pub raw: Vec<u8>,
}

impl View for Report {
    type V = Seq<u8>;

    open spec fn view(&self) -> Seq<u8> {
        self.raw@
    }
}

pub open spec fn function_of(raw: Seq<u8>) -> u8 {
    byte_at(raw, 3) / 16
}

pub open spec fn sw_id_of(raw: Seq<u8>) -> u8 {
    byte_at(raw, 3) % 16
}

pub open spec fn is_error_20_of(raw: Seq<u8>) -> bool {
    byte_at(raw, 2) == ERR20_MARKER
}

pub open spec fn is_error_10_of(raw: Seq<u8>) -> bool {
    byte_at(raw, 2) == ERR10_MARKER
}

/// A device-initiated event: no error marker and software id 0.
pub open spec fn is_event_of(raw: Seq<u8>) -> bool {
    !is_error_20_of(raw) && !is_error_10_of(raw) && sw_id_of(raw) == 0
}

/// Parameter byte `n` (0-based after the 4-byte header).
pub open spec fn param_of(raw: Seq<u8>, n: int) -> u8 {
    byte_at(raw, 4 + n)
}

/// A big-endian 16-bit value from parameters `n` and `n + 1`.
pub open spec fn be16_of(raw: Seq<u8>, n: int) -> u16 {
    (param_of(raw, n) as int * 256 + param_of(raw, n + 1) as int) as u16
}

/// Combine two bytes into a big-endian `u16`.
pub fn be16(hi: u8, lo: u8) -> (r: u16)
    ensures
        r == hi as int * 256 + lo as int,
{
    let r = ((hi as u16) << 8u16) | lo as u16;
    assert(((hi as u16) << 8u16) | lo as u16 == hi as u16 * 256 + lo as u16) by (bit_vector);
    r
}

impl Report {
    pub fn new(bytes: &[u8]) -> (r: Report)
        ensures
            r@ == bytes@,
    {
        let mut raw: Vec<u8> = Vec::new();
        let mut i: usize = 0;
        while i < bytes.len()
            invariant
                i <= bytes.len(),
                raw@ == bytes@.take(i as int),
            decreases bytes.len() - i,
        {
            raw.push(bytes[i]);
            i = i + 1;
            assert(raw@ =~= bytes@.take(i as int));
        }
        assert(bytes@.take(bytes.len() as int) =~= bytes@);
        Report { raw }
    }

    fn at(&self, i: usize) -> (r: u8)
        ensures
            r == byte_at(self@, i as int),
    {
        if i < self.raw.len() {
            self.raw[i]
        } else {
            0
        }
    }

    pub fn report_id(&self) -> (r: u8)
        ensures
            r == byte_at(self@, 0),
    {
        self.at(0)
    }

    pub fn device_index(&self) -> (r: u8)
        ensures
            r == byte_at(self@, 1),
    {
        self.at(1)
    }

    pub fn feature_index(&self) -> (r: u8)
        ensures
            r == byte_at(self@, 2),
    {
        self.at(2)
    }

    pub fn address_byte(&self) -> (r: u8)
        ensures
            r == byte_at(self@, 3),
    {
        self.at(3)
    }

    pub fn function(&self) -> (r: u8)
        ensures
            r == function_of(self@),
    {
        let a = self.address_byte();
        assert(a >> 4u8 == a / 16) by (bit_vector);
        a >> 4
    }

    pub fn sw_id(&self) -> (r: u8)
        ensures
            r == sw_id_of(self@),
    {
        let a = self.address_byte();
        assert(a & 0x0Fu8 == a % 16) by (bit_vector);
        a & 0x0F
    }

    /// Parameter byte `n` (0-based after the 4-byte header).
    pub fn param(&self, n: usize) -> (r: u8)
        requires
            n + 4 <= usize::MAX,
        ensures
            r == param_of(self@, n as int),
    {
        self.at(4 + n)
    }

    pub fn is_error_20(&self) -> (r: bool)
        ensures
            r == is_error_20_of(self@),
    {
        self.feature_index() == ERR20_MARKER
    }

    pub fn is_error_10(&self) -> (r: bool)
        ensures
            r == is_error_10_of(self@),
    {
        self.feature_index() == ERR10_MARKER
    }

    /// For a 2.0 error reply: (failed feature index, failed address, code).
    pub fn error_20(&self) -> (r: (u8, u8, u8))
        ensures
            r == (byte_at(self@, 3), byte_at(self@, 4), byte_at(self@, 5)),
    {
        (self.at(3), self.at(4), self.at(5))
    }

    /// True when this looks like a device-initiated event (software id 0) as
    /// opposed to a reply to one of our commands.
    pub fn is_event(&self) -> (r: bool)
        ensures
            r == is_event_of(self@),
    {
        !self.is_error_20() && !self.is_error_10() && self.sw_id() == 0
    }
}

/// The log name of each HID++ 2.0 error code.
pub open spec fn error_20_text(code: u8) -> Seq<char> {
    if code == 0 {
        "no error"@
    } else if code == 1 {
        "unknown"@
    } else if code == 2 {
        "invalid argument"@
    } else if code == 3 {
        "out of range"@
    } else if code == 4 {
        "hardware error"@
    } else if code == 5 {
        "logitech internal"@
    } else if code == 6 {
        "invalid feature index"@
    } else if code == 7 {
        "invalid function id"@
    } else if code == 8 {
        "busy"@
    } else if code == 9 {
        "unsupported"@
    } else {
        "reserved"@
    }
}

/// Human-readable name for a HID++ 2.0 error code, for logs.
pub fn error_20_name(code: u8) -> (r: &'static str)
    ensures
        r@ == error_20_text(code),
{
    match code {
        0 => "no error",
        1 => "unknown",
        2 => "invalid argument",
        3 => "out of range",
        4 => "hardware error",
        5 => "logitech internal",
        6 => "invalid feature index",
        7 => "invalid function id",
        8 => "busy",
        9 => "unsupported",
        _ => "reserved",
    }
}

/// What a long request says is what the report reader reads back: the device
/// index, feature index, function and parameters of a request come back out of
/// the same bytes unchanged, the software id is ours, and (for any feature
/// index other than an error marker) our own request never reads as a
/// device-initiated event.
pub proof fn lemma_long_request_reads_back(
    device_index: u8,
    feature_index: u8,
    function: u8,
    params: Seq<u8>,
)
    ensures
        ({
            let raw = long_request_bytes(device_index, feature_index, function, params);
            &&& raw.len() == LONG_LEN
            &&& byte_at(raw, 0) == REPORT_ID_LONG
            &&& byte_at(raw, 1) == device_index
            &&& byte_at(raw, 2) == feature_index
            &&& function_of(raw) == function % 16
            &&& sw_id_of(raw) == SW_ID
            &&& forall|n: int| 0 <= n < 16 ==> #[trigger] param_of(raw, n) == byte_at(params, n)
            &&& !is_event_of(raw)
        }),
{
    let raw = long_request_bytes(device_index, feature_index, function, params);
    let a = address_of(function);
    assert(byte_at(raw, 3) == a);
    let f = function;
    assert(((f % 16) * 16 + 10) as u8 / 16 == f % 16) by (bit_vector);
    assert(((f % 16) * 16 + 10) as u8 % 16 == 10) by (bit_vector);
    assert forall|n: int| 0 <= n < 16 implies #[trigger] param_of(raw, n) == byte_at(params, n) by {
        assert(raw[4 + n] == padded(params, 16)[n]);
    }
}

} // verus!
