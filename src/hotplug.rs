//! Recognising the CEC adapter among the serial devices that come and go.
use vstd::prelude::*;
use vstd::string::*;

use crate::event::Request;

verus! {

/// USB vendor id of the CEC adapter.
pub const CEC_VID: u16 = 0x2548;

/// USB product id of the CEC adapter.
pub const CEC_PID: u16 = 0x1001;

/// The other USB product id that the CEC adapter may enumerate under.
pub const CEC_PID2: u16 = 0x1002;

/// What happened to a device.
#[derive(Debug, Clone, Copy, PartialEq, Eq, Structural)]
pub enum HotplugAction {
    Add,
    Remove,
    /// A change, a bind, or any other kind of device event.
    Other,
}

/// The value of a hexadecimal digit, either case.
pub open spec fn hex_digit_value(c: char) -> Option<nat> {
    if '0' <= c && c <= '9' {
        Some((c as u32 - '0' as u32) as nat)
    } else if 'a' <= c && c <= 'f' {
        Some((c as u32 - 'a' as u32 + 10) as nat)
    } else if 'A' <= c && c <= 'F' {
        Some((c as u32 - 'A' as u32 + 10) as nat)
    } else {
        None
    }
}

pub open spec fn all_hex_digits(s: Seq<char>) -> bool {
    forall|i: int| 0 <= i < s.len() ==> (#[trigger] hex_digit_value(s[i])) is Some
}

/// The number that a string of hexadecimal digits writes.
pub open spec fn hex_number(s: Seq<char>) -> nat
    decreases s.len(),
{
    if s.len() == 0 {
        0
    } else {
        hex_number(s.drop_last()) * 16 + match hex_digit_value(s.last()) {
            Some(v) => v,
            None => 0,
        }
    }
}

/// The digits of an id: what follows an optional leading `+`.
pub open spec fn id_digits(s: Seq<char>) -> Seq<char> {
    if s.len() > 0 && s[0] == '+' {
        s.subrange(1, s.len() as int)
    } else {
        s
    }
}

/// A 16-bit hexadecimal id as it is read from a device attribute: an
/// optional `+`, then one or more hexadecimal digits whose value fits.
pub open spec fn hex_id(s: Seq<char>) -> Option<u16> {
    let d = id_digits(s);
    if d.len() > 0 && all_hex_digits(d) && hex_number(d) <= 0xFFFF {
        Some(hex_number(d) as u16)
    } else {
        None
    }
}

proof fn lemma_hex_number_prefix(d: Seq<char>, k: int)
    requires
        0 <= k <= d.len(),
    ensures
        hex_number(d.subrange(0, k)) <= hex_number(d),
    decreases d.len(),
{
    if k == d.len() {
        assert(d.subrange(0, k) =~= d);
    } else {
        let init = d.drop_last();
        lemma_hex_number_prefix(init, k);
        assert(init.subrange(0, k) =~= d.subrange(0, k));
    }
}

fn digit_value(c: char) -> (r: Option<u32>)
    ensures
        r matches Some(v) ==> hex_digit_value(c) == Some(v as nat) && v < 16,
        r is None ==> hex_digit_value(c) is None,
{
    if '0' <= c && c <= '9' {
        Some(c as u32 - '0' as u32)
    } else if 'a' <= c && c <= 'f' {
        Some(c as u32 - 'a' as u32 + 10)
    } else if 'A' <= c && c <= 'F' {
        Some(c as u32 - 'A' as u32 + 10)
    } else {
        None
    }
}

/// Reads a hexadecimal USB id from a device attribute, if there is one.
pub fn parse_id(id: Option<&str>) -> (r: Option<u16>)
    ensures
        r == (match id {
            Some(s) => hex_id(s@),
            None => None,
        }),
{
    let s = match id {
        Some(s) => s,
        None => return None,
    };
    let n = s.unicode_len();
    let start: usize = if n > 0 && s.get_char(0) == '+' {
        1
    } else {
        0
    };
    let ghost d = id_digits(s@);
    assert(d =~= s@.subrange(start as int, n as int));
    if start == n {
        return None;
    }
    let mut acc: u32 = 0;
    let mut i: usize = start;
    while i < n
        invariant
            start <= i <= n,
            n == s@.len(),
            d == s@.subrange(start as int, n as int),
            d == id_digits(s@),
            id == Some(s),
            acc <= 0xFFFF,
            acc as nat == hex_number(d.subrange(0, i - start)),
            all_hex_digits(d.subrange(0, i - start)),
        decreases n - i,
    {
        let c = s.get_char(i);
        let ghost k = i - start;
        assert(d[k] == c);
        match digit_value(c) {
            None => {
                assert(hex_digit_value(d[k]) is None);
                assert(!all_hex_digits(d));
                return None;
            },
            Some(v) => {
                let ghost pre = d.subrange(0, k);
                let ghost next = d.subrange(0, k + 1);
                assert(next.drop_last() =~= pre);
                assert(all_hex_digits(next)) by {
                    assert forall|j: int| 0 <= j < next.len() implies (#[trigger] hex_digit_value(
                        next[j],
                    )) is Some by {
                        if j < k {
                            assert(next[j] == pre[j]);
                        }
                    }
                }
                if acc > (0xFFFF - v) / 16 {
                    proof {
                        assert(next.last() == c);
                        assert(hex_number(next) == hex_number(pre) * 16 + v);
                        assert(acc * 16 + v > 0xFFFF) by (nonlinear_arith)
                            requires
                                acc > (0xFFFF - v) / 16,
                                v < 16,
                        ;
                        assert(hex_number(next) > 0xFFFF);
                        if all_hex_digits(d) {
                            lemma_hex_number_prefix(d, k + 1);
                        }
                    }
                    return None;
                }
                proof {
                    assert(next.last() == c);
                    assert(hex_number(next) == hex_number(pre) * 16 + v);
                    assert(acc * 16 + v <= 0xFFFF) by (nonlinear_arith)
                        requires
                            acc <= (0xFFFF - v) / 16,
                            v < 16,
                    ;
                }
                acc = acc * 16 + v;
            },
        }
        i += 1;
    }
    assert(d.subrange(0, n - start) =~= d);
    Some(acc as u16)
}

/// Whether the ids are those of the CEC adapter.
pub open spec fn is_cec_adapter(vendor: Option<u16>, product: Option<u16>) -> bool {
    vendor == Some(CEC_VID) && (product == Some(CEC_PID) || product == Some(CEC_PID2))
}

/// What a device event asks of the CEC connection. `vendor` and `product`
/// are the text of the id attributes of the event's parent USB device,
/// `None` where the device or the attribute is missing; `devnode` is the
/// path of the device node. The adapter appearing asks for a connection on
/// its device node, the adapter disappearing asks to drop the connection,
/// and anything else asks for nothing.
pub fn hotplug_request(
    action: HotplugAction,
    vendor: Option<&str>,
    product: Option<&str>,
    devnode: Vec<u8>,
) -> (r: Option<Request>)
    ensures
        is_cec_adapter(
            match vendor {
                Some(s) => hex_id(s@),
                None => None,
            },
            match product {
                Some(s) => hex_id(s@),
                None => None,
            },
        ) ==> match action {
            HotplugAction::Add => r == Some(Request::ResetDevice(Some(devnode))),
            HotplugAction::Remove => r == Some(Request::RemoveDevice(devnode)),
            HotplugAction::Other => r is None,
        },
        !is_cec_adapter(
            match vendor {
                Some(s) => hex_id(s@),
                None => None,
            },
            match product {
                Some(s) => hex_id(s@),
                None => None,
            },
        ) ==> r is None,
{
    let vid = parse_id(vendor);
    let pid = parse_id(product);
    let matches_adapter = match (vid, pid) {
        (Some(v), Some(p)) => v == CEC_VID && (p == CEC_PID || p == CEC_PID2),
        _ => false,
    };
    if !matches_adapter {
        return None;
    }
    match action {
        HotplugAction::Add => Some(Request::ResetDevice(Some(devnode))),
        HotplugAction::Remove => Some(Request::RemoveDevice(devnode)),
        HotplugAction::Other => None,
    }
}

} // verus!
