//! The wire grammar of inbound frames, as far as this session layer reads
//! them.
//!
//! A reply datagram is a link-layer frame (type byte, function, length)
//! around a network header (control flags, optional addresses, hop count)
//! around an application message. Classification needs only that framing
//! and the first fields of the message — which kind it is, its invoke id,
//! and for an identification reply the device and vendor identifiers — so
//! the grammar here parses exactly that and no more, and is total: every
//! byte sequence classifies.
//!
//! The grammar is deliberately strict and shallow at the edges:
//! - tags are accepted in their plain one-byte form with a small length,
//!   which is what encoders emit for these fields; extended tag forms
//!   classify as [`ReplyKind::Malformed`];
//! - confirmed requests, segment acknowledgements, rejects and aborts are
//!   well-formed messages that answer no pending request, and classify as
//!   [`ReplyKind::Other`] without being parsed further;
//! - the value payload of a read acknowledgement is not inspected here:
//!   it stays in the raw reply bytes for whoever decodes values.

use vstd::prelude::*;

use crate::codec::BUF_SIZE;

verus! {

/// What one inbound frame means to this session layer.
#[derive(Clone, Copy, Debug, PartialEq, Eq, Structural)]
pub enum ReplyKind {
    /// An I-AM announcement: a device identifies itself.
    IAm { device_instance: u32, vendor_id: u16 },
    /// A complex acknowledgement answering a single-property read.
    ReadAck { invoke_id: u8, instance: u32, property: u32 },
    /// A complex acknowledgement answering a multi-property read.
    ReadMultipleAck { invoke_id: u8 },
    /// A simple acknowledgement: the peer accepted a request.
    WriteAck { invoke_id: u8 },
    /// An error response: the peer refused a request.
    Rejection { invoke_id: u8 },
    /// A well-formed frame of some other message kind.
    Other,
    /// Bytes this grammar does not accept.
    Malformed,
}

/// The big-endian value of `len` bytes starting at `i` (one to four).
pub open spec fn uint_at(b: Seq<u8>, i: int, len: int) -> int {
    if len == 1 {
        b[i] as int
    } else if len == 2 {
        b[i] as int * 256 + b[i + 1] as int
    } else if len == 3 {
        b[i] as int * 65536 + b[i + 1] as int * 256 + b[i + 2] as int
    } else {
        b[i] as int * 16777216 + b[i + 1] as int * 65536 + b[i + 2] as int * 256 + b[i
            + 3] as int
    }
}

/// Where a network address field ending at most at `end` stops: two bytes
/// of network number, a length byte that must be zero or six, and that
/// many address bytes. `None` when the field does not fit or the length
/// byte is neither.
pub open spec fn addr_end(b: Seq<u8>, i: int, end: int) -> Option<int> {
    if i + 3 > end {
        None
    } else if b[i + 2] == 0 {
        Some(i + 3)
    } else if b[i + 2] == 6 {
        if i + 9 <= end {
            Some(i + 9)
        } else {
            None
        }
    } else {
        None
    }
}

/// Classifies an identification reply's payload: the four-byte device
/// object id tag (whose object type must be the device type), a skipped
/// unsigned field, a segmentation field whose value must name a
/// segmentation kind, and the vendor identifier, which must fit sixteen
/// bits.
pub open spec fn iam_class(b: Seq<u8>, i: int, end: int) -> ReplyKind {
    if !(i + 5 <= end && b[i] == 0xc4) {
        ReplyKind::Malformed
    } else {
        let object = uint_at(b, i + 1, 4);
        if object / 4194304 != 8 {
            ReplyKind::Malformed
        } else {
            let j = i + 5;
            if !(j + 1 <= end && b[j] / 16 == 2 && b[j] & 0x08 == 0 && 1 <= (b[j] & 0x07)
                && (b[j] & 0x07) <= 4 && j + 1 + (b[j] & 0x07) <= end) {
                ReplyKind::Malformed
            } else {
                let k = j + 1 + (b[j] & 0x07);
                if !(k + 1 <= end && b[k] / 16 == 9 && b[k] & 0x08 == 0 && 1 <= (b[k] & 0x07)
                    && (b[k] & 0x07) <= 4 && k + 1 + (b[k] & 0x07) <= end && uint_at(
                    b,
                    k + 1,
                    (b[k] & 0x07) as int,
                ) <= 4) {
                    ReplyKind::Malformed
                } else {
                    let m = k + 1 + (b[k] & 0x07);
                    if !(m + 1 <= end && b[m] / 16 == 2 && b[m] & 0x08 == 0 && 1 <= (b[m] & 0x07)
                        && (b[m] & 0x07) <= 4 && m + 1 + (b[m] & 0x07) <= end && uint_at(
                        b,
                        m + 1,
                        (b[m] & 0x07) as int,
                    ) <= 65535) {
                        ReplyKind::Malformed
                    } else {
                        ReplyKind::IAm {
                            device_instance: (object % 4194304) as u32,
                            vendor_id: uint_at(b, m + 1, (b[m] & 0x07) as int) as u16,
                        }
                    }
                }
            }
        }
    }
}

/// Classifies a read acknowledgement's leading fields: the four-byte
/// object id context tag and the property id context tag. The value
/// body that follows is not inspected.
pub open spec fn read_ack_class(b: Seq<u8>, i: int, end: int, invoke_id: u8) -> ReplyKind {
    if !(i + 5 <= end && b[i] == 0x0c) {
        ReplyKind::Malformed
    } else {
        let j = i + 5;
        if !(j + 1 <= end && b[j] / 16 == 1 && b[j] & 0x08 == 8 && 1 <= (b[j] & 0x07) && (b[j]
            & 0x07) <= 4 && j + 1 + (b[j] & 0x07) <= end) {
            ReplyKind::Malformed
        } else {
            ReplyKind::ReadAck {
                invoke_id,
                instance: (uint_at(b, i + 1, 4) % 4194304) as u32,
                property: uint_at(b, j + 1, (b[j] & 0x07) as int) as u32,
            }
        }
    }
}

/// Classifies an unconfirmed request: an identification reply is parsed,
/// every other known service kind is some other message, and a service
/// byte outside the known range is malformed.
pub open spec fn unconfirmed_class(b: Seq<u8>, i: int, end: int) -> ReplyKind {
    if i + 1 > end {
        ReplyKind::Malformed
    } else if b[i] == 0 {
        iam_class(b, i + 1, end)
    } else if b[i] <= 15 {
        ReplyKind::Other
    } else {
        ReplyKind::Malformed
    }
}

/// Classifies a complex acknowledgement by its service choice: a
/// single-property read answer is parsed further, a multi-property read
/// answer carries its invoke id, anything else is some other message.
pub open spec fn complex_ack_class(b: Seq<u8>, i: int, end: int) -> ReplyKind {
    if i + 2 > end {
        ReplyKind::Malformed
    } else if b[i + 1] == 12 {
        read_ack_class(b, i + 2, end, b[i])
    } else if b[i + 1] == 14 {
        ReplyKind::ReadMultipleAck { invoke_id: b[i] }
    } else {
        ReplyKind::Other
    }
}

/// Classifies the application message. A segmented message is refused; a
/// confirmed request answers nothing and is some other message; the four
/// reply kinds carry their invoke ids.
pub open spec fn apdu_class(b: Seq<u8>, i: int, end: int) -> ReplyKind {
    if i + 1 > end {
        ReplyKind::Malformed
    } else if b[i] % 16 >= 8 {
        ReplyKind::Malformed
    } else {
        let t = b[i] / 16;
        if t == 0 {
            ReplyKind::Other
        } else if t == 1 {
            unconfirmed_class(b, i + 1, end)
        } else if t == 2 {
            if i + 3 <= end {
                ReplyKind::WriteAck { invoke_id: b[i + 1] }
            } else {
                ReplyKind::Malformed
            }
        } else if t == 3 {
            complex_ack_class(b, i + 1, end)
        } else if t == 5 {
            if i + 3 <= end {
                ReplyKind::Rejection { invoke_id: b[i + 1] }
            } else {
                ReplyKind::Malformed
            }
        } else if t == 4 || t == 6 || t == 7 {
            ReplyKind::Other
        } else {
            ReplyKind::Malformed
        }
    }
}

/// Classifies the network layer: version and control bytes, the optional
/// destination and source addresses with the hop count after them, then
/// either a network-layer message (some other message) or the application
/// message.
pub open spec fn npdu_class(b: Seq<u8>, end: int) -> ReplyKind {
    if end < 6 {
        ReplyKind::Malformed
    } else {
        let control = b[5];
        let after_dst = if control & 0x20 != 0 {
            addr_end(b, 6, end)
        } else {
            Some(6int)
        };
        match after_dst {
            None => ReplyKind::Malformed,
            Some(i1) => {
                let after_src = if control & 0x08 != 0 {
                    addr_end(b, i1, end)
                } else {
                    Some(i1)
                };
                match after_src {
                    None => ReplyKind::Malformed,
                    Some(i2) => {
                        let i3 = if control & 0x20 != 0 {
                            i2 + 1
                        } else {
                            i2
                        };
                        if i3 > end {
                            ReplyKind::Malformed
                        } else if control & 0x80 != 0 {
                            if i3 + 1 <= end {
                                ReplyKind::Other
                            } else {
                                ReplyKind::Malformed
                            }
                        } else {
                            apdu_class(b, i3, end)
                        }
                    },
                }
            },
        }
    }
}

/// What a byte sequence means to this session layer: the link-layer
/// header must carry the IP frame type, a known function and a length
/// within the datagram; a function that carries no network payload is
/// some other message; otherwise the network layer decides.
pub open spec fn frame_class(b: Seq<u8>) -> ReplyKind {
    if b.len() < 4 {
        ReplyKind::Malformed
    } else if b[0] != 0x81 {
        ReplyKind::Malformed
    } else if b[1] > 11 {
        ReplyKind::Malformed
    } else {
        let end = b[2] as int * 256 + b[3] as int;
        if end > b.len() {
            ReplyKind::Malformed
        } else if !(b[1] == 10 || b[1] == 11) {
            ReplyKind::Other
        } else {
            npdu_class(b, end)
        }
    }
}

/// Reads the big-endian value of `len` bytes starting at `i`.
fn read_uint(data: &[u8], i: usize, len: usize) -> (r: u32)
    requires
        1 <= len <= 4,
        i + len <= data@.len(),
    ensures
        r == uint_at(data@, i as int, len as int),
{
    if len == 1 {
        data[i] as u32
    } else if len == 2 {
        data[i] as u32 * 256 + data[i + 1] as u32
    } else if len == 3 {
        data[i] as u32 * 65536 + data[i + 1] as u32 * 256 + data[i + 2] as u32
    } else {
        data[i] as u32 * 16777216 + data[i + 1] as u32 * 65536 + data[i + 2] as u32 * 256 + data[i
            + 3] as u32
    }
}

/// Finds the end of a network address field, as [`addr_end`] says.
fn addr_end_at(data: &[u8], i: usize, end: usize) -> (r: Option<usize>)
    requires
        i <= end,
        end <= data@.len(),
        data@.len() <= BUF_SIZE,
    ensures
        match r {
            Some(j) => addr_end(data@, i as int, end as int) == Some(j as int) && i <= j <= end,
            None => addr_end(data@, i as int, end as int) is None,
        },
{
    if i + 3 > end {
        None
    } else if data[i + 2] == 0 {
        Some(i + 3)
    } else if data[i + 2] == 6 {
        if i + 9 <= end {
            Some(i + 9)
        } else {
            None
        }
    } else {
        None
    }
}

/// Classifies an identification reply's payload, as [`iam_class`] says.
fn iam_at(data: &[u8], i: usize, end: usize) -> (r: ReplyKind)
    requires
        i <= end,
        end <= data@.len(),
        data@.len() <= BUF_SIZE,
    ensures
        r == iam_class(data@, i as int, end as int),
{
    if !(i + 5 <= end && data[i] == 0xc4) {
        return ReplyKind::Malformed;
    }
    let object = read_uint(data, i + 1, 4);
    if object / 4194304 != 8 {
        return ReplyKind::Malformed;
    }
    let j = i + 5;
    if !(j + 1 <= end && data[j] / 16 == 2 && data[j] & 0x08 == 0 && 1 <= (data[j] & 0x07)
        && (data[j] & 0x07) <= 4 && j + 1 + (data[j] & 0x07) as usize <= end) {
        return ReplyKind::Malformed;
    }
    let k = j + 1 + (data[j] & 0x07) as usize;
    if !(k + 1 <= end && data[k] / 16 == 9 && data[k] & 0x08 == 0 && 1 <= (data[k] & 0x07)
        && (data[k] & 0x07) <= 4 && k + 1 + (data[k] & 0x07) as usize <= end && read_uint(
        data,
        k + 1,
        (data[k] & 0x07) as usize,
    ) <= 4) {
        return ReplyKind::Malformed;
    }
    let m = k + 1 + (data[k] & 0x07) as usize;
    if !(m + 1 <= end && data[m] / 16 == 2 && data[m] & 0x08 == 0 && 1 <= (data[m] & 0x07)
        && (data[m] & 0x07) <= 4 && m + 1 + (data[m] & 0x07) as usize <= end && read_uint(
        data,
        m + 1,
        (data[m] & 0x07) as usize,
    ) <= 65535) {
        return ReplyKind::Malformed;
    }
    ReplyKind::IAm {
        device_instance: object % 4194304,
        vendor_id: read_uint(data, m + 1, (data[m] & 0x07) as usize) as u16,
    }
}

/// Classifies a read acknowledgement's leading fields, as
/// [`read_ack_class`] says.
fn read_ack_at(data: &[u8], i: usize, end: usize, invoke_id: u8) -> (r: ReplyKind)
    requires
        i <= end,
        end <= data@.len(),
        data@.len() <= BUF_SIZE,
    ensures
        r == read_ack_class(data@, i as int, end as int, invoke_id),
{
    if !(i + 5 <= end && data[i] == 0x0c) {
        return ReplyKind::Malformed;
    }
    let j = i + 5;
    if !(j + 1 <= end && data[j] / 16 == 1 && data[j] & 0x08 == 8 && 1 <= (data[j] & 0x07)
        && (data[j] & 0x07) <= 4 && j + 1 + (data[j] & 0x07) as usize <= end) {
        return ReplyKind::Malformed;
    }
    ReplyKind::ReadAck {
        invoke_id,
        instance: read_uint(data, i + 1, 4) % 4194304,
        property: read_uint(data, j + 1, (data[j] & 0x07) as usize),
    }
}

/// Classifies the application message, as [`apdu_class`] says.
fn apdu_at(data: &[u8], i: usize, end: usize) -> (r: ReplyKind)
    requires
        i <= end,
        end <= data@.len(),
        data@.len() <= BUF_SIZE,
    ensures
        r == apdu_class(data@, i as int, end as int),
{
    if i + 1 > end {
        return ReplyKind::Malformed;
    }
    if data[i] % 16 >= 8 {
        return ReplyKind::Malformed;
    }
    let t = data[i] / 16;
    if t == 0 {
        ReplyKind::Other
    } else if t == 1 {
        if i + 2 > end {
            ReplyKind::Malformed
        } else if data[i + 1] == 0 {
            iam_at(data, i + 2, end)
        } else if data[i + 1] <= 15 {
            ReplyKind::Other
        } else {
            ReplyKind::Malformed
        }
    } else if t == 2 {
        if i + 3 <= end {
            ReplyKind::WriteAck { invoke_id: data[i + 1] }
        } else {
            ReplyKind::Malformed
        }
    } else if t == 3 {
        if i + 3 > end {
            ReplyKind::Malformed
        } else if data[i + 2] == 12 {
            read_ack_at(data, i + 3, end, data[i + 1])
        } else if data[i + 2] == 14 {
            ReplyKind::ReadMultipleAck { invoke_id: data[i + 1] }
        } else {
            ReplyKind::Other
        }
    } else if t == 5 {
        if i + 3 <= end {
            ReplyKind::Rejection { invoke_id: data[i + 1] }
        } else {
            ReplyKind::Malformed
        }
    } else if t == 4 || t == 6 || t == 7 {
        ReplyKind::Other
    } else {
        ReplyKind::Malformed
    }
}

/// Classifies one inbound datagram. Total: every byte sequence maps to
/// exactly [`frame_class`] of its bytes.
pub(crate) fn classify_bytes(data: &[u8]) -> (r: ReplyKind)
    requires
        data@.len() <= BUF_SIZE,
    ensures
        r == frame_class(data@),
{
    if data.len() < 4 {
        return ReplyKind::Malformed;
    }
    if data[0] != 0x81 {
        return ReplyKind::Malformed;
    }
    if data[1] > 11 {
        return ReplyKind::Malformed;
    }
    let end: usize = data[2] as usize * 256 + data[3] as usize;
    if end > data.len() {
        return ReplyKind::Malformed;
    }
    if !(data[1] == 10 || data[1] == 11) {
        return ReplyKind::Other;
    }
    if end < 6 {
        return ReplyKind::Malformed;
    }
    let control = data[5];
    let after_dst = if control & 0x20 != 0 {
        addr_end_at(data, 6, end)
    } else {
        Some(6usize)
    };
    let i1 = match after_dst {
        Some(i1) => i1,
        None => return ReplyKind::Malformed,
    };
    let after_src = if control & 0x08 != 0 {
        addr_end_at(data, i1, end)
    } else {
        Some(i1)
    };
    let i2 = match after_src {
        Some(i2) => i2,
        None => return ReplyKind::Malformed,
    };
    let i3 = if control & 0x20 != 0 {
        i2 + 1
    } else {
        i2
    };
    if i3 > end {
        return ReplyKind::Malformed;
    }
    if control & 0x80 != 0 {
        if i3 + 1 <= end {
            return ReplyKind::Other;
        } else {
            return ReplyKind::Malformed;
        }
    }
    apdu_at(data, i3, end)
}

} // verus!
