//! Tolerance for an undecodable message text in an event notification.
//!
//! A ConfirmedEventNotification or UnconfirmedEventNotification whose
//! optional messageText ([7]) holds a character string that cannot be decoded
//! is still delivered, without the text. Only a structurally complete text
//! field is removed: the fixed prefix ([0]..[6], with the constructed time
//! stamp [3]) must be well formed, the text must be a non-empty primitive
//! context tag 7 within the data, and the next field must already be
//! notifyType ([8]). Everything else is left to the request decoder.

use vstd::prelude::*;

verus! {

broadcast use vstd::seq_lib::group_seq_properties;

/// A BACnet tag header (Clause 20.2.1).
#[derive(Clone, Copy, Debug, PartialEq, Eq, Structural)]
pub struct TagHeader {
    /// Tag number (an extended tag number when the initial octet says 15).
    pub number: u8,
    /// Context-specific class (otherwise application class).
    pub context: bool,
    /// Opening tag of a constructed context value.
    pub opening: bool,
    /// Closing tag of a constructed context value.
    pub closing: bool,
    /// Length of the content that follows the header.
    pub length: u32,
}

/// The tag header at `offset` of `data` and the offset of its content, if a
/// complete header is there.
pub open spec fn tag_at(data: Seq<u8>, offset: int) -> Option<(TagHeader, int)> {
    if offset < 0 || offset >= data.len() {
        None
    } else {
        let b = data[offset];
        let context = (b / 8) % 2 == 1;
        let lvt = b % 8;
        let extended_number = b / 16 == 15;
        if extended_number && offset + 1 >= data.len() {
            None
        } else {
            let number: u8 = if extended_number { data[offset + 1] } else { (b / 16) as u8 };
            let pos = if extended_number { offset + 2 } else { offset + 1 };
            if context && lvt == 6 {
                Some((TagHeader { number, context, opening: true, closing: false, length: 0 }, pos))
            } else if context && lvt == 7 {
                Some((TagHeader { number, context, opening: false, closing: true, length: 0 }, pos))
            } else if lvt >= 6 {
                None
            } else if lvt < 5 {
                Some(
                    (
                        TagHeader { number, context, opening: false, closing: false, length: lvt as u32 },
                        pos,
                    ),
                )
            } else if pos >= data.len() {
                None
            } else if data[pos] <= 253 {
                Some(
                    (
                        TagHeader {
                            number,
                            context,
                            opening: false,
                            closing: false,
                            length: data[pos] as u32,
                        },
                        pos + 1,
                    ),
                )
            } else if data[pos] == 254 {
                if pos + 3 > data.len() {
                    None
                } else {
                    Some(
                        (
                            TagHeader {
                                number,
                                context,
                                opening: false,
                                closing: false,
                                length: (data[pos + 1] * 256 + data[pos + 2]) as u32,
                            },
                            pos + 3,
                        ),
                    )
                }
            } else if pos + 5 > data.len() {
                None
            } else {
                Some(
                    (
                        TagHeader {
                            number,
                            context,
                            opening: false,
                            closing: false,
                            length: (data[pos + 1] * 16777216 + data[pos + 2] * 65536 + data[pos
                                + 3] * 256 + data[pos + 4]) as u32,
                        },
                        pos + 5,
                    ),
                )
            }
        }
    }
}

/// A header always consumes at least its initial octet and stays within the data.
pub proof fn lemma_tag_at_advances(data: Seq<u8>, offset: int)
    ensures
        tag_at(data, offset) matches Some((t, c)) ==> offset < c <= data.len(),
{
}

/// Decode the tag header at `offset`.
pub fn decode_tag(data: &[u8], offset: usize) -> (r: Option<(TagHeader, usize)>)
    ensures
        match r {
            Some((t, c)) => tag_at(data@, offset as int) == Some((t, c as int)),
            None => tag_at(data@, offset as int) is None,
        },
{
    if offset >= data.len() {
        return None;
    }
    let b = data[offset];
    let context = (b / 8) % 2 == 1;
    let lvt = b % 8;
    let extended_number = b / 16 == 15;
    if extended_number && offset + 1 >= data.len() {
        return None;
    }
    let number: u8 = if extended_number { data[offset + 1] } else { b / 16 };
    let pos: usize = if extended_number { offset + 2 } else { offset + 1 };
    if context && lvt == 6 {
        return Some((TagHeader { number, context, opening: true, closing: false, length: 0 }, pos));
    }
    if context && lvt == 7 {
        return Some((TagHeader { number, context, opening: false, closing: true, length: 0 }, pos));
    }
    if lvt >= 6 {
        return None;
    }
    if lvt < 5 {
        return Some(
            (TagHeader { number, context, opening: false, closing: false, length: lvt as u32 }, pos),
        );
    }
    if pos >= data.len() {
        return None;
    }
    let first = data[pos];
    if first <= 253 {
        return Some(
            (
                TagHeader { number, context, opening: false, closing: false, length: first as u32 },
                pos + 1,
            ),
        );
    }
    if first == 254 {
        if data.len() - pos < 3 {
            return None;
        }
        let length: u32 = data[pos + 1] as u32 * 256 + data[pos + 2] as u32;
        return Some((TagHeader { number, context, opening: false, closing: false, length }, pos + 3));
    }
    if data.len() - pos < 5 {
        return None;
    }
    let length: u32 = data[pos + 1] as u32 * 16777216 + data[pos + 2] as u32 * 65536 + data[pos
        + 3] as u32 * 256 + data[pos + 4] as u32;
    Some((TagHeader { number, context, opening: false, closing: false, length }, pos + 5))
}

/// Whether `t` is the primitive context tag `number`.
pub open spec fn is_context_primitive(t: TagHeader, number: u8) -> bool {
    t.context && !t.opening && !t.closing && t.number == number
}

/// The offset just past the closing tag `number` that ends a constructed
/// value whose contents start at `pos`, `depth` constructed values deep.
pub open spec fn constructed_end(data: Seq<u8>, pos: int, depth: nat, number: u8) -> Option<int>
    decreases data.len() - pos,
{
    match tag_at(data, pos) {
        None => None,
        Some((t, c)) => if !(pos < c <= data.len()) {
            None
        } else if t.closing {
            if depth == 0 {
                if t.number == number {
                    Some(c)
                } else {
                    None
                }
            } else {
                constructed_end(data, c, (depth - 1) as nat, number)
            }
        } else if t.opening {
            constructed_end(data, c, depth + 1, number)
        } else if c + t.length > data.len() {
            None
        } else {
            constructed_end(data, c + t.length, depth, number)
        },
    }
}

/// The end of the constructed value whose contents start at `pos`, closed by
/// context tag `number`.
pub fn constructed_value_end(data: &[u8], pos: usize, number: u8) -> (r: Option<usize>)
    ensures
        match r {
            Some(e) => constructed_end(data@, pos as int, 0, number) == Some(e as int),
            None => constructed_end(data@, pos as int, 0, number) is None,
        },
{
    let mut at = pos;
    let mut depth: usize = 0;
    loop
        invariant
            pos <= at,
            depth <= at - pos,
            at > pos ==> at <= data@.len(),
            constructed_end(data@, at as int, depth as nat, number) == constructed_end(
                data@,
                pos as int,
                0,
                number,
            ),
        decreases data@.len() - at,
    {
        proof {
            lemma_tag_at_advances(data@, at as int);
        }
        let (t, c) = match decode_tag(data, at) {
            Some(tc) => tc,
            None => return None,
        };
        if t.closing {
            if depth == 0 {
                if t.number == number {
                    return Some(c);
                }
                return None;
            }
            depth = depth - 1;
            at = c;
        } else if t.opening {
            depth = depth + 1;
            at = c;
        } else {
            if t.length as usize > data.len() - c {
                return None;
            }
            at = c + t.length as usize;
        }
    }
}

/// The offset just past field `n` (0..=6) of the fixed prefix of an event
/// notification when that field starts at `off`: primitive context tags,
/// except the constructed time stamp [3].
pub open spec fn field_end(data: Seq<u8>, off: int, n: u8) -> Option<int> {
    match tag_at(data, off) {
        None => None,
        Some((t, c)) => if n == 3 {
            if t.context && t.opening && t.number == 3 {
                constructed_end(data, c, 0, 3)
            } else {
                None
            }
        } else if is_context_primitive(t, n) && c + t.length <= data.len() {
            Some(c + t.length)
        } else {
            None
        },
    }
}

/// The offset just past fields `n..7` of the prefix, the first at `off`.
pub open spec fn prefix_end(data: Seq<u8>, off: int, n: nat) -> Option<int>
    decreases 7 - n,
{
    if n >= 7 {
        Some(off)
    } else {
        match field_end(data, off, n as u8) {
            Some(e) => prefix_end(data, e, n + 1),
            None => None,
        }
    }
}

/// The end of field `n` of the prefix when it starts at `off`.
fn prefix_field_end(data: &[u8], off: usize, n: u8) -> (r: Option<usize>)
    ensures
        match r {
            Some(e) => field_end(data@, off as int, n) == Some(e as int),
            None => field_end(data@, off as int, n) is None,
        },
{
    proof {
        lemma_tag_at_advances(data@, off as int);
    }
    let (t, c) = match decode_tag(data, off) {
        Some(tc) => tc,
        None => return None,
    };
    if n == 3 {
        if !(t.context && t.opening && t.number == 3) {
            return None;
        }
        return constructed_value_end(data, c, 3);
    }
    if !(t.context && !t.opening && !t.closing && t.number == n) {
        return None;
    }
    if t.length as usize > data.len() - c {
        return None;
    }
    Some(c + t.length as usize)
}

/// The end of the fixed prefix ([0]..[6]) of an event notification.
pub fn notification_prefix_end(data: &[u8]) -> (r: Option<usize>)
    ensures
        match r {
            Some(e) => prefix_end(data@, 0, 0) == Some(e as int),
            None => prefix_end(data@, 0, 0) is None,
        },
{
    let mut off: usize = 0;
    let mut n: u8 = 0;
    while n < 7
        invariant
            n <= 7,
            prefix_end(data@, off as int, n as nat) == prefix_end(data@, 0, 0),
        decreases 7 - n,
    {
        off = match prefix_field_end(data, off, n) {
            Some(e) => e,
            None => return None,
        };
        n = n + 1;
    }
    Some(off)
}

/// A UTF-8 continuation octet.
pub open spec fn is_continuation(b: u8) -> bool {
    0x80 <= b <= 0xBF
}

/// Octets of the well-formed UTF-8 character that starts `s` (Unicode
/// Table 3-7), or 0 when `s` does not start with one.
pub open spec fn utf8_char_len(s: Seq<u8>) -> int {
    if s.len() == 0 {
        0
    } else if s[0] <= 0x7F {
        1
    } else if 0xC2 <= s[0] <= 0xDF {
        if s.len() >= 2 && is_continuation(s[1]) {
            2
        } else {
            0
        }
    } else if s[0] == 0xE0 {
        if s.len() >= 3 && 0xA0 <= s[1] <= 0xBF && is_continuation(s[2]) {
            3
        } else {
            0
        }
    } else if (0xE1 <= s[0] <= 0xEC) || (0xEE <= s[0] <= 0xEF) {
        if s.len() >= 3 && is_continuation(s[1]) && is_continuation(s[2]) {
            3
        } else {
            0
        }
    } else if s[0] == 0xED {
        if s.len() >= 3 && 0x80 <= s[1] <= 0x9F && is_continuation(s[2]) {
            3
        } else {
            0
        }
    } else if s[0] == 0xF0 {
        if s.len() >= 4 && 0x90 <= s[1] <= 0xBF && is_continuation(s[2]) && is_continuation(s[3]) {
            4
        } else {
            0
        }
    } else if 0xF1 <= s[0] <= 0xF3 {
        if s.len() >= 4 && is_continuation(s[1]) && is_continuation(s[2]) && is_continuation(s[3]) {
            4
        } else {
            0
        }
    } else if s[0] == 0xF4 {
        if s.len() >= 4 && 0x80 <= s[1] <= 0x8F && is_continuation(s[2]) && is_continuation(s[3]) {
            4
        } else {
            0
        }
    } else {
        0
    }
}

/// `s` is well-formed UTF-8.
pub open spec fn valid_utf8(s: Seq<u8>) -> bool
    decreases s.len(),
{
    if s.len() == 0 {
        true
    } else {
        let n = utf8_char_len(s);
        0 < n <= s.len() && valid_utf8(s.skip(n))
    }
}

fn utf8_char_len_at(data: &[u8], i: usize) -> (r: usize)
    requires
        i < data@.len(),
    ensures
        r == utf8_char_len(data@.skip(i as int)),
{
    let s = Ghost(data@.skip(i as int));
    let left = data.len() - i;
    let b0 = data[i];
    let cont = |k: usize| -> (c: bool)
        requires
            i + k < data@.len(),
        ensures
            c == is_continuation(data@[i + k]),
        { 0x80 <= data[i + k] && data[i + k] <= 0xBF };
    if b0 <= 0x7F {
        1
    } else if 0xC2 <= b0 && b0 <= 0xDF {
        if left >= 2 && cont(1) { 2 } else { 0 }
    } else if b0 == 0xE0 {
        if left >= 3 && 0xA0 <= data[i + 1] && data[i + 1] <= 0xBF && cont(2) { 3 } else { 0 }
    } else if (0xE1 <= b0 && b0 <= 0xEC) || (0xEE <= b0 && b0 <= 0xEF) {
        if left >= 3 && cont(1) && cont(2) { 3 } else { 0 }
    } else if b0 == 0xED {
        if left >= 3 && 0x80 <= data[i + 1] && data[i + 1] <= 0x9F && cont(2) { 3 } else { 0 }
    } else if b0 == 0xF0 {
        if left >= 4 && 0x90 <= data[i + 1] && data[i + 1] <= 0xBF && cont(2) && cont(3) { 4 } else { 0 }
    } else if 0xF1 <= b0 && b0 <= 0xF3 {
        if left >= 4 && cont(1) && cont(2) && cont(3) { 4 } else { 0 }
    } else if b0 == 0xF4 {
        if left >= 4 && 0x80 <= data[i + 1] && data[i + 1] <= 0x8F && cont(2) && cont(3) { 4 } else { 0 }
    } else {
        0
    }
}

/// Whether `data` is well-formed UTF-8.
pub fn is_valid_utf8(data: &[u8]) -> (r: bool)
    ensures
        r == valid_utf8(data@),
{
    let mut i: usize = 0;
    while i < data.len()
        invariant
            i <= data@.len(),
            valid_utf8(data@.skip(i as int)) == valid_utf8(data@),
        decreases data@.len() - i,
    {
        let n = utf8_char_len_at(data, i);
        if n == 0 || n > data.len() - i {
            return false;
        }
        proof {
            assert(data@.skip(i as int).skip(n as int) =~= data@.skip(i + n));
        }
        i = i + n;
    }
    proof {
        assert(data@.skip(i as int) =~= Seq::<u8>::empty());
    }
    true
}

/// `s` is a sequence of big-endian UCS-2 code units with no surrogate.
pub open spec fn valid_ucs2(s: Seq<u8>) -> bool {
    &&& s.len() % 2 == 0
    &&& forall|k: int| 0 <= k < s.len() / 2 ==> !(0xD8 <= #[trigger] s[2 * k] <= 0xDF)
}

/// Whether `data` is UCS-2 without surrogate code units.
pub fn is_valid_ucs2(data: &[u8]) -> (r: bool)
    ensures
        r == valid_ucs2(data@),
{
    if data.len() % 2 != 0 {
        return false;
    }
    let mut k: usize = 0;
    while k < data.len() / 2
        invariant
            data@.len() % 2 == 0,
            k <= data@.len() / 2,
            forall|j: int| 0 <= j < k ==> !(0xD8 <= #[trigger] data@[2 * j] <= 0xDF),
        decreases data@.len() / 2 - k,
    {
        let high = data[2 * k];
        if 0xD8 <= high && high <= 0xDF {
            return false;
        }
        k = k + 1;
    }
    true
}

/// Character set of a BACnet character string: UTF-8.
pub const CHARSET_UTF8: u8 = 0;
/// Character set of a BACnet character string: UCS-2.
pub const CHARSET_UCS2: u8 = 4;
/// Character set of a BACnet character string: ISO 8859-1.
pub const CHARSET_ISO_8859_1: u8 = 5;

/// A BACnet character string (character-set octet, then the characters) that
/// decodes: UTF-8, UCS-2 or ISO 8859-1 content that is well formed.
pub open spec fn decodable_char_string(text: Seq<u8>) -> bool {
    text.len() >= 1 && {
        let body = text.skip(1);
        if text[0] == CHARSET_UTF8 {
            valid_utf8(body)
        } else if text[0] == CHARSET_UCS2 {
            valid_ucs2(body)
        } else {
            text[0] == CHARSET_ISO_8859_1
        }
    }
}

/// Whether the character string `text` decodes.
pub fn is_decodable_char_string(text: &[u8]) -> (r: bool)
    ensures
        r == decodable_char_string(text@),
{
    if text.len() == 0 {
        return false;
    }
    let body = vstd::slice::slice_subrange(text, 1, text.len());
    proof {
        assert(body@ =~= text@.skip(1));
    }
    if text[0] == CHARSET_UTF8 {
        is_valid_utf8(body)
    } else if text[0] == CHARSET_UCS2 {
        is_valid_ucs2(body)
    } else {
        text[0] == CHARSET_ISO_8859_1
    }
}

/// The octets `start..end` of an event notification that hold a
/// structurally complete messageText whose character string does not decode,
/// right after a well-formed fixed prefix and right before notifyType.
pub open spec fn undecodable_text_range(data: Seq<u8>) -> Option<(int, int)> {
    match prefix_end(data, 0, 0) {
        None => None,
        Some(start) => match tag_at(data, start) {
            None => None,
            Some((t, c)) => if !is_context_primitive(t, 7) || t.length == 0 || c + t.length
                > data.len() {
                None
            } else {
                let end = c + t.length;
                match tag_at(data, end) {
                    None => None,
                    Some((next, _)) => if !is_context_primitive(next, 8) || decodable_char_string(
                        data.subrange(c, end),
                    ) {
                        None
                    } else {
                        Some((start, end))
                    },
                }
            },
        },
    }
}

/// The message text removed for a retry is one whole field: a primitive
/// context-7 tag of non-zero length right after the seven fixed fields,
/// lying entirely within the data and directly followed by a context-8 tag
/// (notifyType), whose character string does not decode. So a truncated or
/// malformed prefix, an empty, constructed, wrongly tagged or truncated text
/// field, and a text field followed by a second one are never removed.
pub proof fn lemma_removable_text_is_one_field(data: Seq<u8>, start: int, end: int)
    ensures
        undecodable_text_range(data) == Some((start, end)) <==> {
            &&& prefix_end(data, 0, 0) == Some(start)
            &&& match tag_at(data, start) {
                Some((t, c)) => {
                    &&& is_context_primitive(t, 7)
                    &&& t.length > 0
                    &&& end == c + t.length
                    &&& end <= data.len()
                    &&& tag_at(data, end) matches Some((next, _)) && is_context_primitive(next, 8)
                    &&& !decodable_char_string(data.subrange(c, end))
                },
                None => false,
            }
        },
        prefix_end(data, 0, 0) is None ==> undecodable_text_range(data) is None,
        prefix_end(data, 0, 0) matches Some(s) && tag_at(data, s) matches Some((t, c)) && (t.length
            == 0 || !is_context_primitive(t, 7) || c + t.length > data.len())
            ==> undecodable_text_range(data) is None,
        prefix_end(data, 0, 0) matches Some(s) && tag_at(data, s) matches Some((t, c)) && (tag_at(
            data,
            c + t.length,
        ) matches Some((next, _)) && is_context_primitive(next, 7)) ==> undecodable_text_range(
            data,
        ) is None,
{
}

/// Find a messageText field that may be removed (see [`undecodable_text_range`]).
pub fn invalid_message_text_range(data: &[u8]) -> (r: Option<(usize, usize)>)
    ensures
        match r {
            Some((start, end)) => undecodable_text_range(data@) == Some((start as int, end as int)),
            None => undecodable_text_range(data@) is None,
        },
{
    let start = match notification_prefix_end(data) {
        Some(s) => s,
        None => return None,
    };
    proof {
        lemma_tag_at_advances(data@, start as int);
    }
    let (t, c) = match decode_tag(data, start) {
        Some(tc) => tc,
        None => return None,
    };
    if !(t.context && !t.opening && !t.closing && t.number == 7) || t.length == 0 {
        return None;
    }
    if t.length as usize > data.len() - c {
        return None;
    }
    let end = c + t.length as usize;
    let (next, _) = match decode_tag(data, end) {
        Some(tc) => tc,
        None => return None,
    };
    if !(next.context && !next.opening && !next.closing && next.number == 8) {
        return None;
    }
    let text = vstd::slice::slice_subrange(data, c, end);
    if is_decodable_char_string(text) {
        return None;
    }
    Some((start, end))
}

/// `data` without its octets `start..end`.
pub fn without_range(data: &[u8], start: usize, end: usize) -> (r: Vec<u8>)
    requires
        start <= end <= data@.len(),
    ensures
        r@ == data@.subrange(0, start as int) + data@.subrange(end as int, data@.len() as int),
        r@.len() == data@.len() - (end - start),
{
    let mut out = vstd::slice::slice_to_vec(vstd::slice::slice_subrange(data, 0, start));
    let tail = vstd::slice::slice_subrange(data, end, data.len());
    let mut i: usize = 0;
    while i < tail.len()
        invariant
            i <= tail@.len(),
            out@ == data@.subrange(0, start as int) + tail@.subrange(0, i as int),
        decreases tail@.len() - i,
    {
        out.push(tail[i]);
        proof {
            assert(tail@.subrange(0, i + 1) =~= tail@.subrange(0, i as int).push(tail@[i as int]));
        }
        i = i + 1;
    }
    proof {
        assert(tail@.subrange(0, i as int) =~= tail@);
    }
    out
}

/// The event notification to decode once more when its message text could
/// not be decoded: the same octets without the text field. It is strictly
/// shorter than `data`, so at most one retry follows.
pub fn without_undecodable_text(data: &[u8]) -> (r: Option<Vec<u8>>)
    ensures
        match r {
            Some(v) => undecodable_text_range(data@) matches Some((start, end)) && v@ == data@.subrange(
                0,
                start,
            ) + data@.subrange(end, data@.len() as int) && v@.len() < data@.len(),
            None => undecodable_text_range(data@) is None,
        },
{
    match invalid_message_text_range(data) {
        Some((start, end)) => {
            proof {
                lemma_tag_at_advances(data@, start as int);
            }
            Some(without_range(data, start, end))
        },
        None => None,
    }
}

} // verus!
