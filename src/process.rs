use vstd::prelude::*;

use crate::projector::{lookup, utf16_lossy, PropertyMap};

verus! {

/// The unit of `'0'`.
pub const UNIT_ZERO: u16 = 0x30;

/// The unit of `'x'`.
pub const UNIT_X: u16 = 0x78;

/// The unit of `'+'`.
pub const UNIT_PLUS: u16 = 0x2b;

/// The unit of `'-'`.
pub const UNIT_MINUS: u16 = 0x2d;

/// Whether `u` is a hexadecimal digit, in either case.
pub open spec fn is_hex_digit(u: u16) -> bool {
    (0x30 <= u <= 0x39) || (0x41 <= u <= 0x46) || (0x61 <= u <= 0x66)
}

/// The value of a hexadecimal digit.
pub open spec fn hex_digit_value(u: u16) -> nat {
    if u <= 0x39 {
        (u - 0x30) as nat
    } else if u <= 0x46 {
        (u - 0x41 + 10) as nat
    } else {
        (u - 0x61 + 10) as nat
    }
}

/// Whether every unit of `s` is a hexadecimal digit.
pub open spec fn all_hex(s: Seq<u16>) -> bool {
    forall|i: int| 0 <= i < s.len() ==> is_hex_digit(#[trigger] s[i])
}

/// The number that the hexadecimal digits `s` write, most significant first.
pub open spec fn hex_nat(s: Seq<u16>) -> nat
    decreases s.len(),
{
    if s.len() == 0 {
        0
    } else {
        hex_nat(s.drop_last()) * 16 + hex_digit_value(s.last())
    }
}

/// `s` without any number of leading `"0x"`.
pub open spec fn strip_0x(s: Seq<u16>) -> Seq<u16>
    decreases s.len(),
{
    if s.len() >= 2 && s[0] == UNIT_ZERO && s[1] == UNIT_X {
        strip_0x(s.subrange(2, s.len() as int))
    } else {
        s
    }
}

/// The value of the digits `d`, where they are hexadecimal digits, at least one,
/// and the value is at most `limit`.
pub open spec fn digits_value(d: Seq<u16>, limit: nat) -> Option<nat> {
    if d.len() > 0 && all_hex(d) && hex_nat(d) <= limit {
        Some(hex_nat(d))
    } else {
        None
    }
}

/// An unsigned hexadecimal number no greater than `limit`, with an optional
/// leading `'+'`.
pub open spec fn parse_unsigned(s: Seq<u16>, limit: nat) -> Option<nat> {
    if s.len() > 0 && s[0] == UNIT_PLUS {
        digits_value(s.drop_first(), limit)
    } else {
        digits_value(s, limit)
    }
}

/// A signed 32-bit hexadecimal number, with an optional leading `'+'` or `'-'`.
pub open spec fn parse_signed32(s: Seq<u16>) -> Option<int> {
    if s.len() > 0 && s[0] == UNIT_MINUS {
        match digits_value(s.drop_first(), 0x8000_0000) {
            Some(n) => Some(-n),
            None => None,
        }
    } else {
        match parse_unsigned(s, 0x7fff_ffff) {
            Some(n) => Some(n as int),
            None => None,
        }
    }
}

/// A property value read as an unsigned number of at most `limit`, after
/// leading `"0x"`; zero where the property is missing or is no such number.
pub open spec fn unsigned_field(v: Option<Seq<u16>>, limit: nat) -> nat {
    match v {
        Some(s) => match parse_unsigned(strip_0x(s), limit) {
            Some(n) => n,
            None => 0,
        },
        None => 0,
    }
}

/// A property value read as a signed 32-bit number after leading `"0x"`; zero
/// where the property is missing or is no such number.
pub open spec fn signed32_field(v: Option<Seq<u16>>) -> int {
    match v {
        Some(s) => match parse_signed32(strip_0x(s)) {
            Some(n) => n,
            None => 0,
        },
        None => 0,
    }
}

/// A property value as text; empty where the property is missing.
pub open spec fn text_field(v: Option<Seq<u16>>) -> Seq<char> {
    match v {
        Some(s) => utf16_lossy(s),
        None => Seq::empty(),
    }
}

proof fn lemma_hex_nat_prefix_grows(d: Seq<u16>, i: int, j: int)
    requires
        0 <= i <= j <= d.len(),
    ensures
        hex_nat(d.subrange(0, i)) <= hex_nat(d.subrange(0, j)),
    decreases j - i,
{
    if i < j {
        lemma_hex_nat_prefix_grows(d, i, j - 1);
        assert(d.subrange(0, j).drop_last() =~= d.subrange(0, j - 1));
    }
}

/// The index at which `s` has no leading `"0x"` left.
fn skip_0x(s: &Vec<u16>) -> (r: usize)
    ensures
        r <= s@.len(),
        strip_0x(s@) == s@.subrange(r as int, s@.len() as int),
{
    let mut k: usize = 0;
    assert(s@.subrange(0, s@.len() as int) =~= s@);
    while s.len() - k >= 2 && s[k] == UNIT_ZERO && s[k + 1] == UNIT_X
        invariant
            k <= s@.len(),
            strip_0x(s@) == strip_0x(s@.subrange(k as int, s@.len() as int)),
        decreases s@.len() - k,
    {
        let ghost t = s@.subrange(k as int, s@.len() as int);
        assert(t.subrange(2, t.len() as int) =~= s@.subrange(k + 2, s@.len() as int));
        k = k + 2;
    }
    k
}

/// The value of the hexadecimal digits `s[start..]`, where that value is at
/// most `limit`.
fn parse_digits(s: &Vec<u16>, start: usize, limit: u64) -> (r: Option<u64>)
    requires
        start <= s@.len(),
    ensures
        match digits_value(s@.subrange(start as int, s@.len() as int), limit as nat) {
            Some(n) => r == Some(n as u64),
            None => r is None,
        },
{
    let ghost d = s@.subrange(start as int, s@.len() as int);
    if start == s.len() {
        return None;
    }
    let mut acc: u64 = 0;
    let mut i: usize = start;
    assert(d.subrange(0, 0) =~= Seq::<u16>::empty());
    while i < s.len()
        invariant
            start <= i <= s@.len(),
            d == s@.subrange(start as int, s@.len() as int),
            all_hex(d.subrange(0, i - start)),
            acc as nat == hex_nat(d.subrange(0, i - start)),
            acc <= limit,
        decreases s@.len() - i,
    {
        let u = s[i];
        let k: usize = i - start;
        assert(d[k as int] == u);
        let dv: u64 = if 0x30 <= u && u <= 0x39 {
            (u - 0x30) as u64
        } else if 0x41 <= u && u <= 0x46 {
            (u - 0x41 + 10) as u64
        } else if 0x61 <= u && u <= 0x66 {
            (u - 0x61 + 10) as u64
        } else {
            assert(!all_hex(d));
            return None;
        };
        assert(d.subrange(0, k + 1).drop_last() =~= d.subrange(0, k as int));
        assert(hex_nat(d.subrange(0, k + 1)) == acc * 16 + dv);
        if acc > (u64::MAX - dv) / 16 || acc * 16 + dv > limit {
            assert(acc * 16 + dv > limit) by (nonlinear_arith)
                requires
                    acc > (u64::MAX - dv) / 16 || acc * 16 + dv > limit,
                    limit <= u64::MAX,
                    dv <= 15,
            ;
            proof {
                lemma_hex_nat_prefix_grows(d, k + 1, d.len() as int);
                assert(d.subrange(0, d.len() as int) =~= d);
            }
            return None;
        }
        acc = acc * 16 + dv;
        i = i + 1;
        assert(all_hex(d.subrange(0, i - start))) by {
            assert forall|j: int| 0 <= j < i - start implies is_hex_digit(
                #[trigger] d.subrange(0, i - start)[j],
            ) by {
                if j < k {
                    assert(d.subrange(0, i - start)[j] == d.subrange(0, k as int)[j]);
                }
            }
        }
    }
    assert(d.subrange(0, d.len() as int) =~= d);
    Some(acc)
}

/// An unsigned hexadecimal number of at most `limit` in `s[start..]`, with an
/// optional leading `'+'`.
fn parse_unsigned_from(s: &Vec<u16>, start: usize, limit: u64) -> (r: Option<u64>)
    requires
        start <= s@.len(),
    ensures
        match parse_unsigned(s@.subrange(start as int, s@.len() as int), limit as nat) {
            Some(n) => r == Some(n as u64),
            None => r is None,
        },
{
    let ghost t = s@.subrange(start as int, s@.len() as int);
    if start < s.len() && s[start] == UNIT_PLUS {
        assert(t.drop_first() =~= s@.subrange(start + 1, s@.len() as int));
        parse_digits(s, start + 1, limit)
    } else {
        parse_digits(s, start, limit)
    }
}

/// Reads a property value as an unsigned number of at most `limit`.
fn unsigned_value(v: &Option<Vec<u16>>, limit: u64) -> (r: u64)
    ensures
        r as nat == unsigned_field(
            match v {
                Some(s) => Some(s@),
                None => None,
            },
            limit as nat,
        ),
{
    match v {
        Some(s) => {
            let k = skip_0x(s);
            match parse_unsigned_from(s, k, limit) {
                Some(n) => n,
                None => 0,
            }
        },
        None => 0,
    }
}

/// Reads a property value as a signed 32-bit number.
fn signed32_value(v: &Option<Vec<u16>>) -> (r: i32)
    ensures
        r as int == signed32_field(
            match v {
                Some(s) => Some(s@),
                None => None,
            },
        ),
{
    match v {
        Some(s) => {
            let k = skip_0x(s);
            let ghost t = s@.subrange(k as int, s@.len() as int);
            if k < s.len() && s[k] == UNIT_MINUS {
                assert(t.drop_first() =~= s@.subrange(k + 1, s@.len() as int));
                match parse_digits(s, k + 1, 0x8000_0000) {
                    Some(n) => (0 - (n as i64)) as i32,
                    None => 0,
                }
            } else {
                match parse_unsigned_from(s, k, 0x7fff_ffff) {
                    Some(n) => n as i32,
                    None => 0,
                }
            }
        },
        None => 0,
    }
}

/// The UTF-16 units of an ASCII text.
pub open spec fn ascii_units(s: Seq<char>) -> Seq<u16> {
    Seq::new(s.len(), |i: int| (s[i] as u32) as u16)
}

/// The UTF-16 units of the ASCII text `s`.
pub fn key_units(s: &str) -> (r: Vec<u16>)
    requires
        s.is_ascii(),
    ensures
        r@ == ascii_units(s@),
{
    let n = s.unicode_len();
    let mut r: Vec<u16> = Vec::new();
    let mut i: usize = 0;
    while i < n
        invariant
            n == s@.len(),
            i <= n,
            r@ == ascii_units(s@).subrange(0, i as int),
        decreases n - i,
    {
        let c = s.get_char(i);
        r.push((c as u32) as u16);
        i = i + 1;
        assert(r@ =~= ascii_units(s@).subrange(0, i as int));
    }
    assert(ascii_units(s@).subrange(0, n as int) =~= ascii_units(s@));
    r
}

/// The fields of a process start event of the kernel's process provider.
#[derive(Debug, Clone, Default)]
pub struct ProcessTypeGroup1 {
    pub unique_process_key: u64,
    pub process_id: u32,
    pub parent_id: u32,
    pub session_id: u32,
    pub exit_status: i32,
    pub directory_table_base: u64,
    pub user_sid: String,
    pub image_file_name: String,
    pub command_line: String,
}

/// The value of the property named `name` in the entries `m`.
pub open spec fn prop(m: Seq<(Seq<u16>, Seq<u16>)>, name: &str) -> Option<Seq<u16>> {
    lookup(m, ascii_units(name@))
}

impl ProcessTypeGroup1 {
    /// The record of a process start event from its decoded properties. Numbers
    /// are read as hexadecimal after any leading `"0x"`; a missing property,
    /// or one that is no number in the field's range, leaves the field zero,
    /// and a missing text leaves it empty.
    pub fn from_properties(map: &PropertyMap) -> (r: ProcessTypeGroup1)
        ensures
            r.unique_process_key as nat == unsigned_field(
                prop(map@, "UniqueProcessKey"),
                u64::MAX as nat,
            ),
            r.process_id as nat == unsigned_field(prop(map@, "ProcessId"), u32::MAX as nat),
            r.parent_id as nat == unsigned_field(prop(map@, "ParentId"), u32::MAX as nat),
            r.session_id as nat == unsigned_field(prop(map@, "SessionId"), u32::MAX as nat),
            r.exit_status as int == signed32_field(prop(map@, "ExitStatus")),
            r.directory_table_base as nat == unsigned_field(
                prop(map@, "DirectoryTableBase"),
                u64::MAX as nat,
            ),
            r.user_sid@ == text_field(prop(map@, "UserSID")),
            r.image_file_name@ == text_field(prop(map@, "ImageFileName")),
            r.command_line@ == text_field(prop(map@, "CommandLine")),
    {
        proof {
            reveal_strlit("UniqueProcessKey");
            reveal_strlit("ProcessId");
            reveal_strlit("ParentId");
            reveal_strlit("SessionId");
            reveal_strlit("ExitStatus");
            reveal_strlit("DirectoryTableBase");
            reveal_strlit("UserSID");
            reveal_strlit("ImageFileName");
            reveal_strlit("CommandLine");
        }
        let unique_process_key = unsigned_value(&map.get(&key_units("UniqueProcessKey")), u64::MAX);
        let process_id = unsigned_value(&map.get(&key_units("ProcessId")), u32::MAX as u64) as u32;
        let parent_id = unsigned_value(&map.get(&key_units("ParentId")), u32::MAX as u64) as u32;
        let session_id = unsigned_value(&map.get(&key_units("SessionId")), u32::MAX as u64) as u32;
        let exit_status = signed32_value(&map.get(&key_units("ExitStatus")));
        let directory_table_base = unsigned_value(
            &map.get(&key_units("DirectoryTableBase")),
            u64::MAX,
        );
        let user_sid = text_value(map, &key_units("UserSID"));
        let image_file_name = text_value(map, &key_units("ImageFileName"));
        let command_line = text_value(map, &key_units("CommandLine"));
        ProcessTypeGroup1 {
            unique_process_key,
            process_id,
            parent_id,
            session_id,
            exit_status,
            directory_table_base,
            user_sid,
            image_file_name,
            command_line,
        }
    }
}

fn text_value(map: &PropertyMap, key: &Vec<u16>) -> (r: String)
    ensures
        r@ == text_field(lookup(map@, key@)),
{
    match map.get_text(key) {
        Some(t) => t,
        None => String::new(),
    }
}

} // verus!
