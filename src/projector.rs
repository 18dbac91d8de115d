use vstd::prelude::*;

verus! {

/// The opcode of a process start event: the only events that are projected.
pub const PROCESS_START_OPCODE: u8 = 1;

/// The UTF-16 code units read from `bytes` from offset `off` on, two bytes each,
/// little-endian, as far as whole units go.
pub open spec fn le_units(bytes: Seq<u8>, off: int) -> Seq<u16> {
    Seq::new(
        ((bytes.len() - off) / 2) as nat,
        |i: int| (bytes[off + 2 * i] as int + 256 * bytes[off + 2 * i + 1] as int) as u16,
    )
}

proof fn lemma_le_units_index(bytes: Seq<u8>, off: int, i: int)
    requires
        0 <= off <= bytes.len(),
        0 <= i < (bytes.len() - off) / 2,
    ensures
        off + 2 * i + 1 < bytes.len(),
        le_units(bytes, off)[i] == (bytes[off + 2 * i] as int + 256 * bytes[off + 2 * i
            + 1] as int) as u16,
{
}

/// `r` is what comes before the first zero unit of `s`, or all of `s` where it
/// holds no zero unit.
pub open spec fn is_nul_prefix(r: Seq<u16>, s: Seq<u16>) -> bool {
    &&& r.len() <= s.len()
    &&& r == s.subrange(0, r.len() as int)
    &&& forall|j: int| 0 <= j < r.len() ==> r[j] != 0
    &&& (r.len() == s.len() || s[r.len() as int] == 0)
}

/// There is one text before the first zero unit: [`is_nul_prefix`] pins it down.
pub proof fn lemma_nul_prefix_unique(r1: Seq<u16>, r2: Seq<u16>, s: Seq<u16>)
    requires
        is_nul_prefix(r1, s),
        is_nul_prefix(r2, s),
    ensures
        r1 == r2,
{
    if r1.len() < r2.len() {
        assert(r2[r1.len() as int] == s[r1.len() as int]);
    } else if r2.len() < r1.len() {
        assert(r1[r2.len() as int] == s[r2.len() as int]);
    }
}

/// Decoding stops at the first zero unit: whatever follows it, zero or not,
/// never reaches the result.
pub proof fn lemma_nul_cuts_trailing_units(r: Seq<u16>, text: Seq<u16>, trailing: Seq<u16>)
    requires
        forall|j: int| 0 <= j < text.len() ==> text[j] != 0,
        is_nul_prefix(r, text + seq![0u16] + trailing),
    ensures
        r == text,
{
    let s = text + seq![0u16] + trailing;
    if r.len() < text.len() {
        assert(s[r.len() as int] == text[r.len() as int]);
    } else if r.len() > text.len() {
        assert(r[text.len() as int] == s[text.len() as int]);
    }
    assert(r =~= text);
}

/// The units of `s` before its first zero unit.
pub fn until_nul(s: &Vec<u16>) -> (r: Vec<u16>)
    ensures
        is_nul_prefix(r@, s@),
{
    let mut r: Vec<u16> = Vec::new();
    let mut i: usize = 0;
    while i < s.len() && s[i] != 0
        invariant
            i <= s.len(),
            r@ == s@.subrange(0, i as int),
            forall|j: int| 0 <= j < i ==> s@[j] != 0,
        decreases s.len() - i,
    {
        r.push(s[i]);
        i = i + 1;
        assert(r@ =~= s@.subrange(0, i as int));
    }
    r
}

/// The name that starts at byte `offset` of a schema buffer: its UTF-16 units
/// up to the first zero unit.
pub fn decode_name(schema: &Vec<u8>, offset: usize) -> (r: Vec<u16>)
    requires
        offset <= schema@.len(),
    ensures
        is_nul_prefix(r@, le_units(schema@, offset as int)),
{
    let ghost units = le_units(schema@, offset as int);
    let mut r: Vec<u16> = Vec::new();
    let mut i: usize = 0;
    let mut pos: usize = offset;
    while schema.len() - pos >= 2
        invariant
            offset <= pos <= schema@.len(),
            units == le_units(schema@, offset as int),
            pos == offset + 2 * i,
            i <= units.len(),
            units.len() == (schema@.len() - offset) / 2,
            r@ == units.subrange(0, i as int),
            forall|j: int| 0 <= j < i ==> units[j] != 0,
        decreases schema@.len() - pos,
    {
        let lo: u8 = schema[pos];
        let hi: u8 = schema[pos + 1];
        let unit: u16 = lo as u16 + (hi as u16) * 256;
        assert(i < units.len());
        proof {
            lemma_le_units_index(schema@, offset as int, i as int);
        }
        assert(unit as int == lo as int + 256 * hi as int);
        assert(units[i as int] == unit);
        if unit == 0 {
            return r;
        }
        r.push(unit);
        i = i + 1;
        pos = pos + 2;
        assert(r@ =~= units.subrange(0, i as int));
    }
    assert(i == units.len());
    r
}

/// Whether an event is projected: a process start with a non-empty payload.
pub open spec fn accepts(opcode: u8, payload_len: u16) -> bool {
    opcode == PROCESS_START_OPCODE && payload_len != 0
}

/// Whether an event is projected. Every other event is ignored before its
/// schema is asked for.
pub fn accepts_event(opcode: u8, payload_len: u16) -> (r: bool)
    ensures
        r == accepts(opcode, payload_len),
{
    opcode == PROCESS_START_OPCODE && payload_len != 0
}

/// How many properties are walked: the top-level ones, and never more than the
/// schema describes.
pub fn top_level_count(property_count: u32, top_level: u32) -> (r: u32)
    ensures
        r == if top_level <= property_count {
            top_level
        } else {
            property_count
        },
{
    if top_level <= property_count {
        top_level
    } else {
        property_count
    }
}

/// The text that UTF-16 units encode: a unit outside the surrogate range is
/// its own character, a high surrogate followed by a low one is the
/// supplementary character they encode, and every other surrogate unit is
/// replaced by U+FFFD.
pub open spec fn utf16_lossy(units: Seq<u16>) -> Seq<char>
    decreases units.len(),
{
    if units.len() == 0 {
        Seq::empty()
    } else {
        let u = units[0];
        if u < 0xD800 || u > 0xDFFF {
            seq![(u as u32) as char] + utf16_lossy(units.drop_first())
        } else if u <= 0xDBFF && units.len() >= 2 && 0xDC00 <= units[1] <= 0xDFFF {
            seq![
                ((0x10000 + (u - 0xD800) * 0x400 + (units[1] - 0xDC00)) as u32) as char,
            ] + utf16_lossy(units.subrange(2, units.len() as int))
        } else {
            seq!['\u{FFFD}'] + utf16_lossy(units.drop_first())
        }
    }
}

/// Relies on `String::from_utf16_lossy`: it decodes UTF-16, replacing each
/// unpaired surrogate by U+FFFD.
#[verifier::external_body]
fn text_of(units: &Vec<u16>) -> (r: String)
    ensures
        r@ == utf16_lossy(units@),
{
    String::from_utf16_lossy(units)
}

/// The value under key `k` in a sequence of entries: that of the last entry
/// named `k`, as a later insertion replaces an earlier one.
pub open spec fn lookup(s: Seq<(Seq<u16>, Seq<u16>)>, k: Seq<u16>) -> Option<Seq<u16>>
    decreases s.len(),
{
    if s.len() == 0 {
        None
    } else if s.last().0 == k {
        Some(s.last().1)
    } else {
        lookup(s.drop_last(), k)
    }
}

/// Whether two unit sequences are equal.
pub fn same_units(a: &Vec<u16>, b: &Vec<u16>) -> (r: bool)
    ensures
        r == (a@ == b@),
{
    if a.len() != b.len() {
        return false;
    }
    let mut i: usize = 0;
    while i < a.len()
        invariant
            a@.len() == b@.len(),
            i <= a@.len(),
            forall|j: int| 0 <= j < i ==> a@[j] == b@[j],
        decreases a.len() - i,
    {
        if a[i] != b[i] {
            return false;
        }
        i = i + 1;
    }
    assert(a@ =~= b@);
    true
}

/// One decoded property: its name and its formatted value, as UTF-16 units.
pub struct Property {
    pub name: Vec<u16>,
    pub value: Vec<u16>,
}

/// The decoded properties of one event, from name to value.
pub struct PropertyMap {
    entries: Vec<Property>,
}

impl PropertyMap {
    /// The entries in the order in which they were inserted.
    pub closed spec fn view(&self) -> Seq<(Seq<u16>, Seq<u16>)> {
        self.entries@.map_values(|p: Property| (p.name@, p.value@))
    }

    /// An empty map.
    pub fn new() -> (r: PropertyMap)
        ensures
            r@ == Seq::<(Seq<u16>, Seq<u16>)>::empty(),
    {
        let r = PropertyMap { entries: Vec::new() };
        assert(r@ =~= Seq::<(Seq<u16>, Seq<u16>)>::empty());
        r
    }

    /// Maps `name` to `value`, replacing what it was mapped to before.
    pub fn insert(&mut self, name: Vec<u16>, value: Vec<u16>)
        ensures
            final(self)@ == old(self)@.push((name@, value@)),
    {
        self.entries.push(Property { name, value });
        assert(final(self)@ =~= old(self)@.push((name@, value@)));
    }

    /// How many insertions the map holds.
    pub fn len(&self) -> (r: usize)
        ensures
            r == self@.len(),
    {
        self.entries.len()
    }

    /// The name and value of the entry inserted `i`-th.
    pub fn entry(&self, i: usize) -> (r: (Vec<u16>, Vec<u16>))
        requires
            i < self@.len(),
        ensures
            r.0@ == self@[i as int].0,
            r.1@ == self@[i as int].1,
    {
        (self.entries[i].name.clone(), self.entries[i].value.clone())
    }

    /// The value mapped to `key`.
    pub fn get(&self, key: &Vec<u16>) -> (r: Option<Vec<u16>>)
        ensures
            r is None <==> lookup(self@, key@) is None,
            r is Some ==> lookup(self@, key@) == Some(r->Some_0@),
    {
        let mut i: usize = self.entries.len();
        assert(self@.subrange(0, i as int) =~= self@);
        while i > 0
            invariant
                i <= self@.len(),
                self@.len() == self.entries@.len(),
                lookup(self@, key@) == lookup(self@.subrange(0, i as int), key@),
            decreases i,
        {
            let ghost pre = self@.subrange(0, i as int);
            assert(pre.drop_last() =~= self@.subrange(0, i - 1));
            assert(pre.last() == self@[i - 1]);
            if same_units(&self.entries[i - 1].name, key) {
                return Some(self.entries[i - 1].value.clone());
            }
            i = i - 1;
        }
        None
    }

    /// The value mapped to `key` as text, where one is mapped.
    pub fn get_text(&self, key: &Vec<u16>) -> (r: Option<String>)
        ensures
            r is None <==> lookup(self@, key@) is None,
            r is Some ==> r->Some_0@ == utf16_lossy(lookup(self@, key@)->Some_0),
    {
        match self.get(key) {
            Some(v) => Some(text_of(&v)),
            None => None,
        }
    }

    /// The name of the entry inserted `i`-th, as text.
    pub fn name_text(&self, i: usize) -> (r: String)
        requires
            i < self@.len(),
        ensures
            r@ == utf16_lossy(self@[i as int].0),
    {
        text_of(&self.entries[i].name)
    }

    /// The value of the entry inserted `i`-th, as text.
    pub fn value_text(&self, i: usize) -> (r: String)
        requires
            i < self@.len(),
        ensures
            r@ == utf16_lossy(self@[i as int].1),
    {
        text_of(&self.entries[i].value)
    }
}

/// Why a property of an event could not be taken into its map.
#[derive(Debug, Clone, Copy, PartialEq, Eq, Structural)]
pub enum ProjectError {
    /// The property's name offset lies past the end of the schema buffer.
    NameOutOfRange,
    /// The formatter reports more bytes consumed than the payload has left.
    Overrun,
}

/// The walk over the top-level properties of one event: the payload cursor and
/// the map of what was decoded so far. Each property's value starts where the
/// previous one ended, so properties are taken in schema order.
pub struct Projection {
    payload_len: usize,
    cursor: usize,
    map: PropertyMap,
}

impl Projection {
    /// The declared payload length.
    pub closed spec fn payload(&self) -> nat {
        self.payload_len as nat
    }

    /// How many payload bytes the properties taken so far consumed.
    pub closed spec fn consumed(&self) -> nat {
        self.cursor as nat
    }

    /// The entries decoded so far.
    pub closed spec fn decoded(&self) -> Seq<(Seq<u16>, Seq<u16>)> {
        self.map@
    }

    /// The cursor never passes the end of the payload.
    pub open spec fn wf(&self) -> bool {
        self.consumed() <= self.payload()
    }

    /// A walk over a payload of `payload_len` bytes, at its start.
    pub fn new(payload_len: usize) -> (r: Projection)
        ensures
            r.wf(),
            r.payload() == payload_len,
            r.consumed() == 0,
            r.decoded() == Seq::<(Seq<u16>, Seq<u16>)>::empty(),
    {
        Projection { payload_len, cursor: 0, map: PropertyMap::new() }
    }

    /// The payload offset at which the next property starts.
    pub fn cursor(&self) -> (r: usize)
        ensures
            r == self.consumed(),
    {
        self.cursor
    }

    /// How many payload bytes are left for the next property.
    pub fn remaining(&self) -> (r: usize)
        requires
            self.wf(),
        ensures
            r == self.payload() - self.consumed(),
    {
        self.payload_len - self.cursor
    }

    /// Takes one property: its name is read from the schema buffer at
    /// `name_offset`, its value is the formatter's output `formatted` up to the
    /// first zero unit, and the cursor moves on by the `consumed` bytes the
    /// formatter reports. Nothing changes where the name offset is past the
    /// schema or `consumed` is more than the payload has left.
    pub fn record(
        &mut self,
        schema: &Vec<u8>,
        name_offset: usize,
        formatted: &Vec<u16>,
        consumed: usize,
    ) -> (r: Result<(), ProjectError>)
        requires
            old(self).wf(),
        ensures
            final(self).wf(),
            final(self).payload() == old(self).payload(),
            r == Err::<(), ProjectError>(ProjectError::NameOutOfRange) <==> name_offset
                > schema@.len(),
            r == Err::<(), ProjectError>(ProjectError::Overrun) <==> (name_offset
                <= schema@.len() && consumed > old(self).payload() - old(self).consumed()),
            r is Err ==> *final(self) == *old(self),
            r is Ok ==> final(self).consumed() == old(self).consumed() + consumed,
            r is Ok ==> final(self).decoded().len() == old(self).decoded().len() + 1,
            r is Ok ==> final(self).decoded().drop_last() == old(self).decoded(),
            r is Ok ==> is_nul_prefix(
                final(self).decoded().last().0,
                le_units(schema@, name_offset as int),
            ),
            r is Ok ==> is_nul_prefix(final(self).decoded().last().1, formatted@),
    {
        if name_offset > schema.len() {
            return Err(ProjectError::NameOutOfRange);
        }
        if consumed > self.payload_len - self.cursor {
            return Err(ProjectError::Overrun);
        }
        let name = decode_name(schema, name_offset);
        let value = until_nul(formatted);
        self.map.insert(name, value);
        self.cursor = self.cursor + consumed;
        assert(self.map@.drop_last() =~= old(self).map@);
        Ok(())
    }

    /// The decoded map.
    pub fn map(&self) -> (r: &PropertyMap)
        ensures
            r@ == self.decoded(),
    {
        &self.map
    }

    /// Ends the walk, handing out the decoded map.
    pub fn into_map(self) -> (r: PropertyMap)
        ensures
            r@ == self.decoded(),
    {
        self.map
    }
}

} // verus!

verus! {

/// Why an event could not be projected.
#[derive(Debug, Clone, Copy, PartialEq, Eq, Structural)]
pub enum EventError {
    /// The formatter failed on a property with this status.
    Format(u32),
    /// A property did not fit the schema or the payload.
    Property(ProjectError),
}

/// The payload offset at which property `j` starts: the sum of the byte counts
/// that the answers for the properties before it reported.
pub open spec fn offset_before(outs: Seq<(Vec<u16>, usize)>, j: int) -> int
    decreases j,
{
    if j <= 0 {
        0
    } else {
        offset_before(outs, j - 1) + outs[j - 1].1
    }
}

/// How many properties an event walk takes: the top-level ones, and never more
/// than the schema describes.
pub open spec fn walk_count(top_level: usize, described: nat) -> nat {
    if top_level <= described {
        top_level as nat
    } else {
        described
    }
}

/// Property `j`, answered `outs[j]`, fits: its name starts inside the schema
/// buffer and its value ends inside the payload.
pub open spec fn fits(
    schema: Seq<u8>,
    name_offsets: Seq<usize>,
    payload_len: usize,
    outs: Seq<(Vec<u16>, usize)>,
    j: int,
) -> bool {
    &&& name_offsets[j] <= schema.len()
    &&& offset_before(outs, j) + outs[j].1 <= payload_len
}

/// The event walk made the format calls whose successful answers are `outs`, in
/// order, and ended with `r`. Call `j` asked for property `j` at the running
/// offset. On `Ok`, every property to walk was answered and fit, the cursor
/// stands at the sum of the reported byte counts, and entry `j` holds the
/// property's name and the text of `outs[j]`, each up to its first zero unit.
/// `Format(s)` means the next call, at the running offset, answered `Err(s)`.
/// `Property(e)` means the last answer did not fit, and `e` says how.
pub open spec fn walked<F: Fn(usize, usize) -> Result<(Vec<u16>, usize), u32>>(
    format: F,
    schema: Seq<u8>,
    name_offsets: Seq<usize>,
    top_level: usize,
    payload_len: usize,
    outs: Seq<(Vec<u16>, usize)>,
    r: Result<Projection, EventError>,
) -> bool {
    let count = walk_count(top_level, name_offsets.len());
    let n = outs.len() as int;
    &&& n <= count
    &&& forall|j: int|
        0 <= j < n ==> format.ensures(
            (j as usize, offset_before(outs, j) as usize),
            Ok::<(Vec<u16>, usize), u32>(#[trigger] outs[j]),
        )
    &&& match r {
        Ok(p) => {
            &&& n == count
            &&& forall|j: int|
                0 <= j < n ==> #[trigger] fits(schema, name_offsets, payload_len, outs, j)
            &&& p.wf()
            &&& p.payload() == payload_len
            &&& p.consumed() == offset_before(outs, n)
            &&& p.decoded().len() == n
            &&& forall|j: int|
                0 <= j < n ==> is_nul_prefix(
                    (#[trigger] p.decoded()[j]).0,
                    le_units(schema, name_offsets[j] as int),
                ) && is_nul_prefix(p.decoded()[j].1, outs[j].0@)
        },
        Err(EventError::Format(s)) => {
            &&& n < count
            &&& forall|j: int|
                0 <= j < n ==> #[trigger] fits(schema, name_offsets, payload_len, outs, j)
            &&& format.ensures(
                (n as usize, offset_before(outs, n) as usize),
                Err::<(Vec<u16>, usize), u32>(s),
            )
        },
        Err(EventError::Property(e)) => {
            &&& n >= 1
            &&& forall|j: int|
                0 <= j < n - 1 ==> #[trigger] fits(schema, name_offsets, payload_len, outs, j)
            &&& (e == ProjectError::NameOutOfRange <==> name_offsets[n - 1] > schema.len())
            &&& (e == ProjectError::Overrun <==> (name_offsets[n - 1] <= schema.len()
                && offset_before(outs, n - 1) + outs[n - 1].1 > payload_len))
        },
    }
}

proof fn lemma_offset_before_push(outs: Seq<(Vec<u16>, usize)>, x: (Vec<u16>, usize), j: int)
    requires
        0 <= j <= outs.len(),
    ensures
        offset_before(outs.push(x), j) == offset_before(outs, j),
    decreases j,
{
    if j > 0 {
        lemma_offset_before_push(outs, x, j - 1);
    }
}

/// Projects an event: walks its first `top_level` properties (never more than
/// `name_offsets` describes) in schema order. For property `i`, the name is
/// read from `schema` at `name_offsets[i]`, and `format(i, cursor)` formats the
/// value found at payload offset `cursor`, answering its text and the bytes it
/// consumed; the next property starts that many bytes later. The first failure
/// ends the walk (see [`walked`]).
pub fn project_event<F>(
    schema: &Vec<u8>,
    name_offsets: &Vec<usize>,
    top_level: usize,
    payload_len: usize,
    format: F,
) -> (r: Result<Projection, EventError>) where
    F: Fn(usize, usize) -> Result<(Vec<u16>, usize), u32>,

    requires
        forall|i: usize, c: usize|
            i < walk_count(top_level, name_offsets@.len()) && c <= payload_len
                ==> #[trigger] format.requires((i, c)),
    ensures
        (top_level == 0 || name_offsets@.len() == 0) ==> r is Ok,
        exists|outs: Seq<(Vec<u16>, usize)>|
            #[trigger] walked(format, schema@, name_offsets@, top_level, payload_len, outs, r),
{
    let count: usize = if top_level <= name_offsets.len() {
        top_level
    } else {
        name_offsets.len()
    };
    let ghost mut outs: Seq<(Vec<u16>, usize)> = Seq::empty();
    let mut p = Projection::new(payload_len);
    let mut i: usize = 0;
    while i < count
        invariant
            count == walk_count(top_level, name_offsets@.len()),
            count <= name_offsets@.len(),
            i <= count,
            outs.len() == i,
            p.wf(),
            p.payload() == payload_len,
            p.consumed() == offset_before(outs, i as int),
            p.decoded().len() == i,
            forall|j: usize, c: usize|
                j < count && c <= payload_len ==> #[trigger] format.requires((j, c)),
            forall|j: int|
                0 <= j < i ==> format.ensures(
                    (j as usize, offset_before(outs, j) as usize),
                    Ok::<(Vec<u16>, usize), u32>(#[trigger] outs[j]),
                ),
            forall|j: int|
                0 <= j < i ==> #[trigger] fits(schema@, name_offsets@, payload_len, outs, j),
            forall|j: int|
                0 <= j < i ==> is_nul_prefix(
                    (#[trigger] p.decoded()[j]).0,
                    le_units(schema@, name_offsets@[j] as int),
                ) && is_nul_prefix(p.decoded()[j].1, outs[j].0@),
        decreases count - i,
    {
        let cursor = p.cursor();
        let res = format(i, cursor);
        match res {
            Err(status) => {
                let r = Err(EventError::Format(status));
                assert(walked(format, schema@, name_offsets@, top_level, payload_len, outs, r));
                return r;
            },
            Ok(out) => {
                let ghost before = p.decoded();
                let ghost old_outs = outs;
                proof {
                    outs = outs.push(out);
                    assert forall|j: int| 0 <= j <= i implies offset_before(outs, j)
                        == offset_before(old_outs, j) by {
                        lemma_offset_before_push(old_outs, out, j);
                    }
                    assert forall|j: int| 0 <= j < i implies outs[j] == old_outs[j] by {}
                    assert forall|j: int| 0 <= j < i implies #[trigger] fits(
                        schema@,
                        name_offsets@,
                        payload_len,
                        outs,
                        j,
                    ) by {
                        assert(fits(schema@, name_offsets@, payload_len, old_outs, j));
                    }
                    assert forall|j: int| 0 <= j <= i implies format.ensures(
                        (j as usize, offset_before(outs, j) as usize),
                        Ok::<(Vec<u16>, usize), u32>(#[trigger] outs[j]),
                    ) by {
                        if j < i {
                            assert(format.ensures(
                                (j as usize, offset_before(old_outs, j) as usize),
                                Ok::<(Vec<u16>, usize), u32>(old_outs[j]),
                            ));
                        }
                    }
                }
                match p.record(schema, name_offsets[i], &out.0, out.1) {
                    Err(e) => {
                        let r = Err(EventError::Property(e));
                        assert(walked(
                            format,
                            schema@,
                            name_offsets@,
                            top_level,
                            payload_len,
                            outs,
                            r,
                        ));
                        return r;
                    },
                    Ok(()) => {},
                }
                proof {
                    let ii = i as int;
                    assert(offset_before(outs, ii + 1) == offset_before(outs, ii) + out.1);
                    assert(fits(schema@, name_offsets@, payload_len, outs, ii));
                    assert(p.decoded().drop_last() == before);
                    assert(p.decoded()[ii] == p.decoded().last());
                    assert forall|j: int| 0 <= j <= ii implies is_nul_prefix(
                        (#[trigger] p.decoded()[j]).0,
                        le_units(schema@, name_offsets@[j] as int),
                    ) && is_nul_prefix(p.decoded()[j].1, outs[j].0@) by {
                        if j < ii {
                            assert(p.decoded().drop_last()[j] == p.decoded()[j]);
                        }
                    }
                }
            },
        }
        i = i + 1;
    }
    let r = Ok(p);
    assert(walked(format, schema@, name_offsets@, top_level, payload_len, outs, r));
    r
}

} // verus!
