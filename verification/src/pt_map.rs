//! The payload-type map of an RTP session: which caps describe each RTP
//! payload type, and how a structure of `"<pt>" -> caps` fields is read into
//! it and written out of it.
use vstd::prelude::*;

use crate::pt::{spec_parse_pt, spec_pt_string};

verus! {

/// Payload types are seven bits wide: the map has room for every one below this bound.
pub const PT_COUNT: usize = 128;

/// The name of the structure that carries a payload-type map.
pub open spec fn pt_map_structure_name() -> Seq<char> {
    "application/x-rtpbin2-pt-map"@
}

/// Caps, together with what the payload-type map reads from their first
/// structure: its `payload` and `clock-rate` fields, where they hold an `i32`.
pub struct CapsInfo<C> {
    pub payload: Option<i32>,
    pub clock_rate: Option<i32>,
    pub caps: C,
}

/// The value of one field of a payload-type map structure.
pub enum FieldValue<C> {
    /// The field holds caps.
    Caps(CapsInfo<C>),
    /// The field holds anything else.
    Other,
}

/// The payload type and clock rate that caps describe: both fields present,
/// a payload type in `0..=127` and a positive clock rate.
pub open spec fn spec_pt_clock_rate(payload: Option<i32>, clock_rate: Option<i32>) -> Option<(u8, u32)> {
    match (payload, clock_rate) {
        (Some(pt), Some(rate)) => if 0 <= pt <= 127 && rate > 0 {
            Some((pt as u8, rate as u32))
        } else {
            None
        },
        _ => None,
    }
}

/// Reads the payload type and clock rate from what caps hold.
pub fn pt_clock_rate(payload: Option<i32>, clock_rate: Option<i32>) -> (r: Option<(u8, u32)>)
    ensures
        r == spec_pt_clock_rate(payload, clock_rate),
        (payload is Some && clock_rate is Some && 0 <= payload->Some_0 <= 127 && clock_rate->Some_0 > 0)
            ==> r == Some((payload->Some_0 as u8, clock_rate->Some_0 as u32)),
        r matches Some((pt, rate)) ==> payload == Some(pt as i32) && clock_rate == Some(rate as i32)
            && pt <= 127 && rate > 0,
{
    match (payload, clock_rate) {
        (Some(pt), Some(rate)) => {
            if 0 <= pt && pt <= 127 && rate > 0 {
                Some((pt as u8, rate as u32))
            } else {
                None
            }
        },
        _ => None,
    }
}

/// The map after adding caps to it: caps that describe a payload type
/// replace whatever that payload type had; other caps change nothing.
pub open spec fn map_add_caps<C>(m: Map<u8, C>, caps: CapsInfo<C>) -> Map<u8, C> {
    match spec_pt_clock_rate(caps.payload, caps.clock_rate) {
        Some((pt, _)) => m.insert(pt, caps.caps),
        None => m,
    }
}

/// The map after one field of a structure: a field whose name reads as a
/// payload type and whose value is caps adds those caps; any other field is skipped.
pub open spec fn map_add_field<C>(m: Map<u8, C>, name: Seq<char>, value: FieldValue<C>) -> Map<u8, C> {
    if spec_parse_pt(name) is Some {
        match value {
            FieldValue::Caps(caps) => map_add_caps(m, caps),
            FieldValue::Other => m,
        }
    } else {
        m
    }
}

/// The payload type under which a field lands in the map, if it lands at all.
pub open spec fn field_pt<C>(field: (String, FieldValue<C>)) -> Option<u8> {
    if spec_parse_pt(field.0@) is Some {
        match field.1 {
            FieldValue::Caps(caps) => match spec_pt_clock_rate(caps.payload, caps.clock_rate) {
                Some((pt, _)) => Some(pt),
                None => None,
            },
            FieldValue::Other => None,
        }
    } else {
        None
    }
}

/// No field after the `i`-th lands under the same payload type.
pub open spec fn last_for_its_pt<C>(fields: Seq<(String, FieldValue<C>)>, i: int) -> bool {
    forall|j: int| i < j < fields.len() ==> #[trigger] field_pt(fields[j]) != field_pt(fields[i])
}

/// The map that a structure's fields give, read in order into an empty map.
pub open spec fn map_of_fields<C>(fields: Seq<(String, FieldValue<C>)>) -> Map<u8, C>
    decreases fields.len(),
{
    if fields.len() == 0 {
        Map::empty()
    } else {
        map_add_field(map_of_fields(fields.drop_last()), fields.last().0@, fields.last().1)
    }
}

/// The payload types below `n` that the map holds, in ascending order.
pub open spec fn pts_below<C>(m: Map<u8, C>, n: nat) -> Seq<u8>
    decreases n,
{
    if n == 0 {
        Seq::empty()
    } else {
        let prev = pts_below(m, (n - 1) as nat);
        if m.dom().contains((n - 1) as u8) {
            prev.push((n - 1) as u8)
        } else {
            prev
        }
    }
}

/// The payload types that the map holds, in ascending order.
pub open spec fn listed_pts<C>(m: Map<u8, C>) -> Seq<u8> {
    pts_below(m, PT_COUNT as nat)
}

/// `fields` lists `m`: one field per payload type of `m`, in ascending
/// order, named by the payload type's decimal text and holding its caps.
pub open spec fn lists_map<C>(fields: Seq<(String, &C)>, m: Map<u8, C>) -> bool {
    &&& fields.len() == listed_pts(m).len()
    &&& forall|i: int| 0 <= i < fields.len() ==> (#[trigger] fields[i]).0@ == spec_pt_string(listed_pts(m)[i])
        && *fields[i].1 == m[listed_pts(m)[i]]
}

/// A map from RTP payload type to the caps that describe it.
pub struct PtMap<C> {
    table: Vec<Option<C>>,
}

impl<C> View for PtMap<C> {
    type V = Map<u8, C>;

    closed spec fn view(&self) -> Map<u8, C> {
        Map::new(
            |pt: u8| (pt as int) < PT_COUNT && self.table@[pt as int] is Some,
            |pt: u8| self.table@[pt as int]->Some_0,
        )
    }
}

impl<C> PtMap<C> {
    /// The map's internal table is in shape.
    pub closed spec fn wf(&self) -> bool {
        self.table@.len() == PT_COUNT
    }

    /// Every payload type of a well-formed map is below `PT_COUNT`.
    pub proof fn lemma_keys_bounded(&self)
        requires
            self.wf(),
        ensures
            forall|pt: u8| #[trigger] self@.dom().contains(pt) ==> (pt as int) < PT_COUNT,
    {
    }

    fn empty_table() -> (t: Vec<Option<C>>)
        ensures
            t@.len() == PT_COUNT,
            forall|i: int| 0 <= i < PT_COUNT ==> #[trigger] t@[i] is None,
    {
        let mut t: Vec<Option<C>> = Vec::new();
        while t.len() < PT_COUNT
            invariant
                t@.len() <= PT_COUNT,
                forall|i: int| 0 <= i < t@.len() ==> #[trigger] t@[i] is None,
            decreases PT_COUNT - t@.len(),
        {
            t.push(None);
        }
        t
    }

    /// An empty map.
    pub fn new() -> (r: Self)
        ensures
            r.wf(),
            r@ == Map::<u8, C>::empty(),
    {
        let r = PtMap { table: Self::empty_table() };
        assert(r@ =~= Map::<u8, C>::empty());
        r
    }

    /// Removes every entry.
    pub fn clear_pt_map(&mut self)
        ensures
            final(self).wf(),
            final(self)@ == Map::<u8, C>::empty(),
    {
        self.table = Self::empty_table();
        assert(self@ =~= Map::<u8, C>::empty());
    }

    /// Adds caps under the payload type that they describe, replacing what
    /// that payload type had; caps that describe none are dropped.
    pub fn add_caps(&mut self, caps: CapsInfo<C>)
        requires
            old(self).wf(),
        ensures
            final(self).wf(),
            final(self)@ == map_add_caps(old(self)@, caps),
            (caps.payload is Some && caps.clock_rate is Some && 0 <= caps.payload->Some_0 <= 127 && caps.clock_rate->Some_0 > 0)
                ==> final(self)@ == old(self)@.insert(caps.payload->Some_0 as u8, caps.caps),
            !(caps.payload is Some && caps.clock_rate is Some && 0 <= caps.payload->Some_0 <= 127 && caps.clock_rate->Some_0 > 0)
                ==> final(self)@ == old(self)@,
    {
        let ghost before = self@;
        let ghost info = caps;
        let CapsInfo { payload, clock_rate, caps } = caps;
        match pt_clock_rate(payload, clock_rate) {
            Some((pt, _)) => {
                self.table.set(pt as usize, Some(caps));
                assert(self@ =~= before.insert(pt, info.caps));
            },
            None => {},
        }
    }

    /// The entries in ascending order of payload type.
    pub fn entries(&self) -> (r: Vec<(u8, &C)>)
        requires
            self.wf(),
        ensures
            r@.len() == listed_pts(self@).len(),
            forall|i: int| 0 <= i < r@.len() ==> (#[trigger] r@[i]).0 == listed_pts(self@)[i]
                && *r@[i].1 == self@[listed_pts(self@)[i]],
    {
        let mut r: Vec<(u8, &C)> = Vec::new();
        let mut p: usize = 0;
        while p < PT_COUNT
            invariant
                self.wf(),
                p <= PT_COUNT,
                r@.len() == pts_below(self@, p as nat).len(),
                forall|i: int| 0 <= i < r@.len() ==> (#[trigger] r@[i]).0 == pts_below(self@, p as nat)[i]
                    && *r@[i].1 == self@[pts_below(self@, p as nat)[i]],
            decreases PT_COUNT - p,
        {
            let ghost before = r@;
            match &self.table[p] {
                Some(c) => {
                    assert(self@.dom().contains(p as u8));
                    r.push((p as u8, c));
                },
                None => {
                    assert(!self@.dom().contains(p as u8));
                },
            }
            p = p + 1;
            assert forall|i: int| 0 <= i < r@.len() implies (#[trigger] r@[i]).0 == pts_below(self@, p as nat)[i]
                && *r@[i].1 == self@[pts_below(self@, p as nat)[i]] by {
                if i < before.len() {
                    assert(r@[i] == before[i]);
                }
            }
        }
        r
    }
}

/// The listing of a map holds exactly its payload types below `n`, each
/// once, in ascending order.
pub proof fn lemma_pts_below<C>(m: Map<u8, C>, n: nat)
    requires
        n <= 256,
    ensures
        forall|i: int| 0 <= i < pts_below(m, n).len() ==> (#[trigger] pts_below(m, n)[i] as int) < n
            && m.dom().contains(pts_below(m, n)[i]),
        forall|i: int, j: int| 0 <= i < j < pts_below(m, n).len()
            ==> (#[trigger] pts_below(m, n)[i]) < #[trigger] pts_below(m, n)[j],
        forall|pt: u8| (pt as int) < n && #[trigger] m.dom().contains(pt) ==> pts_below(m, n).contains(pt),
    decreases n,
{
    if n > 0 {
        let k = (n - 1) as nat;
        lemma_pts_below(m, k);
        let prev = pts_below(m, k);
        if m.dom().contains(k as u8) {
            let cur = prev.push(k as u8);
            assert forall|pt: u8| (pt as int) < n && #[trigger] m.dom().contains(pt) implies cur.contains(pt) by {
                if (pt as int) < k {
                    let w = choose|w: int| 0 <= w < prev.len() && prev[w] == pt;
                    assert(cur[w] == pt);
                } else {
                    assert(cur[cur.len() - 1] == pt);
                }
            }
        }
    }
}

/// Law: caps are taken exactly when they carry a payload type in `0..=127`
/// and a positive clock rate, whatever that rate is; they go under their
/// payload type, replacing what it had, and any other caps change nothing.
pub proof fn lemma_add_caps<C>(m: Map<u8, C>, caps: CapsInfo<C>)
    ensures
        (caps.payload is Some && caps.clock_rate is Some && 0 <= caps.payload->Some_0 <= 127 && caps.clock_rate->Some_0 > 0)
            ==> map_add_caps(m, caps) == m.insert(caps.payload->Some_0 as u8, caps.caps)
            && map_add_caps(m, caps).dom().contains(caps.payload->Some_0 as u8)
            && map_add_caps(m, caps)[caps.payload->Some_0 as u8] == caps.caps,
        !(caps.payload is Some && caps.clock_rate is Some && 0 <= caps.payload->Some_0 <= 127 && caps.clock_rate->Some_0 > 0)
            ==> map_add_caps(m, caps) == m,
{
}

/// Law: a field whose name reads as a payload type and whose value is caps
/// with a payload type in `0..=127` and a positive clock rate lands under the
/// caps' payload type, whatever payload type its name denotes.
pub proof fn lemma_field_lands_under_caps_payload<C>(m: Map<u8, C>, name: String, caps: CapsInfo<C>)
    requires
        spec_parse_pt(name@) is Some,
    ensures
        (caps.payload is Some && caps.clock_rate is Some && 0 <= caps.payload->Some_0 <= 127 && caps.clock_rate->Some_0 > 0) ==> {
            &&& field_pt((name, FieldValue::Caps(caps))) == Some(caps.payload->Some_0 as u8)
            &&& map_add_field(m, name@, FieldValue::Caps(caps)) == m.insert(caps.payload->Some_0 as u8, caps.caps)
            &&& map_of_fields(seq![(name, FieldValue::Caps(caps))]) == Map::<u8, C>::empty().insert(caps.payload->Some_0 as u8, caps.caps)
        },
{
    let fields = seq![(name, FieldValue::Caps(caps))];
    assert(fields.drop_last() =~= Seq::<(String, FieldValue<C>)>::empty());
    assert(fields.last() == (name, FieldValue::Caps(caps)));
    assert(map_of_fields(fields.drop_last()) == Map::<u8, C>::empty());
    assert(map_of_fields(fields) == map_add_field(Map::<u8, C>::empty(), name@, FieldValue::Caps(caps)));
}

/// Law: two fields with the same value whose names both read as payload
/// types (any two) land alike: the name only decides whether the field is
/// read at all.
pub proof fn lemma_field_name_only_gates<C>(m: Map<u8, C>, a: String, b: String, value: FieldValue<C>)
    requires
        spec_parse_pt(a@) is Some,
        spec_parse_pt(b@) is Some,
    ensures
        field_pt((a, value)) == field_pt((b, value)),
        map_add_field(m, a@, value) == map_add_field(m, b@, value),
{
}

/// Law: a field whose name does not read as a payload type, or whose value
/// is not caps, changes nothing.
pub proof fn lemma_unread_field<C>(m: Map<u8, C>, name: String, value: FieldValue<C>)
    requires
        spec_parse_pt(name@) is None || value is Other,
    ensures
        field_pt((name, value)) is None,
        map_add_field(m, name@, value) == m,
{
}

/// Law: the map that a structure's fields give holds exactly the payload
/// types under which some field lands, and under each the caps of the last
/// field that lands there.
pub proof fn lemma_map_of_fields<C>(fields: Seq<(String, FieldValue<C>)>)
    ensures
        forall|pt: u8| #[trigger] map_of_fields(fields).dom().contains(pt)
            <==> exists|i: int| 0 <= i < fields.len() && field_pt(#[trigger] fields[i]) == Some(pt),
        forall|i: int| 0 <= i < fields.len() && #[trigger] field_pt(fields[i]) is Some
            && last_for_its_pt(fields, i) ==> (fields[i].1 matches FieldValue::Caps(c)
            && map_of_fields(fields)[field_pt(fields[i])->0] == c.caps),
    decreases fields.len(),
{
    if fields.len() > 0 {
        let prev = fields.drop_last();
        lemma_map_of_fields(prev);
        let m = map_of_fields(fields);
        let n = fields.len() - 1;
        assert forall|pt: u8| (exists|i: int| 0 <= i < fields.len() && field_pt(#[trigger] fields[i]) == Some(pt))
            implies #[trigger] m.dom().contains(pt) by {
            let i = choose|i: int| 0 <= i < fields.len() && field_pt(#[trigger] fields[i]) == Some(pt);
            if i < n {
                assert(prev[i] == fields[i]);
            }
        }
        assert forall|pt: u8| #[trigger] m.dom().contains(pt)
            implies exists|i: int| 0 <= i < fields.len() && field_pt(#[trigger] fields[i]) == Some(pt) by {
            if field_pt(fields[n]) == Some(pt) {
            } else {
                assert(map_of_fields(prev).dom().contains(pt));
                let i = choose|i: int| 0 <= i < prev.len() && field_pt(#[trigger] prev[i]) == Some(pt);
                assert(fields[i] == prev[i]);
            }
        }
        assert forall|i: int| 0 <= i < fields.len() && #[trigger] field_pt(fields[i]) is Some
            && last_for_its_pt(fields, i) implies (fields[i].1 matches FieldValue::Caps(c)
            && m[field_pt(fields[i])->0] == c.caps) by {
            if i < n {
                assert(prev[i] == fields[i]);
                assert(field_pt(fields[n]) != field_pt(fields[i]));
                assert forall|j: int| i < j < prev.len() implies #[trigger] field_pt(prev[j]) != field_pt(prev[i]) by {
                    assert(prev[j] == fields[j]);
                    assert(field_pt(fields[j]) != field_pt(fields[i]));
                }
            }
        }
    }
}

/// Law: the fields that reading a map gives name payload types that read
/// back to themselves, each a payload type of the map, in ascending order,
/// and every payload type of the map has one.
pub proof fn lemma_listing_reads_back<C>(m: Map<u8, C>)
    requires
        forall|pt: u8| #[trigger] m.dom().contains(pt) ==> (pt as int) < PT_COUNT,
    ensures
        forall|i: int| 0 <= i < listed_pts(m).len() ==> spec_parse_pt(spec_pt_string(#[trigger] listed_pts(m)[i]))
            == Some(listed_pts(m)[i]) && m.dom().contains(listed_pts(m)[i]),
        forall|i: int, j: int| 0 <= i < j < listed_pts(m).len()
            ==> (#[trigger] listed_pts(m)[i]) < #[trigger] listed_pts(m)[j],
        forall|pt: u8| #[trigger] m.dom().contains(pt) ==> listed_pts(m).contains(pt),
        m == Map::<u8, C>::empty() ==> listed_pts(m).len() == 0,
{
    lemma_pts_below(m, PT_COUNT as nat);
    assert forall|i: int| 0 <= i < listed_pts(m).len() implies spec_parse_pt(spec_pt_string(#[trigger] listed_pts(m)[i]))
        == Some(listed_pts(m)[i]) by {
        crate::pt::lemma_parse_pt_string(listed_pts(m)[i]);
    }
    if listed_pts(m).len() > 0 {
        assert(m.dom().contains(listed_pts(m)[0]));
    }
}

/// Law: reading a session's map right after a structure was written into
/// it gives back, for every payload type that some field lands under, one
/// field whose name reads as that payload type and which holds the caps of
/// the last field that landed there; and no field for anything else.
pub proof fn lemma_read_after_write<C>(written: Seq<(String, FieldValue<C>)>, read: Seq<(String, &C)>)
    requires
        lists_map(read, map_of_fields(written)),
    ensures
        forall|k: int| 0 <= k < read.len() ==> spec_parse_pt((#[trigger] read[k]).0@) is Some
            && exists|i: int| 0 <= i < written.len() && field_pt(#[trigger] written[i]) == spec_parse_pt(read[k].0@),
        forall|i: int| 0 <= i < written.len() && #[trigger] field_pt(written[i]) is Some
            && last_for_its_pt(written, i) ==> exists|k: int| 0 <= k < read.len()
            && spec_parse_pt((#[trigger] read[k]).0@) == field_pt(written[i])
            && (written[i].1 matches FieldValue::Caps(c) && *read[k].1 == c.caps),
{
    let m = map_of_fields(written);
    lemma_map_of_fields(written);
    assert forall|pt: u8| #[trigger] m.dom().contains(pt) implies (pt as int) < PT_COUNT by {
        let i = choose|i: int| 0 <= i < written.len() && field_pt(#[trigger] written[i]) == Some(pt);
    }
    lemma_listing_reads_back(m);
    let pts = listed_pts(m);
    assert forall|k: int| 0 <= k < read.len() implies spec_parse_pt((#[trigger] read[k]).0@) is Some
        && exists|i: int| 0 <= i < written.len() && field_pt(#[trigger] written[i]) == spec_parse_pt(read[k].0@) by {
        assert(read[k].0@ == spec_pt_string(pts[k]));
        assert(m.dom().contains(pts[k]));
    }
    assert forall|i: int| 0 <= i < written.len() && #[trigger] field_pt(written[i]) is Some
        && last_for_its_pt(written, i) implies exists|k: int| 0 <= k < read.len()
        && spec_parse_pt((#[trigger] read[k]).0@) == field_pt(written[i])
        && (written[i].1 matches FieldValue::Caps(c) && *read[k].1 == c.caps) by {
        let pt = field_pt(written[i])->0;
        assert(m.dom().contains(pt));
        let k = choose|k: int| 0 <= k < pts.len() && pts[k] == pt;
        assert(read[k].0@ == spec_pt_string(pts[k]));
        assert(spec_parse_pt(read[k].0@) == Some(pt));
    }
}

/// What reading a payload-type map structure gives: a name, and one field
/// per payload type, named by the payload type's decimal text.
pub struct PtMapStructure<V> {
    pub name: String,
    pub fields: Vec<(String, V)>,
}

} // verus!
