//! The RTP session object: it belongs to a session of an RTP bin, and
//! moves that session's payload-type map in and out of structures.
use vstd::prelude::*;

use crate::pt::{parse_pt, pt_to_string, spec_pt_string};
use crate::element::SessionProperty;
use crate::pt_map::{lists_map, map_of_fields, pt_map_structure_name, FieldValue, PtMap, PtMapStructure};

verus! {

/// The RTP session object's part in the payload-type map: it holds a
/// handle on the session it belongs to, and moves the map in and out of
/// structures.
pub struct RtpBin2Session<W> {
    pub weak_session: Option<W>,
}

impl<W> RtpBin2Session<W> {
    /// A session object that belongs to the given session.
    pub fn new(weak_session: W) -> (r: Self)
        ensures
            r.weak_session == Some(weak_session),
    {
        RtpBin2Session { weak_session: Some(weak_session) }
    }

    /// Records the session that this object belongs to.
    pub fn set_session(&mut self, weak_session: W)
        ensures
            final(self).weak_session == Some(weak_session),
    {
        self.weak_session = Some(weak_session);
    }

    /// Replaces the session's payload-type map with the one that a
    /// structure's fields describe; no structure leaves the map empty, no
    /// session leaves everything as it was. A field is read when its name is
    /// a payload type and its value caps that describe a payload type; the
    /// caps go under the payload type that they describe.
    pub fn set_pt_map<C>(&self, session: Option<&mut PtMap<C>>, pt_map: Option<Vec<(String, FieldValue<C>)>>)
        requires
            session matches Some(s) ==> s.wf(),
        ensures
            session matches Some(s) ==> final(s).wf() && final(s)@ == match pt_map {
                Some(fields) => map_of_fields(fields@),
                None => Map::<u8, C>::empty(),
            },
    {
        let session = match session {
            Some(s) => s,
            None => {
                return;
            },
        };
        session.clear_pt_map();
        let mut fields = match pt_map {
            Some(f) => f,
            None => {
                return;
            },
        };
        let ghost all = fields@;
        let ghost mut done: nat = 0;
        while fields.len() > 0
            invariant
                session.wf(),
                done <= all.len(),
                fields@ == all.skip(done as int),
                session@ == map_of_fields(all.take(done as int)),
            decreases fields@.len(),
        {
            let (name, value) = fields.remove(0);
            proof {
                assert(all.take(done + 1int).drop_last() =~= all.take(done as int));
                assert(all.take(done + 1int).last() == all[done as int]);
                assert(all[done as int] == (name, value));
            }
            let pt = parse_pt(name.as_str());
            if pt.is_some() {
                match value {
                    FieldValue::Caps(caps) => {
                        session.add_caps(caps);
                    },
                    FieldValue::Other => {},
                }
            }
            proof {
                done = done + 1;
                assert(fields@ =~= all.skip(done as int));
            }
        }
        assert(all.take(done as int) =~= all);
    }

    /// The session's payload-type map as a structure: one field per payload
    /// type, in ascending order, named by its decimal text and holding its
    /// caps; no session gives a structure without fields.
    pub fn pt_map<'a, C>(&self, session: Option<&'a PtMap<C>>) -> (r: PtMapStructure<&'a C>)
        requires
            session matches Some(s) ==> s.wf(),
        ensures
            r.name@ == pt_map_structure_name(),
            session is None ==> r.fields@.len() == 0,
            session matches Some(s) ==> lists_map(r.fields@, s@),
    {
        let name = String::from_str("application/x-rtpbin2-pt-map");
        let mut fields: Vec<(String, &'a C)> = Vec::new();
        let session = match session {
            Some(s) => s,
            None => {
                return PtMapStructure { name, fields };
            },
        };
        let entries = session.entries();
        let mut i: usize = 0;
        while i < entries.len()
            invariant
                i <= entries@.len(),
                fields@.len() == i,
                forall|j: int| 0 <= j < i ==> (#[trigger] fields@[j]).0@ == spec_pt_string(entries@[j].0)
                    && fields@[j].1 == entries@[j].1,
            decreases entries@.len() - i,
        {
            let (pt, caps) = entries[i];
            fields.push((pt_to_string(pt), caps));
            i = i + 1;
        }
        PtMapStructure { name, fields }
    }

    /// Reads a property of the session object: the payload-type map, as
    /// `pt_map` reads it.
    pub fn property<'a, C>(&self, prop: SessionProperty, session: Option<&'a PtMap<C>>) -> (r: PtMapStructure<&'a C>)
        requires
            session matches Some(s) ==> s.wf(),
        ensures
            r.name@ == pt_map_structure_name(),
            session is None ==> r.fields@.len() == 0,
            session matches Some(s) ==> lists_map(r.fields@, s@),
    {
        match prop {
            SessionProperty::PtMap => self.pt_map(session),
        }
    }

    /// Writes a property of the session object: the payload-type map, as
    /// `set_pt_map` writes it.
    pub fn set_property<C>(&self, prop: SessionProperty, session: Option<&mut PtMap<C>>, value: Option<Vec<(String, FieldValue<C>)>>)
        requires
            session matches Some(s) ==> s.wf(),
        ensures
            session matches Some(s) ==> final(s).wf() && final(s)@ == match value {
                Some(fields) => map_of_fields(fields@),
                None => Map::<u8, C>::empty(),
            },
    {
        match prop {
            SessionProperty::PtMap => self.set_pt_map(session, value),
        }
    }
}

} // verus!
