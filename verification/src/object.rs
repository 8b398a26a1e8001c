//! The dynamic, schema-less representation of one cluster resource
//! instance, reduced to the fields the renderer reads, plus the opaque
//! managed-fields bookkeeping that must be stripped before any output.

use vstd::prelude::*;

verus! {

/// One schema-less resource instance. `phase` mirrors `status.phase` and
/// `condition` the first entry of `status.conditions`, both absent when the
/// object's body lacks them; `created` is the creation timestamp in seconds
/// since the epoch, absent when missing or unreadable. `managed_fields`
/// carries the opaque server-side bookkeeping entries verbatim.
pub struct DynObject {
    pub name: String,
    pub namespace: Option<String>,
    pub phase: Option<String>,
    pub condition: Option<String>,
    pub created: Option<u64>,
    pub managed_fields: Vec<String>,
}

/// The mathematical image of a [`DynObject`].
#[verifier::ext_equal]
pub struct DynObjectView {
    pub name: Seq<char>,
    pub namespace: Option<Seq<char>>,
    pub phase: Option<Seq<char>>,
    pub condition: Option<Seq<char>>,
    pub created: Option<u64>,
    pub managed_fields: Seq<Seq<char>>,
}

impl View for DynObject {
    type V = DynObjectView;

    open spec fn view(&self) -> DynObjectView {
        DynObjectView {
            name: self.name@,
            namespace: match self.namespace {
                Some(ref s) => Some(s@),
                None => None,
            },
            phase: match self.phase {
                Some(ref s) => Some(s@),
                None => None,
            },
            condition: match self.condition {
                Some(ref s) => Some(s@),
                None => None,
            },
            created: self.created,
            managed_fields: self.managed_fields@.map_values(|s: String| s@),
        }
    }
}

/// The same object with its managed-fields bookkeeping removed.
pub open spec fn strip_view(v: DynObjectView) -> DynObjectView {
    DynObjectView { managed_fields: Seq::empty(), ..v }
}

/// Stripping is idempotent: a second strip changes nothing, and a stripped
/// object holds no managed-fields entries at all.
pub proof fn lemma_strip_idempotent(v: DynObjectView)
    ensures
        strip_view(strip_view(v)) == strip_view(v),
        strip_view(v).managed_fields.len() == 0,
{
}

/// Removes the managed-fields bookkeeping from the object; every other
/// field is kept as it was.
pub fn strip_managed_fields(obj: &mut DynObject)
    ensures
        final(obj)@ == strip_view(old(obj)@),
{
    obj.managed_fields.clear();
    proof {
        assert(obj@ =~= strip_view(old(obj)@));
    }
}

/// The mathematical images of a result set, in order.
pub open spec fn views_of(objs: Seq<DynObject>) -> Seq<DynObjectView> {
    objs.map_values(|o: DynObject| o@)
}

/// Strips every object of a result set in place of its order: the output
/// holds, position by position, the stripped image of the input.
pub fn prepare_objects(objects: Vec<DynObject>) -> (r: Vec<DynObject>)
    ensures
        r@.len() == objects@.len(),
        forall|i: int| 0 <= i < objects@.len() ==> r@[i]@ == strip_view(objects@[i]@),
{
    let ghost orig = objects@;
    let mut input = objects;
    let mut out: Vec<DynObject> = Vec::new();
    while input.len() > 0
        invariant
            out@.len() + input@.len() == orig.len(),
            forall|i: int| 0 <= i < out@.len() ==> out@[i]@ == strip_view(orig[i]@),
            forall|i: int| 0 <= i < input@.len() ==> input@[i] == orig[out@.len() + i],
        decreases input.len(),
    {
        let mut o = input.remove(0);
        strip_managed_fields(&mut o);
        out.push(o);
    }
    out
}

} // verus!
