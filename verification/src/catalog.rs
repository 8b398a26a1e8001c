//! The discovery catalog snapshot and the resource resolver: mapping a
//! free-form, case-insensitive resource name to exactly one descriptor,
//! with a deterministic lexicographic tie-break across API groups.

use vstd::prelude::*;
use crate::text::{
    eq_ignore_case, eq_ignore_case_spec, lemma_lex_lt_irrefl, lemma_lex_lt_trans, lemma_lex_total,
    lex_le, lex_lt, str_lt,
};

verus! {

/// Whether a resource type is global or partitioned by namespace.
#[derive(Clone, Copy, PartialEq, Eq, Structural, Debug)]
pub enum Scope {
    Cluster,
    Namespaced,
}

/// The (kind, plural, group, version) tuple identifying one resource type.
pub struct ResourceDescriptor {
    pub kind: String,
    pub plural: String,
    pub group: String,
    pub version: String,
}

/// What the catalog knows of a resource type beyond its identity.
#[derive(Clone, Copy, PartialEq, Eq, Structural, Debug)]
pub struct ResourceCapability {
    pub scope: Scope,
}

/// One (descriptor, capability) pair exposed by an API group.
pub struct ResourceEntry {
    pub descriptor: ResourceDescriptor,
    pub capability: ResourceCapability,
}

/// An API group with the entries it exposes, ranked most stable first:
/// the catalog's own stability ordering is kept as the entry order.
pub struct ApiGroup {
    pub name: String,
    pub entries: Vec<ResourceEntry>,
}

/// The immutable discovery snapshot: every API group of the cluster.
pub struct Catalog {
    pub groups: Vec<ApiGroup>,
}

/// The mathematical image of a [`ResourceDescriptor`].
#[verifier::ext_equal]
pub struct DescriptorView {
    pub kind: Seq<char>,
    pub plural: Seq<char>,
    pub group: Seq<char>,
    pub version: Seq<char>,
}

/// The mathematical image of a [`ResourceEntry`].
#[verifier::ext_equal]
pub struct EntryView {
    pub descriptor: DescriptorView,
    pub capability: ResourceCapability,
}

/// The mathematical image of an [`ApiGroup`].
#[verifier::ext_equal]
pub struct GroupView {
    pub name: Seq<char>,
    pub entries: Seq<EntryView>,
}

impl View for ResourceDescriptor {
    type V = DescriptorView;

    open spec fn view(&self) -> DescriptorView {
        DescriptorView {
            kind: self.kind@,
            plural: self.plural@,
            group: self.group@,
            version: self.version@,
        }
    }
}

impl View for ResourceEntry {
    type V = EntryView;

    open spec fn view(&self) -> EntryView {
        EntryView { descriptor: self.descriptor@, capability: self.capability }
    }
}

impl View for ApiGroup {
    type V = GroupView;

    open spec fn view(&self) -> GroupView {
        GroupView {
            name: self.name@,
            entries: self.entries@.map_values(|e: ResourceEntry| e@),
        }
    }
}

impl View for Catalog {
    type V = Seq<GroupView>;

    open spec fn view(&self) -> Seq<GroupView> {
        self.groups@.map_values(|g: ApiGroup| g@)
    }
}

/// A descriptor answers to `name` when it equals its kind or its plural,
/// case-insensitively.
pub open spec fn descriptor_matches(d: DescriptorView, name: Seq<char>) -> bool {
    eq_ignore_case_spec(d.kind, name) || eq_ignore_case_spec(d.plural, name)
}

/// Some entry of the group answers to `name`.
pub open spec fn group_has_match(g: GroupView, name: Seq<char>) -> bool {
    exists|i: int| 0 <= i < g.entries.len() && descriptor_matches(#[trigger] g.entries[i].descriptor, name)
}

/// Some group of the catalog has an entry answering to `name`.
pub open spec fn catalog_has_match(c: Seq<GroupView>, name: Seq<char>) -> bool {
    exists|i: int| 0 <= i < c.len() && group_has_match(#[trigger] c[i], name)
}

/// `ri` is the first entry of the group answering to `name`; since a
/// group's entries stand most stable first, this is also its most stable
/// matching entry.
pub open spec fn first_match_in_group(g: GroupView, name: Seq<char>, ri: int) -> bool {
    &&& 0 <= ri < g.entries.len()
    &&& descriptor_matches(g.entries[ri].descriptor, name)
    &&& forall|j: int| 0 <= j < ri ==> !descriptor_matches(#[trigger] g.entries[j].descriptor, name)
}

/// The resolution `(gi, ri)` is the deterministic answer for `name`: the
/// first matching entry of a matching group whose name is lexicographically
/// least among all matching groups, the earliest such group on a tie.
pub open spec fn resolution_valid(c: Seq<GroupView>, name: Seq<char>, gi: int, ri: int) -> bool {
    &&& 0 <= gi < c.len()
    &&& first_match_in_group(c[gi], name, ri)
    &&& forall|gj: int|
        0 <= gj < c.len() && group_has_match(#[trigger] c[gj], name) ==> lex_le(
            c[gi].name,
            c[gj].name,
        )
    &&& forall|gj: int|
        0 <= gj < gi && group_has_match(#[trigger] c[gj], name) ==> lex_lt(c[gi].name, c[gj].name)
}

/// The resolution is deterministic: any two valid answers for the same
/// catalog and name are the same entry, so repeated runs against one
/// snapshot are reproducible.
pub proof fn lemma_resolution_deterministic(
    c: Seq<GroupView>,
    name: Seq<char>,
    gi1: int,
    ri1: int,
    gi2: int,
    ri2: int,
)
    requires
        resolution_valid(c, name, gi1, ri1),
        resolution_valid(c, name, gi2, ri2),
    ensures
        gi1 == gi2,
        ri1 == ri2,
{
    assert(descriptor_matches(c[gi1].entries[ri1].descriptor, name));
    assert(group_has_match(c[gi1], name));
    assert(descriptor_matches(c[gi2].entries[ri2].descriptor, name));
    assert(group_has_match(c[gi2], name));
    let n1 = c[gi1].name;
    let n2 = c[gi2].name;
    assert(lex_le(n1, n2));
    assert(lex_le(n2, n1));
    if gi1 < gi2 {
        assert(lex_lt(n2, n1));
        if n1 == n2 {
            lemma_lex_lt_irrefl(n1);
        } else {
            lemma_lex_lt_trans(n1, n2, n1);
            lemma_lex_lt_irrefl(n1);
        }
    }
    if gi2 < gi1 {
        assert(lex_lt(n1, n2));
        if n1 == n2 {
            lemma_lex_lt_irrefl(n1);
        } else {
            lemma_lex_lt_trans(n1, n2, n1);
            lemma_lex_lt_irrefl(n1);
        }
    }
    assert(gi1 == gi2);
    if ri1 < ri2 {
        assert(!descriptor_matches(c[gi2].entries[ri1].descriptor, name));
    }
    if ri2 < ri1 {
        assert(!descriptor_matches(c[gi1].entries[ri2].descriptor, name));
    }
}

/// Whether the descriptor answers to `name`.
pub fn matches_name(d: &ResourceDescriptor, name: &str) -> (r: bool)
    ensures
        r == descriptor_matches(d@, name@),
{
    eq_ignore_case(d.kind.as_str(), name) || eq_ignore_case(d.plural.as_str(), name)
}

fn first_match(g: &ApiGroup, name: &str) -> (r: Option<usize>)
    ensures
        match r {
            Some(ri) => first_match_in_group(g@, name@, ri as int),
            None => !group_has_match(g@, name@),
        },
{
    let mut ri: usize = 0;
    while ri < g.entries.len()
        invariant
            ri <= g.entries.len(),
            g@.entries.len() == g.entries@.len(),
            forall|j: int|
                0 <= j < ri ==> !descriptor_matches(#[trigger] g@.entries[j].descriptor, name@),
            forall|j: int| 0 <= j < g.entries@.len() ==> g@.entries[j] == g.entries@[j]@,
        decreases g.entries.len() - ri,
    {
        if matches_name(&g.entries[ri].descriptor, name) {
            return Some(ri);
        }
        ri += 1;
    }
    None
}

/// Maps a free-form resource name to exactly one (descriptor, capability)
/// entry of the catalog, or to nothing when no descriptor answers to it.
/// The name is matched case-insensitively against kind and plural; among
/// matching groups the lexicographically smallest group name wins, and
/// within that group the most stable (first-ranked) matching entry.
pub fn resolve<'a>(catalog: &'a Catalog, name: &str) -> (r: Option<&'a ResourceEntry>)
    ensures
        match r {
            Some(e) => exists|gi: int, ri: int|
                resolution_valid(catalog@, name@, gi, ri) && e@ == catalog@[gi].entries[ri],
            None => !catalog_has_match(catalog@, name@),
        },
{
    let ghost c = catalog@;
    proof {
        assert(forall|j: int| 0 <= j < catalog.groups@.len() ==> c[j] == catalog.groups@[j]@);
    }
    let mut best: Option<(usize, usize)> = None;
    let mut gi: usize = 0;
    while gi < catalog.groups.len()
        invariant
            gi <= catalog.groups.len(),
            c == catalog@,
            c.len() == catalog.groups@.len(),
            forall|j: int| 0 <= j < c.len() ==> c[j] == catalog.groups@[j]@,
            match best {
                None => forall|gj: int| 0 <= gj < gi ==> !group_has_match(#[trigger] c[gj], name@),
                Some((bg, br)) => {
                    &&& (bg as int) < gi
                    &&& first_match_in_group(c[bg as int], name@, br as int)
                    &&& forall|gj: int|
                        0 <= gj < gi && group_has_match(#[trigger] c[gj], name@) ==> lex_le(
                            c[bg as int].name,
                            c[gj].name,
                        )
                    &&& forall|gj: int|
                        0 <= gj < bg && group_has_match(#[trigger] c[gj], name@) ==> lex_lt(
                            c[bg as int].name,
                            c[gj].name,
                        )
                },
            },
        decreases catalog.groups.len() - gi,
    {
        let g = &catalog.groups[gi];
        let found = first_match(g, name);
        match found {
            Some(ri) => {
                match best {
                    None => {
                        best = Some((gi, ri));
                        proof {
                            lemma_lex_total(c[gi as int].name, c[gi as int].name);
                        }
                    },
                    Some((bg, br)) => {
                        if str_lt(g.name.as_str(), catalog.groups[bg].name.as_str()) {
                            proof {
                                assert(lex_lt(c[gi as int].name, c[bg as int].name));
                                assert forall|gj: int|
                                    0 <= gj < gi && group_has_match(#[trigger] c[gj], name@)
                                    implies lex_lt(c[gi as int].name, c[gj].name) by {
                                    if c[bg as int].name == c[gj].name {
                                    } else {
                                        assert(lex_le(c[bg as int].name, c[gj].name));
                                        lemma_lex_lt_trans(
                                            c[gi as int].name,
                                            c[bg as int].name,
                                            c[gj].name,
                                        );
                                    }
                                }
                            }
                            best = Some((gi, ri));
                        } else {
                            proof {
                                lemma_lex_total(c[bg as int].name, c[gi as int].name);
                                assert(lex_le(c[bg as int].name, c[gi as int].name));
                            }
                        }
                    },
                }
            },
            None => {},
        }
        gi += 1;
    }
    match best {
        Some((bg, br)) => {
            let e = &catalog.groups[bg].entries[br];
            proof {
                assert(catalog.groups@[bg as int]@ == c[bg as int]);
                assert(e@ == c[bg as int].entries[br as int]);
                assert(resolution_valid(c, name@, bg as int, br as int));
            }
            Some(e)
        },
        None => {
            None
        },
    }
}

} // verus!
