//! The verb dispatcher: one verb is selected per invocation and routed to
//! fetch-one, list, or watch against the scoped accessor; the mutating
//! verbs have no settled contract and fail loudly. The dispatcher also
//! normalizes outcomes — a missing named object, a stream error — into the
//! error taxonomy, never into a silent empty result.

use vstd::prelude::*;
use crate::accessor::{build_accessor, ScopedAccessor};
use crate::catalog::{
    catalog_has_match, resolution_valid, Catalog, GroupView, ResourceCapability,
    ResourceDescriptor, Scope,
};
use crate::object::DynObject;
use crate::render::{base_width, render_row, row_text, ColumnWidths, OutputMode, WidthsSpec};

verus! {

/// The verbs an invocation can request.
#[derive(Clone, Copy, PartialEq, Eq, Structural, Debug)]
pub enum Verb {
    Get,
    Delete,
    Edit,
    Watch,
    Apply,
}

/// Everything that can go wrong, each variant carrying what the reporter
/// needs.
#[derive(Debug)]
pub enum CliError {
    /// The resource name answers to no descriptor of the catalog.
    UnknownResource(String),
    /// The verb's mutation path has no settled contract in this build and
    /// must not pass for a completed operation.
    UnimplementedVerb(Verb),
    /// A named object does not exist; never an empty list.
    NotFound(String),
    /// The watch stream reported an error event; the watch is over.
    StreamFailure(String),
}

/// The one request an invocation performs against its accessor.
pub enum RequestAction {
    /// Fetch exactly the named object.
    FetchByName(String),
    /// List everything the optional label selector admits.
    ListMatching(Option<String>),
    /// Stream watch events under the optional label selector, from the
    /// oldest available resource version.
    WatchMatching(Option<String>),
}

/// The mathematical image of an optional string.
pub open spec fn option_view(o: Option<String>) -> Option<Seq<char>> {
    match o {
        Some(s) => Some(s@),
        None => None,
    }
}

/// The dispatch table as a relation: which action serves which verb.
pub open spec fn action_matches_rules(
    a: RequestAction,
    verb: Verb,
    name: Option<Seq<char>>,
    selector: Option<Seq<char>>,
) -> bool {
    match verb {
        Verb::Get => match name {
            Some(n) => a matches RequestAction::FetchByName(m) && m@ == n,
            None => a matches RequestAction::ListMatching(s) && option_view(s) == selector,
        },
        Verb::Watch => a matches RequestAction::WatchMatching(s) && option_view(s) == selector,
        _ => false,
    }
}

/// Routes a verb to its action. Get with a name fetches that one object;
/// Get without a name lists under the selector; Watch streams under the
/// selector; Delete, Edit and Apply have no settled contract and are
/// rejected loudly.
pub fn dispatch_verb(verb: Verb, name: Option<String>, selector: Option<String>) -> (r: Result<
    RequestAction,
    CliError,
>)
    ensures
        verb == Verb::Get || verb == Verb::Watch ==> (r matches Ok(a) && action_matches_rules(
            a,
            verb,
            option_view(name),
            option_view(selector),
        )),
        verb == Verb::Delete || verb == Verb::Edit || verb == Verb::Apply ==> (r matches Err(e)
            && e matches CliError::UnimplementedVerb(v) && v == verb),
{
    match verb {
        Verb::Get => match name {
            Some(n) => Ok(RequestAction::FetchByName(n)),
            None => Ok(RequestAction::ListMatching(selector)),
        },
        Verb::Watch => Ok(RequestAction::WatchMatching(selector)),
        Verb::Delete => Err(CliError::UnimplementedVerb(Verb::Delete)),
        Verb::Edit => Err(CliError::UnimplementedVerb(Verb::Edit)),
        Verb::Apply => Err(CliError::UnimplementedVerb(Verb::Apply)),
    }
}

/// Normalizes the outcome of a fetch-by-name: a found object becomes the
/// one-element result set, an absent one the NotFound error — never an
/// empty list.
pub fn fetch_outcome(fetched: Option<DynObject>, name: &str) -> (r: Result<Vec<DynObject>, CliError>)
    ensures
        fetched matches Some(o) ==> (r matches Ok(v) && v@.len() == 1 && v@[0] == o),
        fetched is None ==> (r matches Err(e) && e matches CliError::NotFound(n) && n@ == name@),
{
    match fetched {
        Some(o) => {
            let mut v: Vec<DynObject> = Vec::new();
            v.push(o);
            Ok(v)
        },
        None => Err(CliError::NotFound(name.to_owned())),
    }
}

/// One event of a watch stream, in arrival order.
pub enum WatchEvent {
    Added(DynObject),
    Modified(DynObject),
    Deleted(DynObject),
    /// The stream reported an error; it carries the server's message.
    StreamFailed(String),
}

/// The widths of a watch line: a stream has no complete result set to
/// measure, so every column keeps the uniform terminal width.
pub open spec fn watch_widths(geometry: Option<(u16, u16)>) -> WidthsSpec {
    WidthsSpec {
        namespace: base_width(geometry),
        name: base_width(geometry),
        cell: base_width(geometry),
    }
}

/// Renders one watch event as it arrives: Added, Modified and Deleted each
/// become one table row for their object, in arrival order; an error event
/// becomes the stream failure that ends the watch.
pub fn render_watch_event(event: WatchEvent, geometry: Option<(u16, u16)>, now: u64) -> (r: Result<
    String,
    CliError,
>)
    ensures
        event matches WatchEvent::Added(o) ==> (r matches Ok(line) && line@ == row_text(
            o@,
            watch_widths(geometry),
            now,
        )),
        event matches WatchEvent::Modified(o) ==> (r matches Ok(line) && line@ == row_text(
            o@,
            watch_widths(geometry),
            now,
        )),
        event matches WatchEvent::Deleted(o) ==> (r matches Ok(line) && line@ == row_text(
            o@,
            watch_widths(geometry),
            now,
        )),
        event matches WatchEvent::StreamFailed(msg) ==> (r matches Err(e)
            && e matches CliError::StreamFailure(m) && m@ == msg@),
{
    let base = crate::render::terminal_cell_width(geometry);
    let w = ColumnWidths { namespace: base, name: base, cell: base };
    match event {
        WatchEvent::Added(o) => Ok(render_row(&o, &w, now)),
        WatchEvent::Modified(o) => Ok(render_row(&o, &w, now)),
        WatchEvent::Deleted(o) => Ok(render_row(&o, &w, now)),
        WatchEvent::StreamFailed(msg) => Err(CliError::StreamFailure(msg)),
    }
}

/// The arguments of one invocation, as the command line hands them over.
pub struct Invocation {
    pub output: OutputMode,
    pub namespace: Option<String>,
    pub selector: Option<String>,
    pub all: bool,
    pub verb: Verb,
    pub resource: Option<String>,
    pub name: Option<String>,
}

/// Everything a planned invocation needs before it touches the cluster:
/// the resolved descriptor and capability, the scoped accessor, the
/// action, and the output mode.
pub struct InvocationPlan {
    pub descriptor: ResourceDescriptor,
    pub capability: ResourceCapability,
    pub accessor: ScopedAccessor,
    pub action: RequestAction,
    pub output: OutputMode,
}

/// The scope decision as a relation, first match wins: cluster scope or
/// the all-namespaces flag force the cluster-wide accessor; an explicit
/// namespace pins; otherwise the default namespace.
pub open spec fn accessor_matches_rules(
    acc: ScopedAccessor,
    capability: ResourceCapability,
    ns: Option<Seq<char>>,
    all: bool,
) -> bool {
    if capability.scope == Scope::Cluster || all {
        acc == ScopedAccessor::Cluster
    } else {
        match ns {
            Some(n) => acc matches ScopedAccessor::Namespaced(m) && m@ == n,
            None => acc == ScopedAccessor::DefaultNamespaced,
        }
    }
}

/// A plan is correct for the invocation when its descriptor and capability
/// are the deterministic resolution of the resource name, its accessor
/// follows the scope rules, its action follows the dispatch table, and the
/// output mode is carried through.
pub open spec fn plan_matches_rules(
    c: Seq<GroupView>,
    inv: Invocation,
    res: Seq<char>,
    plan: InvocationPlan,
) -> bool {
    &&& exists|gi: int, ri: int|
        resolution_valid(c, res, gi, ri) && plan.descriptor@ == c[gi].entries[ri].descriptor
            && plan.capability == c[gi].entries[ri].capability
    &&& accessor_matches_rules(
        plan.accessor,
        plan.capability,
        option_view(inv.namespace),
        inv.all,
    )
    &&& action_matches_rules(
        plan.action,
        inv.verb,
        option_view(inv.name),
        option_view(inv.selector),
    )
    &&& plan.output == inv.output
}

fn copy_descriptor(d: &ResourceDescriptor) -> (r: ResourceDescriptor)
    ensures
        r@ == d@,
{
    let r = ResourceDescriptor {
        kind: d.kind.clone(),
        plural: d.plural.clone(),
        group: d.group.clone(),
        version: d.version.clone(),
    };
    proof {
        assert(r@ =~= d@);
    }
    r
}

/// Plans one whole invocation before any network traffic: no resource
/// given is a successful no-op; an unknown resource name is fatal; a
/// mutating verb is rejected; otherwise the resolved, scoped, routed plan
/// comes back.
pub fn plan_invocation(catalog: &Catalog, inv: Invocation) -> (r: Result<
    Option<InvocationPlan>,
    CliError,
>)
    ensures
        inv.resource is None ==> (r matches Ok(p) && p is None),
        inv.resource matches Some(res) ==> ({
            &&& !catalog_has_match(catalog@, res@) ==> (r matches Err(e)
                && e matches CliError::UnknownResource(n) && n@ == res@)
            &&& catalog_has_match(catalog@, res@) && (inv.verb == Verb::Delete || inv.verb
                == Verb::Edit || inv.verb == Verb::Apply) ==> (r matches Err(e)
                && e matches CliError::UnimplementedVerb(v) && v == inv.verb)
            &&& catalog_has_match(catalog@, res@) && (inv.verb == Verb::Get || inv.verb
                == Verb::Watch) ==> (r matches Ok(po) && po matches Some(plan)
                && plan_matches_rules(catalog@, inv, res@, plan))
        }),
{
    let resource = match &inv.resource {
        None => {
            return Ok(None);
        },
        Some(res) => res,
    };
    match crate::catalog::resolve(catalog, resource.as_str()) {
        None => Err(CliError::UnknownResource(resource.clone())),
        Some(entry) => {
            let ghost c = catalog@;
            let descriptor = copy_descriptor(&entry.descriptor);
            let capability = entry.capability;
            let accessor = build_accessor(&entry.capability, &inv.namespace, inv.all);
            proof {
                let (gi, ri) = choose|gi: int, ri: int|
                    resolution_valid(c, resource@, gi, ri) && entry@ == c[gi].entries[ri];
                assert(resolution_valid(c, resource@, gi, ri) && descriptor@
                    == c[gi].entries[ri].descriptor && capability == c[gi].entries[ri].capability);
            }
            match dispatch_verb(inv.verb, inv.name, inv.selector) {
                Err(e) => Err(e),
                Ok(action) => Ok(
                    Some(
                        InvocationPlan {
                            descriptor,
                            capability,
                            accessor,
                            action,
                            output: inv.output,
                        },
                    ),
                ),
            }
        },
    }
}

} // verus!
