//! The tabular renderer: lays heterogeneous, schema-less objects out as
//! fixed-width columns (NAMESPACE, NAME, READY, STATUS, RESTARTS, AGE)
//! sized from terminal geometry and the longest observed names, or passes
//! the objects through untouched for raw structured output.

use vstd::prelude::*;
use crate::age::{age_cell_text, calculate_age, sentinel, sentinel_text};
use crate::object::{prepare_objects, strip_view, views_of, DynObject, DynObjectView};
use crate::text::{pad_right, pad_spec};

verus! {

/// How results leave the tool: an aligned table, or the raw objects for a
/// structured serializer.
#[derive(Clone, Copy, PartialEq, Eq, Structural, Debug)]
pub enum OutputMode {
    Pretty,
    Yaml,
}

impl OutputMode {
    /// The flag spelling of the mode.
    pub fn label(&self) -> (r: &'static str)
        ensures
            *self == OutputMode::Pretty ==> r@ == "pretty"@,
            *self == OutputMode::Yaml ==> r@ == "yaml"@,
    {
        match self {
            OutputMode::Pretty => "pretty",
            OutputMode::Yaml => "yaml",
        }
    }
}

/// The column widths of one table, as mathematical sizes: one width for
/// the namespace column, one for the name column, and the uniform width of
/// the remaining columns.
pub struct WidthsSpec {
    pub namespace: nat,
    pub name: nat,
    pub cell: nat,
}

/// The column widths of one table.
pub struct ColumnWidths {
    pub namespace: usize,
    pub name: usize,
    pub cell: usize,
}

impl View for ColumnWidths {
    type V = WidthsSpec;

    open spec fn view(&self) -> WidthsSpec {
        WidthsSpec {
            namespace: self.namespace as nat,
            name: self.name as nat,
            cell: self.cell as nat,
        }
    }
}

/// The uniform column width taken from the terminal geometry `(rows,
/// columns)`: a sixth of the column count, one column per table column;
/// with no terminal attached the hard fallback geometry is 30 rows by 180
/// columns, so the width falls back to 30.
pub open spec fn base_width(geometry: Option<(u16, u16)>) -> nat {
    match geometry {
        Some(g) => (g.1 / 6) as nat,
        None => 30,
    }
}

/// Computes the uniform column width for the given terminal geometry.
pub fn terminal_cell_width(geometry: Option<(u16, u16)>) -> (w: usize)
    ensures
        w as nat == base_width(geometry),
{
    match geometry {
        Some((_, columns)) => (columns / 6) as usize,
        None => 30,
    }
}

/// The namespace cell of an object: cluster-scoped objects, which carry no
/// namespace, render an empty cell.
pub open spec fn namespace_text(v: DynObjectView) -> Seq<char> {
    match v.namespace {
        Some(n) => n,
        None => Seq::empty(),
    }
}

/// The status cell: `status.phase` when the body has one, else the
/// sentinel.
pub open spec fn phase_text(v: DynObjectView) -> Seq<char> {
    match v.phase {
        Some(p) => p,
        None => sentinel_text(),
    }
}

/// The condition cell: the first entry of `status.conditions` when the
/// body has one, else the sentinel.
pub open spec fn condition_text(v: DynObjectView) -> Seq<char> {
    match v.condition {
        Some(c) => c,
        None => sentinel_text(),
    }
}

/// The width of the name column: at least the uniform width, and at least
/// the longest rendered name, so no name is ever truncated.
pub open spec fn name_width(vs: Seq<DynObjectView>, base: nat) -> nat
    decreases vs.len(),
{
    if vs.len() == 0 {
        base
    } else {
        let rest = name_width(vs.drop_last(), base);
        if vs.last().name.len() > rest {
            vs.last().name.len()
        } else {
            rest
        }
    }
}

/// The width of the namespace column, sized like the name column.
pub open spec fn namespace_width(vs: Seq<DynObjectView>, base: nat) -> nat
    decreases vs.len(),
{
    if vs.len() == 0 {
        base
    } else {
        let rest = namespace_width(vs.drop_last(), base);
        if namespace_text(vs.last()).len() > rest {
            namespace_text(vs.last()).len()
        } else {
            rest
        }
    }
}

/// The widths used for one table of `vs` under the given geometry.
pub open spec fn table_widths(vs: Seq<DynObjectView>, geometry: Option<(u16, u16)>) -> WidthsSpec {
    WidthsSpec {
        namespace: namespace_width(vs, base_width(geometry)),
        name: name_width(vs, base_width(geometry)),
        cell: base_width(geometry),
    }
}

/// The name and namespace columns are wide enough for every row: no
/// rendered name is truncated.
pub proof fn lemma_widths_cover(vs: Seq<DynObjectView>, base: nat)
    ensures
        name_width(vs, base) >= base,
        namespace_width(vs, base) >= base,
        forall|i: int| 0 <= i < vs.len() ==> name_width(vs, base) >= (#[trigger] vs[i]).name.len(),
        forall|i: int|
            0 <= i < vs.len() ==> namespace_width(vs, base) >= namespace_text(#[trigger] vs[i]).len(),
    decreases vs.len(),
{
    if vs.len() > 0 {
        lemma_widths_cover(vs.drop_last(), base);
        assert forall|i: int| 0 <= i < vs.len() implies name_width(vs, base) >= (
        #[trigger] vs[i]).name.len() by {
            if i < vs.len() - 1 {
                assert(vs.drop_last()[i] == vs[i]);
            }
        }
        assert forall|i: int| 0 <= i < vs.len() implies namespace_width(vs, base)
            >= namespace_text(#[trigger] vs[i]).len() by {
            if i < vs.len() - 1 {
                assert(vs.drop_last()[i] == vs[i]);
            }
        }
    }
}

/// One padded cell followed by the single-space column separator.
pub open spec fn cell_text(s: Seq<char>, w: nat) -> Seq<char> {
    pad_spec(s, w) + seq![' ']
}

/// One data row: namespace, name, condition, status phase, the sentinel
/// for the untracked restart count, and the age, each padded to its
/// column.
pub open spec fn row_text(v: DynObjectView, w: WidthsSpec, now: u64) -> Seq<char> {
    cell_text(namespace_text(v), w.namespace) + cell_text(v.name, w.name) + cell_text(
        condition_text(v),
        w.cell,
    ) + cell_text(phase_text(v), w.cell) + cell_text(sentinel_text(), w.cell) + pad_spec(
        age_cell_text(v.created, now),
        w.cell,
    )
}

/// The header row, padded with the same widths as the data rows.
pub open spec fn header_text(w: WidthsSpec) -> Seq<char> {
    cell_text("NAMESPACE"@, w.namespace) + cell_text("NAME"@, w.name) + cell_text("READY"@, w.cell)
        + cell_text("STATUS"@, w.cell) + cell_text("RESTARTS"@, w.cell) + pad_spec("AGE"@, w.cell)
}

fn push_cell(line: &mut String, text: &str, w: usize)
    ensures
        final(line)@ == old(line)@ + cell_text(text@, w as nat),
{
    let p = pad_right(text, w);
    line.append(p.as_str());
    line.append(" ");
    proof {
        reveal_strlit(" ");
        assert(" "@ =~= seq![' ']);
        assert(line@ =~= old(line)@ + cell_text(text@, w as nat));
    }
}

fn namespace_str(obj: &DynObject) -> (r: &str)
    ensures
        r@ == namespace_text(obj@),
{
    match &obj.namespace {
        Some(n) => n.as_str(),
        None => {
            let r = "";
            proof {
                reveal_strlit("");
                assert(r@ =~= Seq::<char>::empty());
            }
            r
        },
    }
}

fn option_str<'a>(field: &'a Option<String>, sent: &'a str) -> (r: &'a str)
    requires
        sent@ == sentinel_text(),
    ensures
        r@ == match field {
            Some(s) => s@,
            None => sentinel_text(),
        },
{
    match field {
        Some(s) => s.as_str(),
        None => sent,
    }
}

/// Renders one data row of the table.
pub fn render_row(obj: &DynObject, w: &ColumnWidths, now: u64) -> (line: String)
    ensures
        line@ == row_text(obj@, w@, now),
{
    let sent = sentinel();
    let mut line = String::new();
    push_cell(&mut line, namespace_str(obj), w.namespace);
    push_cell(&mut line, obj.name.as_str(), w.name);
    push_cell(&mut line, option_str(&obj.condition, sent.as_str()), w.cell);
    push_cell(&mut line, option_str(&obj.phase, sent.as_str()), w.cell);
    push_cell(&mut line, sent.as_str(), w.cell);
    let age = calculate_age(obj.created, now);
    let age_padded = pad_right(age.as_str(), w.cell);
    line.append(age_padded.as_str());
    proof {
        assert(line@ =~= row_text(obj@, w@, now));
    }
    line
}

/// Renders the header row.
pub fn render_header(w: &ColumnWidths) -> (line: String)
    ensures
        line@ == header_text(w@),
{
    let mut line = String::new();
    push_cell(&mut line, "NAMESPACE", w.namespace);
    push_cell(&mut line, "NAME", w.name);
    push_cell(&mut line, "READY", w.cell);
    push_cell(&mut line, "STATUS", w.cell);
    push_cell(&mut line, "RESTARTS", w.cell);
    let age_padded = pad_right("AGE", w.cell);
    line.append(age_padded.as_str());
    proof {
        assert(line@ =~= header_text(w@));
    }
    line
}

/// Computes the table's column widths: the uniform width everywhere, the
/// name and namespace columns grown to their longest rendered value.
pub fn compute_widths(objects: &Vec<DynObject>, geometry: Option<(u16, u16)>) -> (w: ColumnWidths)
    ensures
        w@ == table_widths(views_of(objects@), geometry),
{
    let base = terminal_cell_width(geometry);
    let ghost vs = views_of(objects@);
    let mut name_w: usize = base;
    let mut ns_w: usize = base;
    let mut i: usize = 0;
    proof {
        assert(vs.take(0) =~= Seq::<DynObjectView>::empty());
    }
    while i < objects.len()
        invariant
            i <= objects.len(),
            vs == views_of(objects@),
            vs.len() == objects@.len(),
            forall|j: int| 0 <= j < vs.len() ==> vs[j] == objects@[j]@,
            name_w as nat == name_width(vs.take(i as int), base as nat),
            ns_w as nat == namespace_width(vs.take(i as int), base as nat),
        decreases objects.len() - i,
    {
        let l = objects[i].name.as_str().unicode_len();
        let nl = match &objects[i].namespace {
            Some(n) => n.as_str().unicode_len(),
            None => 0,
        };
        proof {
            assert(vs.take(i + 1).drop_last() =~= vs.take(i as int));
            assert(vs.take(i + 1).last() == vs[i as int]);
            assert(l as nat == vs[i as int].name.len());
            assert(nl as nat == namespace_text(vs[i as int]).len());
        }
        if l > name_w {
            name_w = l;
        }
        if nl > ns_w {
            ns_w = nl;
        }
        i += 1;
    }
    proof {
        assert(vs.take(vs.len() as int) =~= vs);
    }
    ColumnWidths { namespace: ns_w, name: name_w, cell: base }
}

/// The lines of one rendered table of `vs`: a header, then one row per
/// object, in order, with the widths of [`table_widths`].
pub open spec fn rendered_table(
    lines: Seq<String>,
    vs: Seq<DynObjectView>,
    geometry: Option<(u16, u16)>,
    now: u64,
) -> bool {
    &&& lines.len() == vs.len() + 1
    &&& lines[0]@ == header_text(table_widths(vs, geometry))
    &&& forall|i: int|
        0 <= i < vs.len() ==> lines[i + 1]@ == row_text(
            #[trigger] vs[i],
            table_widths(vs, geometry),
            now,
        )
}

/// Renders objects as an aligned table: one header line, then one line per
/// object in input order. The name and namespace columns are wide enough
/// for every row, so no name is truncated.
pub fn pretty_print(objects: &Vec<DynObject>, geometry: Option<(u16, u16)>, now: u64) -> (lines:
    Vec<String>)
    ensures
        rendered_table(lines@, views_of(objects@), geometry, now),
        forall|i: int|
            0 <= i < objects@.len() ==> table_widths(views_of(objects@), geometry).name >= (
            #[trigger] views_of(objects@)[i]).name.len(),
        forall|i: int|
            0 <= i < objects@.len() ==> table_widths(views_of(objects@), geometry).namespace
                >= namespace_text(#[trigger] views_of(objects@)[i]).len(),
{
    let ghost vs = views_of(objects@);
    let w = compute_widths(objects, geometry);
    let mut lines: Vec<String> = Vec::new();
    lines.push(render_header(&w));
    let mut i: usize = 0;
    while i < objects.len()
        invariant
            i <= objects.len(),
            vs == views_of(objects@),
            vs.len() == objects@.len(),
            forall|j: int| 0 <= j < vs.len() ==> vs[j] == objects@[j]@,
            w@ == table_widths(vs, geometry),
            lines@.len() == i + 1,
            lines@[0]@ == header_text(table_widths(vs, geometry)),
            forall|j: int|
                0 <= j < i ==> lines@[j + 1]@ == row_text(
                    #[trigger] vs[j],
                    table_widths(vs, geometry),
                    now,
                ),
        decreases objects.len() - i,
    {
        let line = render_row(&objects[i], &w, now);
        lines.push(line);
        i += 1;
    }
    proof {
        lemma_widths_cover(vs, base_width(geometry));
    }
    lines
}

/// What rendering produced: table lines, or the untouched objects for the
/// structured serializer.
pub enum RenderOutput {
    Lines(Vec<String>),
    Raw(Vec<DynObject>),
}

/// Renders a normalized result set for the chosen output mode: the
/// structured mode passes every object through unchanged, the tabular mode
/// lays them out as an aligned table.
pub fn render(
    objects: Vec<DynObject>,
    mode: OutputMode,
    geometry: Option<(u16, u16)>,
    now: u64,
) -> (r: RenderOutput)
    ensures
        mode == OutputMode::Yaml ==> (r matches RenderOutput::Raw(v) && v@ == objects@),
        mode == OutputMode::Pretty ==> (r matches RenderOutput::Lines(ls) && rendered_table(
            ls@,
            views_of(objects@),
            geometry,
            now,
        )),
{
    match mode {
        OutputMode::Yaml => RenderOutput::Raw(objects),
        OutputMode::Pretty => RenderOutput::Lines(pretty_print(&objects, geometry, now)),
    }
}

/// The stripped images of a result set: what both output modes show.
pub open spec fn stripped_views(objs: Seq<DynObject>) -> Seq<DynObjectView> {
    views_of(objs).map_values(|v: DynObjectView| strip_view(v))
}

/// A row never shows the managed-fields bookkeeping: stripping an object
/// does not change its rendered row.
pub proof fn lemma_row_ignores_managed_fields(v: DynObjectView, w: WidthsSpec, now: u64)
    ensures
        row_text(strip_view(v), w, now) == row_text(v, w, now),
{
}

/// The whole normalization-and-rendering path of a result set: every
/// object is stripped of its managed fields, then the set is rendered for
/// the chosen output mode. Neither mode's output carries managed fields:
/// the structured mode hands over stripped objects, the tabular mode rows
/// that never read them.
pub fn normalize_and_render(
    objects: Vec<DynObject>,
    mode: OutputMode,
    geometry: Option<(u16, u16)>,
    now: u64,
) -> (r: RenderOutput)
    ensures
        mode == OutputMode::Yaml ==> (r matches RenderOutput::Raw(v) && v@.len() == objects@.len()
            && forall|i: int|
            0 <= i < objects@.len() ==> (#[trigger] v@[i])@ == strip_view(objects@[i]@)),
        mode == OutputMode::Pretty ==> (r matches RenderOutput::Lines(ls) && rendered_table(
            ls@,
            stripped_views(objects@),
            geometry,
            now,
        )),
{
    let ghost orig = objects@;
    let prepared = prepare_objects(objects);
    proof {
        assert(views_of(prepared@) =~= stripped_views(orig));
    }
    render(prepared, mode, geometry, now)
}

} // verus!
