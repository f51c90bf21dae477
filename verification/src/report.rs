//! Rows and sheets of the report.

use vstd::prelude::*;
use crate::enrich::{go_doc_url, go_license_url, spec_go_doc_url, spec_go_license_url};
use crate::types::{DepsEntry, PackageInfo};

verus! {

/// Number of columns of every sheet.
pub const COLUMNS: usize = 5;

/// One written cell: its text, and whether it is shown as a hyperlink.
pub struct Cell {
    pub text: String,
    pub link: bool,
}

/// A row of the report: one cell per column, `None` where nothing is written.
pub struct ReportRow {
    pub cells: Vec<Option<Cell>>,
}

/// Value of a cell with plain text.
pub open spec fn plain(text: Seq<char>) -> Option<(Seq<char>, bool)> {
    Some((text, false))
}

/// Value of a hyperlink cell.
pub open spec fn link(text: Seq<char>) -> Option<(Seq<char>, bool)> {
    Some((text, true))
}

/// Value of a cell that may be empty.
pub open spec fn cell_view(c: Option<Cell>) -> Option<(Seq<char>, bool)> {
    match c {
        Some(cell) => Some((cell.text@, cell.link)),
        None => None,
    }
}

impl View for ReportRow {
    type V = Seq<Option<(Seq<char>, bool)>>;

    open spec fn view(&self) -> Seq<Option<(Seq<char>, bool)>> {
        Seq::new(self.cells@.len(), |i: int| cell_view(self.cells@[i]))
    }
}

/// The row of a package: name, version, homepage as a link, license, and
/// the link to its license file where one was found.
pub open spec fn spec_js_row(
    info: PackageInfo,
    license_url: Option<String>,
) -> Seq<Option<(Seq<char>, bool)>> {
    seq![
        plain(info.name@),
        plain(info.version@),
        link(info.homepage@),
        plain(info.license@),
        match license_url {
            Some(u) => link(u@),
            None => None,
        },
    ]
}

/// The row of a module: name, version, documentation link and, where a
/// license was found, its name and the link to the license page.
pub open spec fn spec_go_row(dep: DepsEntry, license: Option<String>) -> Seq<
    Option<(Seq<char>, bool)>,
> {
    seq![
        plain(dep.name@),
        plain(dep.version@),
        link(spec_go_doc_url(dep.name@)),
        match license {
            Some(l) => plain(l@),
            None => None,
        },
        match license {
            Some(_) => link(spec_go_license_url(dep.name@)),
            None => None,
        },
    ]
}

fn text_cell(text: &String) -> (c: Option<Cell>)
    ensures
        cell_view(c) == plain(text@),
{
    Some(Cell { text: text.clone(), link: false })
}

fn link_cell(text: String) -> (c: Option<Cell>)
    ensures
        cell_view(c) == link(text@),
{
    Some(Cell { text, link: true })
}

/// Builds the row of a package from what the registry said about it.
pub fn js_row(info: &PackageInfo, license_url: Option<String>) -> (r: ReportRow)
    ensures
        r@ == spec_js_row(*info, license_url),
        r@.len() == COLUMNS,
{
    let mut cells: Vec<Option<Cell>> = Vec::new();
    cells.push(text_cell(&info.name));
    cells.push(text_cell(&info.version));
    cells.push(link_cell(info.homepage.clone()));
    cells.push(text_cell(&info.license));
    cells.push(
        match license_url {
            Some(u) => link_cell(u),
            None => None,
        },
    );
    let r = ReportRow { cells };
    assert(r@ =~= spec_js_row(*info, license_url));
    r
}

/// Builds the row of a module.
pub fn go_row(dep: &DepsEntry, license: Option<String>) -> (r: ReportRow)
    ensures
        r@ == spec_go_row(*dep, license),
        r@.len() == COLUMNS,
{
    let mut cells: Vec<Option<Cell>> = Vec::new();
    cells.push(text_cell(&dep.name));
    cells.push(text_cell(&dep.version));
    cells.push(link_cell(go_doc_url(dep.name.as_str())));
    match license {
        Some(l) => {
            cells.push(text_cell(&l));
            cells.push(link_cell(go_license_url(dep.name.as_str())));
        },
        None => {
            cells.push(None);
            cells.push(None);
        },
    }
    let r = ReportRow { cells };
    assert(r@ =~= spec_go_row(*dep, license));
    r
}

/// Which pipeline a sheet belongs to.
#[derive(Debug, Clone, Copy, PartialEq, Eq, Structural)]
pub enum SheetKind {
    /// Packages of the package registry.
    Package,
    /// Modules of the module registry.
    Module,
}

/// The header texts of a sheet, column by column.
pub open spec fn spec_headers(kind: SheetKind) -> Seq<Seq<char>> {
    seq![
        "Name"@,
        "Version"@,
        match kind {
            SheetKind::Package => "Homepage/Doc-link"@,
            SheetKind::Module => "Doc-link"@,
        },
        "License"@,
        "License-link"@,
    ]
}

/// The header row of a sheet.
pub fn headers(kind: SheetKind) -> (r: Vec<String>)
    ensures
        r@.len() == COLUMNS,
        forall|i: int| 0 <= i < r@.len() ==> (#[trigger] r@[i])@ == spec_headers(kind)[i],
{
    let mut r: Vec<String> = Vec::new();
    r.push(String::from_str("Name"));
    r.push(String::from_str("Version"));
    match kind {
        SheetKind::Package => r.push(String::from_str("Homepage/Doc-link")),
        SheetKind::Module => r.push(String::from_str("Doc-link")),
    }
    r.push(String::from_str("License"));
    r.push(String::from_str("License-link"));
    r
}

/// The header row of a sheet as cells of plain text.
pub open spec fn spec_header_row(kind: SheetKind) -> Seq<Option<(Seq<char>, bool)>> {
    Seq::new(COLUMNS as nat, |i: int| plain(spec_headers(kind)[i]))
}

/// Builds the header row of a sheet.
pub fn header_row(kind: SheetKind) -> (r: ReportRow)
    ensures
        r@ == spec_header_row(kind),
{
    let texts = headers(kind);
    let mut cells: Vec<Option<Cell>> = Vec::new();
    let mut i: usize = 0;
    while i < texts.len()
        invariant
            0 <= i <= texts.len(),
            texts@.len() == COLUMNS,
            cells@.len() == i,
            forall|j: int| 0 <= j < texts@.len() ==> (#[trigger] texts@[j])@ == spec_headers(kind)[j],
            forall|j: int| 0 <= j < i ==> cell_view(#[trigger] cells@[j]) == plain(spec_headers(kind)[j]),
        decreases texts.len() - i,
    {
        cells.push(text_cell(&texts[i]));
        i += 1;
    }
    let r = ReportRow { cells };
    assert(r@ =~= spec_header_row(kind));
    r
}

/// What the enrichment of one package came to.
pub struct JsLookup {
    /// What the registry said, or `None` where the lookup failed.
    pub info: Option<PackageInfo>,
    /// The license file that answered, if any.
    pub license_url: Option<String>,
}

/// What the enrichment of one module came to.
pub struct GoLookup {
    pub dep: DepsEntry,
    /// The license name found on the license page, if any.
    pub license: Option<String>,
}

/// The rows that a list of package lookups gives: one for each lookup that
/// succeeded, in order, and none for one that failed.
pub open spec fn spec_js_rows(lookups: Seq<JsLookup>) -> Seq<Seq<Option<(Seq<char>, bool)>>>
    decreases lookups.len(),
{
    if lookups.len() == 0 {
        Seq::empty()
    } else {
        let before = spec_js_rows(lookups.drop_last());
        match lookups.last().info {
            Some(info) => before.push(spec_js_row(info, lookups.last().license_url)),
            None => before,
        }
    }
}

/// The rows that a list of module lookups gives: one for each, in order.
pub open spec fn spec_go_rows(lookups: Seq<GoLookup>) -> Seq<Seq<Option<(Seq<char>, bool)>>> {
    Seq::new(lookups.len(), |i: int| spec_go_row(lookups[i].dep, lookups[i].license))
}

/// The values of a list of rows.
pub open spec fn row_views(rows: Seq<ReportRow>) -> Seq<Seq<Option<(Seq<char>, bool)>>> {
    Seq::new(rows.len(), |i: int| rows[i]@)
}

/// A named table of the report, row by row as it is written: the header
/// row of its kind first, the data rows after it.
pub struct Sheet {
    pub name: String,
    pub kind: SheetKind,
    pub rows: Vec<ReportRow>,
}

/// Collects the sheets of one report.
pub struct ReportGenerator {
    sheets: Vec<Sheet>,
}

impl ReportGenerator {
    /// The sheets added so far, in order.
    pub closed spec fn sheets(&self) -> Seq<Sheet> {
        self.sheets@
    }

    /// A report without sheets.
    pub fn new() -> (r: ReportGenerator)
        ensures
            r.sheets().len() == 0,
    {
        ReportGenerator { sheets: Vec::new() }
    }

    /// Number of sheets.
    pub fn sheet_count(&self) -> (n: usize)
        ensures
            n == self.sheets().len(),
    {
        self.sheets.len()
    }

    /// The sheet at position `i`.
    pub fn sheet(&self, i: usize) -> (s: &Sheet)
        requires
            i < self.sheets().len(),
        ensures
            *s == self.sheets()[i as int],
    {
        &self.sheets[i]
    }

    /// Adds the sheet of the packages: the header row, then a row for each
    /// lookup that succeeded. A failed lookup leaves no row and does not
    /// stop the others.
    pub fn generate_js_report(&mut self, sheet_name: &str, lookups: &Vec<JsLookup>)
        ensures
            final(self).sheets().len() == old(self).sheets().len() + 1,
            final(self).sheets().drop_last() == old(self).sheets(),
            final(self).sheets().last().name@ == sheet_name@,
            final(self).sheets().last().kind == SheetKind::Package,
            row_views(final(self).sheets().last().rows@) == seq![
                spec_header_row(SheetKind::Package),
            ] + spec_js_rows(lookups@),
    {
        let ghost top = seq![spec_header_row(SheetKind::Package)];
        let mut rows: Vec<ReportRow> = Vec::new();
        rows.push(header_row(SheetKind::Package));
        let mut i: usize = 0;
        assert(lookups@.take(0) =~= Seq::<JsLookup>::empty());
        assert(row_views(rows@) =~= top + spec_js_rows(lookups@.take(0)));
        while i < lookups.len()
            invariant
                0 <= i <= lookups.len(),
                top == seq![spec_header_row(SheetKind::Package)],
                row_views(rows@) == top + spec_js_rows(lookups@.take(i as int)),
            decreases lookups.len() - i,
        {
            proof {
                assert(lookups@.take(i + 1).drop_last() =~= lookups@.take(i as int));
                assert(lookups@.take(i + 1).last() == lookups@[i as int]);
            }
            let ghost before = rows@;
            match &lookups[i].info {
                Some(info) => {
                    let row = js_row(info, lookups[i].license_url.clone());
                    rows.push(row);
                    assert(row_views(rows@) =~= row_views(before).push(row@));
                    assert(row_views(rows@) =~= top + spec_js_rows(lookups@.take(i + 1)));
                },
                None => {},
            }
            i += 1;
        }
        assert(lookups@.take(lookups.len() as int) =~= lookups@);
        let ghost earlier = self.sheets@;
        self.sheets.push(Sheet { name: sheet_name.to_owned(), kind: SheetKind::Package, rows });
        assert(self.sheets@.drop_last() =~= earlier);
    }

    /// Adds the sheet of the modules: the header row, then a row for each
    /// lookup.
    pub fn generate_go_report(&mut self, sheet_name: &str, lookups: &Vec<GoLookup>)
        ensures
            final(self).sheets().len() == old(self).sheets().len() + 1,
            final(self).sheets().drop_last() == old(self).sheets(),
            final(self).sheets().last().name@ == sheet_name@,
            final(self).sheets().last().kind == SheetKind::Module,
            row_views(final(self).sheets().last().rows@) == seq![
                spec_header_row(SheetKind::Module),
            ] + spec_go_rows(lookups@),
    {
        let mut rows: Vec<ReportRow> = Vec::new();
        rows.push(header_row(SheetKind::Module));
        let mut i: usize = 0;
        while i < lookups.len()
            invariant
                0 <= i <= lookups.len(),
                rows@.len() == i + 1,
                rows@[0]@ == spec_header_row(SheetKind::Module),
                forall|k: int|
                    1 <= k <= i ==> (#[trigger] rows@[k])@ == spec_go_row(
                        lookups@[k - 1].dep,
                        lookups@[k - 1].license,
                    ),
            decreases lookups.len() - i,
        {
            let row = go_row(&lookups[i].dep, lookups[i].license.clone());
            rows.push(row);
            i += 1;
        }
        assert(row_views(rows@) =~= seq![spec_header_row(SheetKind::Module)] + spec_go_rows(
            lookups@,
        ));
        let ghost earlier = self.sheets@;
        self.sheets.push(Sheet { name: sheet_name.to_owned(), kind: SheetKind::Module, rows });
        assert(self.sheets@.drop_last() =~= earlier);
    }

    /// Hands the finished sheets out, in the order in which they were added.
    pub fn save(self) -> (r: Vec<Sheet>)
        ensures
            r@ == self.sheets(),
    {
        self.sheets
    }
}

/// The row that a successful package lookup gives.
pub open spec fn row_of_lookup(lookup: JsLookup) -> Seq<Option<(Seq<char>, bool)>> {
    spec_js_row(lookup.info->Some_0, lookup.license_url)
}

/// A row is on the package sheet exactly when some successful lookup gives it.
pub proof fn lemma_js_rows_members(lookups: Seq<JsLookup>, row: Seq<Option<(Seq<char>, bool)>>)
    ensures
        spec_js_rows(lookups).contains(row) <==> exists|i: int|
            0 <= i < lookups.len() && (#[trigger] lookups[i]).info is Some && row == row_of_lookup(
                lookups[i],
            ),
    decreases lookups.len(),
{
    if lookups.len() > 0 {
        let rest = lookups.drop_last();
        let before = spec_js_rows(rest);
        let all = spec_js_rows(lookups);
        let last = lookups.last();
        lemma_js_rows_members(rest, row);
        if all.contains(row) {
            let k = choose|k: int| 0 <= k < all.len() && all[k] == row;
            if k < before.len() {
                assert(before[k] == row);
                assert(before.contains(row));
                let i = choose|i: int|
                    0 <= i < rest.len() && (#[trigger] rest[i]).info is Some && row
                        == row_of_lookup(rest[i]);
                assert(lookups[i] == rest[i]);
            } else {
                assert(last.info is Some && row == row_of_lookup(last));
                assert(lookups[lookups.len() - 1] == last);
            }
        }
        if exists|i: int|
            0 <= i < lookups.len() && (#[trigger] lookups[i]).info is Some && row == row_of_lookup(
                lookups[i],
            ) {
            let i = choose|i: int|
                0 <= i < lookups.len() && (#[trigger] lookups[i]).info is Some && row
                    == row_of_lookup(lookups[i]);
            if i < rest.len() {
                assert(rest[i] == lookups[i]);
                assert(before.contains(row));
                let k = choose|k: int| 0 <= k < before.len() && before[k] == row;
                assert(all[k] == row);
            } else {
                assert(all[all.len() - 1] == row);
            }
        }
    }
}

/// Taking the package lookups in another order changes at most the order
/// of the rows: the sheet holds the same set of rows.
pub proof fn lemma_js_rows_ignore_order(a: Seq<JsLookup>, b: Seq<JsLookup>)
    requires
        a.to_set() == b.to_set(),
    ensures
        spec_js_rows(a).to_set() == spec_js_rows(b).to_set(),
{
    assert forall|row: Seq<Option<(Seq<char>, bool)>>|
        spec_js_rows(a).contains(row) == spec_js_rows(b).contains(row) by {
        lemma_js_rows_members(a, row);
        lemma_js_rows_members(b, row);
        if spec_js_rows(a).contains(row) {
            let i = choose|i: int|
                0 <= i < a.len() && (#[trigger] a[i]).info is Some && row == row_of_lookup(a[i]);
            assert(a.contains(a[i]));
            assert(b.to_set().contains(a[i]));
            assert(b.contains(a[i]));
            let j = choose|j: int| 0 <= j < b.len() && b[j] == a[i];
            assert(b[j].info is Some && row == row_of_lookup(b[j]));
        }
        if spec_js_rows(b).contains(row) {
            let i = choose|i: int|
                0 <= i < b.len() && (#[trigger] b[i]).info is Some && row == row_of_lookup(b[i]);
            assert(b.contains(b[i]));
            assert(a.to_set().contains(b[i]));
            assert(a.contains(b[i]));
            let j = choose|j: int| 0 <= j < a.len() && a[j] == b[i];
            assert(a[j].info is Some && row == row_of_lookup(a[j]));
        }
    }
    assert(spec_js_rows(a).to_set() =~= spec_js_rows(b).to_set());
}

/// Taking the module lookups in another order changes at most the order of
/// the rows: the sheet holds the same set of rows.
pub proof fn lemma_go_rows_ignore_order(a: Seq<GoLookup>, b: Seq<GoLookup>)
    requires
        a.to_set() == b.to_set(),
    ensures
        spec_go_rows(a).to_set() == spec_go_rows(b).to_set(),
{
    assert forall|row: Seq<Option<(Seq<char>, bool)>>|
        spec_go_rows(a).contains(row) == spec_go_rows(b).contains(row) by {
        if spec_go_rows(a).contains(row) {
            let i = choose|i: int| 0 <= i < a.len() && spec_go_rows(a)[i] == row;
            assert(a.contains(a[i]));
            assert(b.to_set().contains(a[i]));
            assert(b.contains(a[i]));
            let j = choose|j: int| 0 <= j < b.len() && b[j] == a[i];
            assert(spec_go_rows(b)[j] == row);
        }
        if spec_go_rows(b).contains(row) {
            let i = choose|i: int| 0 <= i < b.len() && spec_go_rows(b)[i] == row;
            assert(b.contains(b[i]));
            assert(a.to_set().contains(b[i]));
            assert(a.contains(b[i]));
            let j = choose|j: int| 0 <= j < a.len() && a[j] == b[i];
            assert(spec_go_rows(a)[j] == row);
        }
    }
    assert(spec_go_rows(a).to_set() =~= spec_go_rows(b).to_set());
}

/// A lookup that failed adds no row to what the lookups before it gave.
pub proof fn lemma_failed_lookup_adds_nothing(lookups: Seq<JsLookup>, failed: JsLookup)
    requires
        failed.info is None,
    ensures
        spec_js_rows(lookups.push(failed)) == spec_js_rows(lookups),
{
    assert(lookups.push(failed).drop_last() =~= lookups);
}

/// A lookup that succeeded adds exactly its row, whatever came before it.
pub proof fn lemma_lookup_adds_its_row(lookups: Seq<JsLookup>, found: JsLookup)
    requires
        found.info is Some,
    ensures
        spec_js_rows(lookups.push(found)) == spec_js_rows(lookups).push(
            spec_js_row(found.info->Some_0, found.license_url),
        ),
{
    assert(lookups.push(found).drop_last() =~= lookups);
}

} // verus!
