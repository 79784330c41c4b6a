//! Extraction of a replica snapshot from the replica's HTML dashboard.
//!
//! The HTML itself is parsed and queried by `scraper`; what the queries return
//! is named by functions of the document text. Everything built from those
//! answers (which header is which, the record fields, the exports) is
//! verified here.
use vstd::prelude::*;
use scraper::{Element, Html, Selector};
use crate::exports::{
    functions_marker, global_timer_label, lemma_global_timer_maybe_fails, lemma_parse_empty,
    parse_exports, Exports, ExportsView,
};
use crate::text::{
    chars_of, lemma_chars_deep_view, occurs_at, same_chars, string_of, trim, trimmed,
};

verus! {

broadcast use lemma_chars_deep_view;

/// scraper's parsed document, carried as an opaque value.
#[verifier::external_type_specification]
#[verifier::external_body]
pub struct ExHtml(scraper::Html);

/// `Html::parse_fragment` parses any text: the parser repairs what is malformed.
pub assume_specification[ scraper::Html::parse_fragment ](fragment: &str) -> scraper::Html;

/// The inner HTML of each element of the document `html` that `selector`
/// matches, in document order (empty when the selector does not parse).
pub uninterp spec fn selected_inner_html(html: Seq<char>, selector: Seq<char>) -> Seq<Seq<char>>;

/// For the `index`-th element of `html` that `selector` matches, the element
/// `up` parent elements above it, and there the inner HTML of each element that
/// `cell_selector` matches; `None` when there is no such match or ancestor.
pub uninterp spec fn cells_above_match(
    html: Seq<char>,
    selector: Seq<char>,
    index: int,
    up: int,
    cell_selector: Seq<char>,
) -> Option<Seq<Seq<char>>>;

/// For the `index`-th element of `html` that `selector` matches, the element
/// `up` parent elements above it, and there, for each element that
/// `row_selector` matches, the joined text of each element inside it that
/// `cell_selector` matches; `None` when there is no such match or ancestor.
pub uninterp spec fn rows_above_match(
    html: Seq<char>,
    selector: Seq<char>,
    index: int,
    up: int,
    row_selector: Seq<char>,
    cell_selector: Seq<char>,
) -> Option<Seq<Seq<Seq<char>>>>;

/// A parsed document together with the text it was parsed from. The fields
/// are private and `Page::parse` is the only way to make one, so `doc` is
/// always the parse of `source`.
pub struct Page {
    source: String,
    doc: Html,
}

impl Page {
    pub closed spec fn source(&self) -> Seq<char> {
        self.source@
    }

    pub fn parse(html: &str) -> (r: Page)
        ensures
            r.source() == html@,
    {
        Page { source: html.to_owned(), doc: Html::parse_fragment(html) }
    }
}

/// Relies on scraper's `Selector::parse`, `Html::root_element`,
/// `ElementRef::select` (a walk of the tree in document order) and
/// `ElementRef::inner_html`, which with the `deterministic` feature writes
/// attributes in source order: the inner HTML of each match, in document order.
#[verifier::external_body]
fn select_inner_html(page: &Page, selector: &str) -> (r: Vec<String>)
    ensures
        r.deep_view() == selected_inner_html(page.source(), selector@),
{
    match Selector::parse(selector) {
        Ok(sel) => page.doc.root_element().select(&sel).map(|e| e.inner_html()).collect(),
        Err(_) => Vec::new(),
    }
}

/// Relies on scraper's `Selector::parse`, `Html::root_element`,
/// `ElementRef::select` (document order), `Element::parent_element` and
/// `ElementRef::inner_html` (attributes in source order, with the
/// `deterministic` feature): the cells inside an ancestor of a match.
#[verifier::external_body]
fn cells_above(page: &Page, selector: &str, index: usize, up: usize, cell_selector: &str) -> (r:
    Option<Vec<String>>)
    ensures
        r.deep_view() == cells_above_match(
            page.source(),
            selector@,
            index as int,
            up as int,
            cell_selector@,
        ),
{
    let (sel, cells) = match (Selector::parse(selector), Selector::parse(cell_selector)) {
        (Ok(sel), Ok(cells)) => (sel, cells),
        _ => return None,
    };
    let found = page.doc.root_element().select(&sel).nth(index)?;
    let above = std::iter::successors(Some(found), |e| e.parent_element()).nth(up)?;
    Some(above.select(&cells).map(|c| c.inner_html()).collect())
}

/// Relies on scraper's `Selector::parse`, `Html::root_element`,
/// `ElementRef::select` (document order), `Element::parent_element` and
/// `ElementRef::text`:
/// the rows inside an ancestor of a match, each as the texts of its cells.
#[verifier::external_body]
fn rows_above(
    page: &Page,
    selector: &str,
    index: usize,
    up: usize,
    row_selector: &str,
    cell_selector: &str,
) -> (r: Option<Vec<Vec<String>>>)
    ensures
        r.deep_view() == rows_above_match(
            page.source(),
            selector@,
            index as int,
            up as int,
            row_selector@,
            cell_selector@,
        ),
{
    let parsed = (
        Selector::parse(selector),
        Selector::parse(row_selector),
        Selector::parse(cell_selector),
    );
    let (sel, rows, cells) = match parsed {
        (Ok(sel), Ok(rows), Ok(cells)) => (sel, rows, cells),
        _ => return None,
    };
    let found = page.doc.root_element().select(&sel).nth(index)?;
    let above = std::iter::successors(Some(found), |e| e.parent_element()).nth(up)?;
    let row_cells = |r: scraper::ElementRef| r.select(&cells).map(|c| c.text().collect()).collect();
    Some(above.select(&rows).map(row_cells).collect())
}

/// Header cells, read in document order: version, subnet type, compute allocation.
pub const HEADER_SELECTOR: &'static str = "td.debug";

/// The preformatted block that holds the HTTP server configuration.
pub const CONFIG_SELECTOR: &'static str = "div.debug > pre";

/// The label that opens each record section and holds its id.
pub const SUMMARY_SELECTOR: &'static str = "summary";

pub const ROW_SELECTOR: &'static str = "tr";

pub const CELL_SELECTOR: &'static str = "td";

/// From a record's label up to its detail container.
pub const DETAIL_LEVELS: usize = 1;

/// From a record's label up to the row group that encloses the record's row:
/// detail container, table cell, table row, row group.
pub const ROW_GROUP_LEVELS: usize = 4;

/// One monitored canister, as the dashboard reports it.
#[derive(Debug, PartialEq, Clone)]
pub struct CanisterInfo {
    pub canister_id: String,
    pub status: String,
    pub memory_allocation: String,
    pub last_execution_round: String,
    pub controllers: String,
    pub certified_data_length: String,
    pub canister_history_memory_usage: String,
    pub execution_state: String,
    pub last_full_execution_round: String,
    pub exports: Exports,
    pub compute_allocation: String,
    pub freeze_threshold: String,
    pub memory_usage: String,
    pub accumulated_priority: String,
    pub cycles_balance: String,
}

/// A snapshot of the replica: its header values, its configuration and its
/// canisters in the order of the dashboard.
#[derive(Debug, PartialEq, Clone)]
pub struct ReplicaInfo {
    pub canisters: Vec<CanisterInfo>,
    pub http_server_config: String,
    pub replica_version: String,
    pub subnet_type: String,
    pub total_compute_allocation: String,
}

pub struct CanisterView {
    pub canister_id: Seq<char>,
    pub status: Seq<char>,
    pub memory_allocation: Seq<char>,
    pub last_execution_round: Seq<char>,
    pub controllers: Seq<char>,
    pub certified_data_length: Seq<char>,
    pub canister_history_memory_usage: Seq<char>,
    pub execution_state: Seq<char>,
    pub last_full_execution_round: Seq<char>,
    pub exports: ExportsView,
    pub compute_allocation: Seq<char>,
    pub freeze_threshold: Seq<char>,
    pub memory_usage: Seq<char>,
    pub accumulated_priority: Seq<char>,
    pub cycles_balance: Seq<char>,
}

pub struct ReplicaView {
    pub canisters: Seq<CanisterView>,
    pub http_server_config: Seq<char>,
    pub replica_version: Seq<char>,
    pub subnet_type: Seq<char>,
    pub total_compute_allocation: Seq<char>,
}

impl View for CanisterInfo {
    type V = CanisterView;

    open spec fn view(&self) -> CanisterView {
        CanisterView {
            canister_id: self.canister_id@,
            status: self.status@,
            memory_allocation: self.memory_allocation@,
            last_execution_round: self.last_execution_round@,
            controllers: self.controllers@,
            certified_data_length: self.certified_data_length@,
            canister_history_memory_usage: self.canister_history_memory_usage@,
            execution_state: self.execution_state@,
            last_full_execution_round: self.last_full_execution_round@,
            exports: self.exports@,
            compute_allocation: self.compute_allocation@,
            freeze_threshold: self.freeze_threshold@,
            memory_usage: self.memory_usage@,
            accumulated_priority: self.accumulated_priority@,
            cycles_balance: self.cycles_balance@,
        }
    }
}

impl View for ReplicaInfo {
    type V = ReplicaView;

    open spec fn view(&self) -> ReplicaView {
        ReplicaView {
            canisters: self.canisters@.map_values(|c: CanisterInfo| c@),
            http_server_config: self.http_server_config@,
            replica_version: self.replica_version@,
            subnet_type: self.subnet_type@,
            total_compute_allocation: self.total_compute_allocation@,
        }
    }
}

/// The `i`-th value of `values`, or nothing when there are fewer.
pub open spec fn nth_or_empty(values: Seq<Seq<char>>, i: int) -> Seq<char> {
    if 0 <= i < values.len() {
        values[i]
    } else {
        Seq::empty()
    }
}

/// The number of trailing cells that the positional fields are read from.
pub const POSITIONAL_CELLS: usize = 3;

/// The `k`-th cell counted from the end (0 is the last), trimmed; nothing
/// when the cells are missing or fewer than the three positional ones.
pub open spec fn cell_from_end(cells: Option<Seq<Seq<char>>>, k: int) -> Seq<char> {
    match cells {
        Some(c) => if c.len() >= POSITIONAL_CELLS && 0 <= k < POSITIONAL_CELLS {
            trim(c[c.len() - 1 - k])
        } else {
            Seq::empty()
        },
        None => Seq::empty(),
    }
}

/// The value that the rows give `key`: the trimmed second cell of the last row
/// whose trimmed first cell is `key`; rows with fewer than two cells are
/// skipped, and a key no row has gives nothing.
pub open spec fn row_value(rows: Seq<Seq<Seq<char>>>, key: Seq<char>) -> Seq<char>
    decreases rows.len(),
{
    if rows.len() == 0 {
        Seq::empty()
    } else if rows.last().len() >= 2 && trim(rows.last()[0]) == key {
        trim(rows.last()[1])
    } else {
        row_value(rows.drop_last(), key)
    }
}

/// The exports that the rows give: those of the `exports` value, or none at
/// all when it is missing or does not read.
pub open spec fn exports_of_rows(rows: Seq<Seq<Seq<char>>>) -> ExportsView {
    match parse_exports(row_value(rows, "exports"@)) {
        Some(e) => e,
        None => ExportsView::empty(),
    }
}

/// The record with label `id`, the cells of the row group around its row, and
/// the rows of its detail container.
pub open spec fn record_view(
    id: Seq<char>,
    cells: Option<Seq<Seq<char>>>,
    rows: Seq<Seq<Seq<char>>>,
) -> CanisterView {
    CanisterView {
        canister_id: id,
        status: cell_from_end(cells, 2),
        memory_allocation: cell_from_end(cells, 1),
        last_execution_round: cell_from_end(cells, 0),
        controllers: row_value(rows, "controllers"@),
        certified_data_length: row_value(rows, "certified_data length"@),
        canister_history_memory_usage: row_value(rows, "canister_history_memory_usage"@),
        execution_state: row_value(rows, "execution_state"@),
        last_full_execution_round: row_value(rows, "last_full_execution_round"@),
        exports: exports_of_rows(rows),
        compute_allocation: row_value(rows, "compute_allocation"@),
        freeze_threshold: row_value(rows, "freeze_threshold (seconds)"@),
        memory_usage: row_value(rows, "memory_usage"@),
        accumulated_priority: row_value(rows, "accumulated_priority"@),
        cycles_balance: row_value(rows, "Cycles balance"@),
    }
}

pub open spec fn rows_or_none(rows: Option<Seq<Seq<Seq<char>>>>) -> Seq<Seq<Seq<char>>> {
    match rows {
        Some(r) => r,
        None => Seq::empty(),
    }
}

/// The record of the `i`-th section of the document `html`.
pub open spec fn section_record(html: Seq<char>, ids: Seq<Seq<char>>, i: int) -> CanisterView {
    record_view(
        ids[i],
        cells_above_match(html, SUMMARY_SELECTOR@, i, ROW_GROUP_LEVELS as int, CELL_SELECTOR@),
        rows_or_none(
            rows_above_match(
                html,
                SUMMARY_SELECTOR@,
                i,
                DETAIL_LEVELS as int,
                ROW_SELECTOR@,
                CELL_SELECTOR@,
            ),
        ),
    )
}

/// The records of the first `n` sections whose id is not empty, in order.
pub open spec fn section_records(html: Seq<char>, ids: Seq<Seq<char>>, n: int) -> Seq<CanisterView>
    decreases n,
{
    if n <= 0 {
        Seq::empty()
    } else if ids[n - 1].len() == 0 {
        section_records(html, ids, n - 1)
    } else {
        section_records(html, ids, n - 1).push(section_record(html, ids, n - 1))
    }
}

/// The snapshot that the dashboard text `html` describes.
pub open spec fn dashboard_view(html: Seq<char>) -> ReplicaView {
    let headers = selected_inner_html(html, HEADER_SELECTOR@);
    let configs = selected_inner_html(html, CONFIG_SELECTOR@);
    let ids = selected_inner_html(html, SUMMARY_SELECTOR@);
    ReplicaView {
        canisters: section_records(html, ids, ids.len() as int),
        http_server_config: if configs.len() > 0 {
            trim(configs[0])
        } else {
            Seq::empty()
        },
        replica_version: nth_or_empty(headers, 0),
        subnet_type: nth_or_empty(headers, 1),
        total_compute_allocation: nth_or_empty(headers, 2),
    }
}

/// Reading the same dashboard text twice gives equal snapshots.
pub proof fn lemma_parse_idempotent(first: ReplicaInfo, second: ReplicaInfo, html: Seq<char>)
    requires
        first@ == dashboard_view(html),
        second@ == dashboard_view(html),
    ensures
        first@ == second@,
{
}

/// A key that no row carries has the empty value.
pub proof fn lemma_row_value_missing(rows: Seq<Seq<Seq<char>>>, key: Seq<char>)
    requires
        forall|i: int| 0 <= i < rows.len() ==> !(rows[i].len() >= 2 && trim(rows[i][0]) == key),
    ensures
        row_value(rows, key) == Seq::<char>::empty(),
    decreases rows.len(),
{
    if rows.len() > 0 {
        assert(!(rows.last().len() >= 2 && trim(rows.last()[0]) == key));
        lemma_row_value_missing(rows.drop_last(), key);
    }
}

/// A record whose rows carry no `exports` key gets the empty exports, with no
/// failure.
pub proof fn lemma_exports_missing(rows: Seq<Seq<Seq<char>>>)
    requires
        forall|i: int|
            0 <= i < rows.len() ==> !(rows[i].len() >= 2 && trim(rows[i][0]) == "exports"@),
    ensures
        exports_of_rows(rows) == ExportsView::empty(),
{
    lemma_row_value_missing(rows, "exports"@);
    lemma_parse_empty();
}

/// A key that rows carry has the trimmed second cell of the last row that
/// carries it as its value.
pub proof fn lemma_row_value_present(rows: Seq<Seq<Seq<char>>>, key: Seq<char>, j: int)
    requires
        0 <= j < rows.len(),
        rows[j].len() >= 2,
        trim(rows[j][0]) == key,
        forall|i: int| j < i < rows.len() ==> !(rows[i].len() >= 2 && trim(rows[i][0]) == key),
    ensures
        row_value(rows, key) == trim(rows[j][1]),
    decreases rows.len(),
{
    if j < rows.len() - 1 {
        let front = rows.drop_last();
        assert(!(rows.last().len() >= 2 && trim(rows.last()[0]) == key));
        assert forall|i: int| j < i < front.len() implies !(front[i].len() >= 2 && trim(front[i][0])
            == key) by {
            assert(front[i] == rows[i]);
        }
        lemma_row_value_present(front, key, j);
    }
}

/// A record whose exports text ends in `exports_global_timer: maybe` (with no
/// earlier global timer label and no function-set marker) is still made, with
/// its id and no exports at all.
pub proof fn lemma_record_timer_maybe(
    id: Seq<char>,
    cells: Option<Seq<Seq<char>>>,
    rows: Seq<Seq<Seq<char>>>,
    p: Seq<char>,
)
    requires
        row_value(rows, "exports"@) == p + "exports_global_timer: maybe"@,
        forall|i: int|
            0 <= i < (p + "exports_global_timer: maybe"@).len() ==> !occurs_at(
                p + "exports_global_timer: maybe"@,
                functions_marker(),
                i,
            ),
        forall|i: int|
            0 <= i < p.len() ==> !occurs_at(
                p + "exports_global_timer: maybe"@,
                global_timer_label(),
                i,
            ),
    ensures
        record_view(id, cells, rows).canister_id == id,
        record_view(id, cells, rows).exports == ExportsView::empty(),
{
    lemma_global_timer_maybe_fails(p);
}

/// The number of sections among the first `n` whose id is not empty.
pub open spec fn labelled_count(ids: Seq<Seq<char>>, n: int) -> int
    decreases n,
{
    if n <= 0 {
        0
    } else if ids[n - 1].len() == 0 {
        labelled_count(ids, n - 1)
    } else {
        labelled_count(ids, n - 1) + 1
    }
}

pub proof fn lemma_labelled_count_grows(ids: Seq<Seq<char>>, k: int, n: int)
    requires
        0 <= k <= n,
    ensures
        labelled_count(ids, k) <= labelled_count(ids, n),
    decreases n - k,
{
    if k < n {
        lemma_labelled_count_grows(ids, k, n - 1);
    }
}

/// Every section with an id gives its own record, in order: the records of
/// the first `n` sections are one per labelled section, and the one for
/// section `k` is made from that section alone, so a section whose exports do
/// not read leaves the others as they are.
pub proof fn lemma_section_records_each(html: Seq<char>, ids: Seq<Seq<char>>, n: int)
    requires
        0 <= n <= ids.len(),
    ensures
        section_records(html, ids, n).len() == labelled_count(ids, n),
        forall|k: int|
            0 <= k < n && ids[k].len() > 0 ==> section_records(html, ids, n)[labelled_count(ids, k)]
                == section_record(html, ids, k),
    decreases n,
{
    if n > 0 {
        lemma_section_records_each(html, ids, n - 1);
        let before = section_records(html, ids, n - 1);
        assert forall|k: int|
            0 <= k < n && ids[k].len() > 0 implies section_records(html, ids, n)[labelled_count(
            ids,
            k,
        )] == section_record(html, ids, k) by {
            if k < n - 1 {
                lemma_labelled_count_grows(ids, k + 1, n - 1);
                lemma_labelled_count_grows(ids, 0, k);
                assert(labelled_count(ids, k + 1) == labelled_count(ids, k) + 1);
                assert(labelled_count(ids, k) < before.len());
                if ids[n - 1].len() > 0 {
                    assert(section_records(html, ids, n) == before.push(
                        section_record(html, ids, n - 1),
                    ));
                    assert(section_records(html, ids, n)[labelled_count(ids, k)] == before[labelled_count(
                        ids,
                        k,
                    )]);
                }
            } else {
                assert(section_records(html, ids, n) == before.push(section_record(html, ids, n - 1)));
            }
        }
    }
}

/// The `k`-th cell counted from the end, trimmed; empty when there are fewer
/// than the three positional cells.
fn cell_from_end_of(cells: &Option<Vec<String>>, k: usize) -> (r: String)
    ensures
        r@ == cell_from_end(cells.deep_view(), k as int),
{
    match cells {
        Some(c) => {
            if c.len() >= POSITIONAL_CELLS && k < POSITIONAL_CELLS {
                let i = c.len() - 1 - k;
                assert(c.deep_view()[i as int] == c@[i as int]@);
                string_of(&trimmed(&chars_of(c[i].as_str())))
            } else {
                String::new()
            }
        },
        None => String::new(),
    }
}

/// The value that `rows` give `key`, the last row with that key winning.
fn row_value_of(rows: &Vec<Vec<String>>, key: &str) -> (r: String)
    ensures
        r@ == row_value(rows.deep_view(), key@),
{
    let key_chars = chars_of(key);
    let ghost all = rows.deep_view();
    let mut j: usize = rows.len();
    assert(all.subrange(0, j as int) =~= all);
    while j > 0
        invariant
            j <= rows.len(),
            all == rows.deep_view(),
            key_chars@ == key@,
            row_value(all, key@) == row_value(all.subrange(0, j as int), key@),
        decreases j,
    {
        let ghost part = all.subrange(0, j as int);
        assert(part.drop_last() =~= all.subrange(0, j - 1));
        assert(part.last() == rows@[j - 1].deep_view());
        let row = &rows[j - 1];
        if row.len() >= 2 {
            assert(row.deep_view()[0] == row@[0]@);
            assert(row.deep_view()[1] == row@[1]@);
            let first = trimmed(&chars_of(row[0].as_str()));
            if same_chars(&first, &key_chars) {
                return string_of(&trimmed(&chars_of(row[1].as_str())));
            }
        }
        j = j - 1;
    }
    String::new()
}

impl CanisterInfo {
    /// Builds the record with label `id` from the cells of the row group around
    /// its row (`None` when that group could not be reached) and the rows of its
    /// detail container, each given as the texts of its cells. Status, memory
    /// allocation and last execution round are the third last, second last and
    /// last cell, and all three are empty when there are fewer than three
    /// cells; every other field is looked up by its key in the rows.
    pub fn from_parts(id: String, cells: Option<Vec<String>>, rows: Vec<Vec<String>>) -> (r:
        CanisterInfo)
        ensures
            r@ == record_view(id@, cells.deep_view(), rows.deep_view()),
    {
        let exports = match Exports::from_str(row_value_of(&rows, "exports")) {
            Some(e) => e,
            None => Exports::default(),
        };
        CanisterInfo {
            canister_id: id,
            status: cell_from_end_of(&cells, 2),
            memory_allocation: cell_from_end_of(&cells, 1),
            last_execution_round: cell_from_end_of(&cells, 0),
            controllers: row_value_of(&rows, "controllers"),
            certified_data_length: row_value_of(&rows, "certified_data length"),
            canister_history_memory_usage: row_value_of(&rows, "canister_history_memory_usage"),
            execution_state: row_value_of(&rows, "execution_state"),
            last_full_execution_round: row_value_of(&rows, "last_full_execution_round"),
            exports,
            compute_allocation: row_value_of(&rows, "compute_allocation"),
            freeze_threshold: row_value_of(&rows, "freeze_threshold (seconds)"),
            memory_usage: row_value_of(&rows, "memory_usage"),
            accumulated_priority: row_value_of(&rows, "accumulated_priority"),
            cycles_balance: row_value_of(&rows, "Cycles balance"),
        }
    }
}

/// The `i`-th value, or an empty string when there are fewer.
fn nth_or_new(values: &Vec<String>, i: usize) -> (r: String)
    ensures
        r@ == nth_or_empty(values.deep_view(), i as int),
{
    if i < values.len() {
        assert(values.deep_view()[i as int] == values@[i as int]@);
        values[i].clone()
    } else {
        String::new()
    }
}

impl ReplicaInfo {
    /// Reads the snapshot that the dashboard text `html` describes. Missing
    /// parts give empty values; a section whose label is empty gives no record.
    pub fn parse_from_html_dashboard(html: &str) -> (r: Result<ReplicaInfo, String>)
        ensures
            r matches Ok(info) && info@ == dashboard_view(html@),
    {
        let page = Page::parse(html);
        let headers = select_inner_html(&page, HEADER_SELECTOR);
        let configs = select_inner_html(&page, CONFIG_SELECTOR);
        let ids = select_inner_html(&page, SUMMARY_SELECTOR);
        let http_server_config = if configs.len() > 0 {
            assert(configs.deep_view()[0] == configs@[0]@);
            string_of(&trimmed(&chars_of(configs[0].as_str())))
        } else {
            String::new()
        };
        let ghost all_ids = ids.deep_view();
        let mut canisters: Vec<CanisterInfo> = Vec::new();
        let mut i: usize = 0;
        while i < ids.len()
            invariant
                i <= ids.len(),
                page.source() == html@,
                all_ids == ids.deep_view(),
                canisters@.map_values(|c: CanisterInfo| c@) == section_records(
                    html@,
                    all_ids,
                    i as int,
                ),
            decreases ids.len() - i,
        {
            assert(all_ids[i as int] == ids@[i as int]@);
            if ids[i].as_str().is_empty() {
            } else {
                let cells = cells_above(&page, SUMMARY_SELECTOR, i, ROW_GROUP_LEVELS, CELL_SELECTOR);
                let rows = match rows_above(
                    &page,
                    SUMMARY_SELECTOR,
                    i,
                    DETAIL_LEVELS,
                    ROW_SELECTOR,
                    CELL_SELECTOR,
                ) {
                    Some(rows) => rows,
                    None => Vec::new(),
                };
                assert(rows.deep_view() =~= rows_or_none(
                    rows_above_match(
                        html@,
                        SUMMARY_SELECTOR@,
                        i as int,
                        DETAIL_LEVELS as int,
                        ROW_SELECTOR@,
                        CELL_SELECTOR@,
                    ),
                ));
                let record = CanisterInfo::from_parts(ids[i].clone(), cells, rows);
                let ghost before = canisters@.map_values(|c: CanisterInfo| c@);
                canisters.push(record);
                assert(canisters@.map_values(|c: CanisterInfo| c@) =~= before.push(record@));
            }
            i = i + 1;
        }
        Ok(
            ReplicaInfo {
                canisters,
                http_server_config,
                replica_version: nth_or_new(&headers, 0),
                subnet_type: nth_or_new(&headers, 1),
                total_compute_allocation: nth_or_new(&headers, 2),
            },
        )
    }
}

} // verus!
