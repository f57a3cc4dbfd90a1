//! What holds of every converted document, proved from the transition table.
//!
//! Four rules hold of every document that a conversion returns: the rows of
//! a table divide evenly among its statistics, every row has one series for
//! each statistic of its table, a cell that is marked missing carries no
//! value, and the elements of a group are numbered from zero in their order.
//! One more holds of the documents whose rows all close with equally long
//! series: the converter keeps a row whose series differ in length.
use crate::context::{
    advance, initial_context, innermost, row_with_cell, rows_divide_evenly,
    uneven_rows_message, unmirrored_rows_message, ContextView, ParseOptions,
};
use crate::error::ErrorView;
use crate::event::{attribute_value, element_kind, ElementKind, XmlAttributeView, XmlEventView};
use crate::parser::{conversion, run};
use crate::reader::xml_events;
use crate::types::{
    document_even, row_even, row_mirrors, table_even, table_mirrored, DataCellView,
    DataRowSeriesView, DataRowView, EdgeView, ElementView, GroupView, TableView, XtabMLView,
};
use vstd::prelude::*;

verus! {

/// A cell that is marked missing carries no value; one that carries a value
/// is not marked missing.
pub open spec fn cell_sound(cell: DataCellView) -> bool {
    !(cell.is_missing && cell.value.is_some())
}

pub open spec fn series_sound(series: DataRowSeriesView) -> bool {
    forall|i: int| 0 <= i < series.cells.len() ==> cell_sound(#[trigger] series.cells[i])
}

pub open spec fn row_sound(row: DataRowView) -> bool {
    forall|s: int|
        0 <= s < row.data_row_series.len() ==> series_sound(#[trigger] row.data_row_series[s])
}

pub open spec fn rows_sound(rows: Seq<DataRowView>) -> bool {
    forall|r: int| 0 <= r < rows.len() ==> row_sound(#[trigger] rows[r])
}

/// The element carries the index `position`.
pub open spec fn indexed_at(element: ElementView, position: int) -> bool {
    match element.index {
        Some(index) => index as int == position,
        None => false,
    }
}

/// The elements of the group are numbered from zero, in their order.
pub open spec fn group_indexed(group: GroupView) -> bool {
    forall|i: int| 0 <= i < group.elements.len() ==> indexed_at(#[trigger] group.elements[i], i)
}

pub open spec fn edge_indexed(edge: EdgeView) -> bool {
    forall|g: int| 0 <= g < edge.groups.len() ==> group_indexed(#[trigger] edge.groups[g])
}

pub open spec fn edge_slot_indexed(edge: Option<EdgeView>) -> bool {
    match edge {
        Some(edge) => edge_indexed(edge),
        None => true,
    }
}

/// What holds of a table while it is assembled.
pub open spec fn table_parts_sound(table: TableView) -> bool {
    &&& rows_sound(table.data.rows)
    &&& edge_slot_indexed(table.row_edge)
    &&& edge_slot_indexed(table.column_edge)
}

/// What holds of a table of a document.
pub open spec fn table_sound(table: TableView) -> bool {
    &&& rows_divide_evenly(table)
    &&& table_mirrored(table)
    &&& table_parts_sound(table)
}

/// What holds of every document that a conversion returns.
pub open spec fn document_sound(document: XtabMLView) -> bool {
    forall|t: int| 0 <= t < document.tables.len() ==> table_sound(#[trigger] document.tables[t])
}

/// What holds of every context that a conversion passes through.
pub open spec fn context_sound(c: ContextView) -> bool {
    &&& document_sound(c.document)
    &&& match c.table {
        Some(table) => table_parts_sound(table),
        None => true,
    }
    &&& edge_slot_indexed(c.edge)
    &&& match c.group {
        Some(group) => group_indexed(group) && c.next_index as int == group.elements.len(),
        None => true,
    }
    &&& match c.row {
        Some(row) => row_sound(row),
        None => true,
    }
    &&& match c.cell {
        Some(cell) => cell_sound(cell),
        None => true,
    }
}

/// Every finished row of the context is even.
pub open spec fn context_even(c: ContextView) -> bool {
    &&& document_even(c.document)
    &&& match c.table {
        Some(table) => table_even(table),
        None => true,
    }
}

/// The event closes a row, in a table, whose series are not equally long.
pub open spec fn closes_uneven_row(c: ContextView, event: XmlEventView) -> bool {
    match event {
        XmlEventView::Close { name } => {
            &&& element_kind(name) == ElementKind::Row
            &&& c.capture.is_none()
            &&& c.table.is_some()
            &&& match c.row {
                Some(row) => !row_even(row),
                None => false,
            }
        },
        _ => false,
    }
}

/// Along the walk, every row that closes in a table has equally long series.
pub open spec fn rows_close_even(
    c: ContextView,
    outcomes: Seq<Option<XmlEventView>>,
    options: ParseOptions,
) -> bool
    decreases outcomes.len(),
{
    if outcomes.len() == 0 {
        true
    } else {
        match outcomes.first() {
            None => true,
            Some(XmlEventView::Eof) => true,
            Some(event) => !closes_uneven_row(c, event) && match advance(c, event, options) {
                Err(_) => true,
                Ok(next) => rows_close_even(next, outcomes.drop_first(), options),
            },
        }
    }
}

/// Every transition keeps a sound context sound.
pub proof fn lemma_advance_sound(c: ContextView, event: XmlEventView, options: ParseOptions)
    requires
        context_sound(c),
    ensures
        match advance(c, event, options) {
            Ok(next) => context_sound(next),
            Err(_) => true,
        },
{
}

/// Every walk from a sound context ends in a sound document.
pub proof fn lemma_run_sound(
    c: ContextView,
    outcomes: Seq<Option<XmlEventView>>,
    options: ParseOptions,
)
    requires
        context_sound(c),
    ensures
        match run(c, outcomes, options) {
            Ok(document) => document_sound(document),
            Err(_) => true,
        },
    decreases outcomes.len(),
{
    if outcomes.len() > 0 {
        match outcomes.first() {
            None => {},
            Some(XmlEventView::Eof) => {},
            Some(event) => {
                lemma_advance_sound(c, event, options);
                match advance(c, event, options) {
                    Err(_) => {},
                    Ok(next) => {
                        lemma_run_sound(next, outcomes.drop_first(), options);
                    },
                }
            },
        }
    }
}


/// Every transition but the closing of an uneven row keeps the finished rows
/// of a context even.
pub proof fn lemma_advance_even(c: ContextView, event: XmlEventView, options: ParseOptions)
    requires
        context_even(c),
        !closes_uneven_row(c, event),
    ensures
        match advance(c, event, options) {
            Ok(next) => context_even(next),
            Err(_) => true,
        },
{
}

/// A walk on which rows close even ends in a document whose rows are even.
pub proof fn lemma_run_even(
    c: ContextView,
    outcomes: Seq<Option<XmlEventView>>,
    options: ParseOptions,
)
    requires
        context_even(c),
        rows_close_even(c, outcomes, options),
    ensures
        match run(c, outcomes, options) {
            Ok(document) => document_even(document),
            Err(_) => true,
        },
    decreases outcomes.len(),
{
    if outcomes.len() > 0 {
        match outcomes.first() {
            None => {},
            Some(XmlEventView::Eof) => {},
            Some(event) => {
                lemma_advance_even(c, event, options);
                match advance(c, event, options) {
                    Err(_) => {},
                    Ok(next) => {
                        lemma_run_even(next, outcomes.drop_first(), options);
                    },
                }
            },
        }
    }
}

/// Every document that a conversion returns is sound.
pub proof fn conversion_is_sound(input: Seq<u8>, options: ParseOptions)
    ensures
        match conversion(input, options) {
            Ok(document) => document_sound(document),
            Err(_) => true,
        },
{
    lemma_run_sound(initial_context(), xml_events(input, true, true, true), options);
}

/// In every table of a converted document that declares a statistic, the
/// number of rows is a multiple of the number of statistics.
pub proof fn rows_divide_among_statistics(input: Seq<u8>, options: ParseOptions)
    ensures
        match conversion(input, options) {
            Ok(document) => forall|t: int|
                0 <= t < document.tables.len() && (#[trigger] document.tables[t]).statistics.len()
                    > 0 ==> document.tables[t].data.rows.len() % document.tables[t].statistics.len()
                    == 0,
            Err(_) => true,
        },
{
    conversion_is_sound(input, options);
}

/// In a converted document, every row has exactly one series for each
/// statistic of its table, and the series stand in the order in which the
/// statistics were declared, each holding its statistic.
pub proof fn series_mirror_statistics(input: Seq<u8>, options: ParseOptions)
    ensures
        match conversion(input, options) {
            Ok(document) => forall|t: int, r: int|
                0 <= t < document.tables.len() && 0 <= r < document.tables[t].data.rows.len()
                    ==> row_mirrors(
                    #[trigger] document.tables[t].data.rows[r],
                    document.tables[t].statistics,
                ),
            Err(_) => true,
        },
{
    conversion_is_sound(input, options);
}

/// In the document that a walk from the initial context ends in, any two
/// series of one row hold equally many cells, provided that every row that
/// closes in a table along the walk does so with equally long series. The
/// conversion of an input is such a walk, over the events of the input.
/// The converter keeps a row whose series differ in length, so this does not
/// hold of every document; `XtabML::series_equally_long` tests one.
pub proof fn series_equally_long(outcomes: Seq<Option<XmlEventView>>, options: ParseOptions)
    requires
        rows_close_even(initial_context(), outcomes, options),
    ensures
        match run(initial_context(), outcomes, options) {
            Ok(document) => forall|t: int, r: int|
                0 <= t < document.tables.len() && 0 <= r < document.tables[t].data.rows.len()
                    ==> row_even(#[trigger] document.tables[t].data.rows[r]),
            Err(_) => true,
        },
{
    lemma_run_even(initial_context(), outcomes, options);
}

/// In a converted document, no cell is both marked missing and the carrier
/// of a value.
pub proof fn missing_cells_carry_no_value(input: Seq<u8>, options: ParseOptions)
    ensures
        match conversion(input, options) {
            Ok(document) => forall|t: int, r: int, s: int, i: int|
                0 <= t < document.tables.len() && 0 <= r < document.tables[t].data.rows.len() && 0
                    <= s < document.tables[t].data.rows[r].data_row_series.len() && 0 <= i
                    < document.tables[t].data.rows[r].data_row_series[s].cells.len() ==> cell_sound(
                    #[trigger] document.tables[t].data.rows[r].data_row_series[s].cells[i],
                ),
            Err(_) => true,
        },
{
    conversion_is_sound(input, options);
}

/// In a converted document, the elements of every group of every edge carry
/// the indices 0, 1, 2, ... in their order.
pub proof fn elements_numbered_in_order(input: Seq<u8>, options: ParseOptions)
    ensures
        match conversion(input, options) {
            Ok(document) => forall|t: int|
                0 <= t < document.tables.len() ==> edge_slot_indexed(
                    (#[trigger] document.tables[t]).row_edge,
                ) && edge_slot_indexed(document.tables[t].column_edge),
            Err(_) => true,
        },
{
    conversion_is_sound(input, options);
}


/// The event is an opening root tag that carries a version.
pub open spec fn gives_version(event: XmlEventView) -> bool {
    match event {
        XmlEventView::Open { name, attributes, empty } => {
            &&& !empty
            &&& element_kind(name) == ElementKind::Root
            &&& attribute_value(attributes, "version"@).is_some()
        },
        _ => false,
    }
}

/// No event of the stream is an opening root tag that carries a version.
pub open spec fn no_version_given(outcomes: Seq<Option<XmlEventView>>) -> bool {
    forall|i: int|
        0 <= i < outcomes.len() ==> match #[trigger] outcomes[i] {
            Some(event) => !gives_version(event),
            None => true,
        }
}

/// A walk that is given no version leaves the version as it was.
pub proof fn lemma_run_keeps_version(
    c: ContextView,
    outcomes: Seq<Option<XmlEventView>>,
    options: ParseOptions,
)
    requires
        no_version_given(outcomes),
    ensures
        match run(c, outcomes, options) {
            Ok(document) => document.version == c.document.version,
            Err(_) => true,
        },
    decreases outcomes.len(),
{
    if outcomes.len() > 0 {
        assert(outcomes[0] == outcomes.first());
        match outcomes.first() {
            None => {},
            Some(XmlEventView::Eof) => {},
            Some(event) => {
                match advance(c, event, options) {
                    Err(_) => {},
                    Ok(next) => {
                        assert(next.document.version == c.document.version);
                        assert forall|i: int| 0 <= i < outcomes.drop_first().len() implies match (
                        #[trigger] outcomes.drop_first()[i]) {
                            Some(event) => !gives_version(event),
                            None => true,
                        } by {
                            assert(outcomes.drop_first()[i] == outcomes[i + 1]);
                        }
                        lemma_run_keeps_version(next, outcomes.drop_first(), options);
                    },
                }
            },
        }
    }
}

/// A walk from the initial context over events of which none is an opening
/// root tag with a version attribute ends in a document with the empty
/// version. The conversion of an input is such a walk, over the events of
/// the input.
pub proof fn version_is_empty_unless_given(
    outcomes: Seq<Option<XmlEventView>>,
    options: ParseOptions,
)
    requires
        no_version_given(outcomes),
    ensures
        match run(initial_context(), outcomes, options) {
            Ok(document) => document.version == Seq::<char>::empty(),
            Err(_) => true,
        },
{
    lemma_run_keeps_version(initial_context(), outcomes, options);
}

/// A missing marker in a cell group of an open row, with the cursor on one
/// of the row's series, adds to that series, and to no other, a cell that
/// has no value and is marked missing. Nothing else changes.
pub proof fn missing_marker_joins_series_under_cursor(
    c: ContextView,
    name: Seq<u8>,
    attributes: Seq<XmlAttributeView>,
    options: ParseOptions,
)
    requires
        element_kind(name) == ElementKind::Missing,
        c.capture.is_none(),
        innermost(c.stack) == Some(ElementKind::CellGroup),
        c.row.is_some(),
        0 <= c.cursor < c.row.unwrap().data_row_series.len(),
    ensures
        advance(c, XmlEventView::Open { name, attributes, empty: true }, options) == Ok::<
            ContextView,
            ErrorView,
        >(
            ContextView {
                row: Some(
                    row_with_cell(
                        c.row.unwrap(),
                        c.cursor,
                        DataCellView { value: None, is_missing: true },
                    ),
                ),
                ..c
            },
        ),
        ({
            let series = c.row.unwrap().data_row_series;
            let after = row_with_cell(
                c.row.unwrap(),
                c.cursor,
                DataCellView { value: None, is_missing: true },
            ).data_row_series;
            &&& after.len() == series.len()
            &&& after[c.cursor].cells == series[c.cursor].cells.push(
                DataCellView { value: None, is_missing: true },
            )
            &&& after[c.cursor].statistic == series[c.cursor].statistic
            &&& forall|s: int| 0 <= s < series.len() && s != c.cursor ==> after[s] == series[s]
        }),
{
}

/// A table that closes with rows that do not divide evenly among its
/// statistics ends the conversion with the structural error that names it,
/// whatever the policy.
pub proof fn uneven_table_is_refused(c: ContextView, name: Seq<u8>, options: ParseOptions)
    requires
        element_kind(name) == ElementKind::Table,
        c.capture.is_none(),
        c.table.is_some(),
        !rows_divide_evenly(c.table.unwrap()),
    ensures
        advance(c, XmlEventView::Close { name }, options) == Err::<ContextView, ErrorView>(
            ErrorView::InvalidStructure(uneven_rows_message(c.table.unwrap())),
        ),
{
}

/// A table that closes with a row that does not mirror its statistics ends
/// the conversion with the structural error that names it, whatever the
/// policy.
pub proof fn unmirrored_table_is_refused(c: ContextView, name: Seq<u8>, options: ParseOptions)
    requires
        element_kind(name) == ElementKind::Table,
        c.capture.is_none(),
        c.table.is_some(),
        rows_divide_evenly(c.table.unwrap()),
        !table_mirrored(c.table.unwrap()),
    ensures
        advance(c, XmlEventView::Close { name }, options) == Err::<ContextView, ErrorView>(
            ErrorView::InvalidStructure(unmirrored_rows_message(c.table.unwrap())),
        ),
{
}

} // verus!
