//! The parser context and its transition table.
//!
//! A conversion is a walk over the events of a document. The context holds
//! what has been assembled so far and at most one unfinished instance of each
//! entity. This module defines the context and states, as functions on its
//! mathematical counterpart, what every event does to it.
use crate::error::ErrorView;
use crate::event::{attribute_value, element_kind, ElementKind, XmlAttributeView, XmlEventView};
use crate::types::{
    table_mirrored, ControlView, DataCell, DataCellView, DataRow, DataRowSeriesView, DataRowView, Edge, EdgeView,
    Element, ElementView, Group, GroupView, StatisticType, StatisticTypeView, StatisticView,
    SummaryView, Table, TableDataView, TableView, XtabML, XtabMLView,
};
use vstd::prelude::*;
use vstd::utf8::*;

verus! {

/// What to do with a cell that arrives after the last declared statistic of
/// its row has been served.
#[derive(Debug, Clone, Copy)]
pub enum CellPolicy {
    /// Fail the conversion.
    Strict,
    /// Drop the cell.
    Lenient,
}

/// The caller's choices for one conversion.
#[derive(Debug, Clone, Copy)]
pub struct ParseOptions {
    pub cell_policy: CellPolicy,
    /// The greatest number of elements that may be open at once, if bounded.
    pub max_depth: Option<usize>,
}

impl Default for ParseOptions {
    /// Stray cells are dropped and the nesting depth is unbounded.
    fn default() -> (options: ParseOptions)
        ensures
            options == lenient_options(),
    {
        ParseOptions { cell_policy: CellPolicy::Lenient, max_depth: None }
    }
}

/// The options of a conversion that is given none: stray cells are dropped
/// and the nesting depth is unbounded.
pub open spec fn lenient_options() -> ParseOptions {
    ParseOptions { cell_policy: CellPolicy::Lenient, max_depth: None }
}

/// The entity that the next closing text holder delivers its text to.
#[derive(Debug, Clone, Copy)]
pub enum Focus {
    /// Nothing: the text is discarded.
    Idle,
    /// The title of the open table.
    TableTitle,
    /// The label of the open element.
    ElementLabel,
    /// The text of the open statistic type.
    StatisticTypeText,
    /// The body of the control being captured.
    ControlText,
    /// The summary that is open in the group.
    SummaryText,
}

/// A control whose body is being captured.
#[derive(Debug, Clone)]
pub struct ControlCapture {
    /// The control's declared type.
    pub kind: String,
    /// The number of elements that were open when the control opened.
    pub base: usize,
    /// The focus to return to when the control closes.
    pub resume: Focus,
}

/// The state of a conversion between two events.
#[derive(Debug, Clone)]
pub struct ParseContext {
    /// The document assembled so far.
    pub document: XtabML,
    /// The elements that are open, outermost first.
    pub stack: Vec<ElementKind>,
    /// The control being captured, if any.
    pub capture: Option<ControlCapture>,
    /// Where the next closing text holder delivers its text.
    pub focus: Focus,
    /// The text accumulated since it was last consumed or cleared.
    pub text: String,
    /// The table that is open, if any.
    pub table: Option<Table>,
    /// The edge that is open in the table, if any.
    pub edge: Option<Edge>,
    /// The group that is open in the edge, if any.
    pub group: Option<Group>,
    /// The index that the next element of the open group receives.
    pub next_index: i32,
    /// The element that is open in the group and still waits for its label.
    pub element: Option<Element>,
    /// The data row that is open in the table, if any.
    pub row: Option<DataRow>,
    /// The position, in the open row, of the series that the next cell joins.
    pub cursor: usize,
    /// The cell that an open value has begun.
    pub cell: Option<DataCell>,
    /// The statistic type that is open, if any.
    pub statistic_type: Option<StatisticType>,
}

/// The mathematical counterpart of [`ControlCapture`].
pub struct CaptureView {
    pub kind: Seq<char>,
    pub base: int,
    pub resume: Focus,
}

/// The mathematical counterpart of [`ParseContext`].
pub struct ContextView {
    pub document: XtabMLView,
    pub stack: Seq<ElementKind>,
    pub capture: Option<CaptureView>,
    pub focus: Focus,
    pub text: Seq<char>,
    pub table: Option<TableView>,
    pub edge: Option<EdgeView>,
    pub group: Option<GroupView>,
    pub next_index: i32,
    pub element: Option<ElementView>,
    pub row: Option<DataRowView>,
    pub cursor: int,
    pub cell: Option<DataCellView>,
    pub statistic_type: Option<StatisticTypeView>,
}

impl DeepView for ControlCapture {
    type V = CaptureView;

    open spec fn deep_view(&self) -> CaptureView {
        CaptureView { kind: self.kind@, base: self.base as int, resume: self.resume }
    }
}

impl DeepView for ParseContext {
    type V = ContextView;

    open spec fn deep_view(&self) -> ContextView {
        ContextView {
            document: self.document.deep_view(),
            stack: self.stack@,
            capture: self.capture.deep_view(),
            focus: self.focus,
            text: self.text@,
            table: self.table.deep_view(),
            edge: self.edge.deep_view(),
            group: self.group.deep_view(),
            next_index: self.next_index,
            element: self.element.deep_view(),
            row: self.row.deep_view(),
            cursor: self.cursor as int,
            cell: self.cell.deep_view(),
            statistic_type: self.statistic_type.deep_view(),
        }
    }
}

/// The outcome of a transition, seen mathematically.
pub open spec fn outcome_view(outcome: Result<ParseContext, crate::error::XtabMLError>) -> Result<
    ContextView,
    ErrorView,
> {
    match outcome {
        Ok(context) => Ok(context.deep_view()),
        Err(error) => Err(error.deep_view()),
    }
}

/// The document with nothing in it.
pub open spec fn empty_document() -> XtabMLView {
    XtabMLView {
        version: Seq::empty(),
        date: None,
        time: None,
        origin: None,
        user: None,
        languages: Seq::empty(),
        control_types: Seq::empty(),
        statistic_types: Seq::empty(),
        controls: Seq::empty(),
        tables: Seq::empty(),
    }
}

/// The context before the first event.
pub open spec fn initial_context() -> ContextView {
    ContextView {
        document: empty_document(),
        stack: Seq::empty(),
        capture: None,
        focus: Focus::Idle,
        text: Seq::empty(),
        table: None,
        edge: None,
        group: None,
        next_index: 0,
        element: None,
        row: None,
        cursor: 0,
        cell: None,
        statistic_type: None,
    }
}

/// The name under which an error speaks of a table: its name where it has
/// one, else its title.
pub open spec fn table_label(table: TableView) -> Seq<char> {
    match table.name {
        Some(name) => name,
        None => table.title,
    }
}

/// The label of the open table, empty where none is open.
pub open spec fn open_table_label(c: ContextView) -> Seq<char> {
    match c.table {
        Some(table) => table_label(table),
        None => Seq::empty(),
    }
}

/// The message of the error that a table raises whose rows do not divide
/// evenly among its statistics.
pub open spec fn uneven_rows_message(table: TableView) -> Seq<char> {
    "Data rows do not divide evenly among the statistics of table "@ + table_label(table)
}

/// The message of the error that a table raises in which a row does not have
/// one series for each statistic.
pub open spec fn unmirrored_rows_message(table: TableView) -> Seq<char> {
    "Data rows do not mirror the statistics of table "@ + table_label(table)
}

/// The message of the error that a cell raises, under the strict policy, that
/// arrives after the last statistic of its row has been served.
pub open spec fn stray_cell_message(c: ContextView) -> Seq<char> {
    "Cell beyond the declared statistics of table "@ + open_table_label(c)
}

/// The text of the attribute named `word`: absent, decoded, or the
/// structural error with `message` where its bytes are not UTF-8.
pub open spec fn attribute_text(
    attributes: Seq<XmlAttributeView>,
    word: Seq<char>,
    message: Seq<char>,
) -> Result<Option<Seq<char>>, ErrorView> {
    match attribute_value(attributes, word) {
        None => Ok(None),
        Some(bytes) => if valid_utf8(bytes) {
            Ok(Some(decode_utf8(bytes)))
        } else {
            Err(ErrorView::InvalidStructure(message))
        },
    }
}

/// An attribute's text, empty where the attribute is absent.
pub open spec fn text_or_empty(text: Option<Seq<char>>) -> Seq<char> {
    match text {
        Some(text) => text,
        None => Seq::empty(),
    }
}

/// The innermost open element.
pub open spec fn innermost(stack: Seq<ElementKind>) -> Option<ElementKind> {
    if stack.len() > 0 {
        Some(stack.last())
    } else {
        None
    }
}

/// Whether one more open element would exceed the bound.
pub open spec fn too_deep(depth: nat, max_depth: Option<usize>) -> bool {
    match max_depth {
        Some(bound) => depth >= bound,
        None => false,
    }
}

/// A table that has just been opened.
pub open spec fn new_table(name: Option<Seq<char>>) -> TableView {
    TableView {
        name,
        title: Seq::empty(),
        controls: Seq::empty(),
        row_edge: None,
        column_edge: None,
        statistics: Seq::empty(),
        data: TableDataView { rows: Seq::empty() },
    }
}

/// A row that has just been opened in a table with these statistics: one
/// empty series for each, in their order.
pub open spec fn new_row(statistics: Seq<StatisticView>) -> DataRowView {
    DataRowView {
        data_row_series: Seq::new(
            statistics.len(),
            |i: int| DataRowSeriesView { statistic: Some(statistics[i]), cells: Seq::empty() },
        ),
    }
}

/// The row with one more cell in the series at `position`.
pub open spec fn row_with_cell(row: DataRowView, position: int, cell: DataCellView) -> DataRowView {
    DataRowView {
        data_row_series: row.data_row_series.update(
            position,
            DataRowSeriesView {
                cells: row.data_row_series[position].cells.push(cell),
                ..row.data_row_series[position]
            },
        ),
    }
}

/// The context with its text accumulator cleared.
pub open spec fn without_text(c: ContextView) -> ContextView {
    ContextView { text: Seq::empty(), ..c }
}

/// The context with every unfinished part of a table dropped.
pub open spec fn without_table(c: ContextView) -> ContextView {
    ContextView {
        table: None,
        edge: None,
        group: None,
        element: None,
        row: None,
        cell: None,
        cursor: 0,
        focus: Focus::Idle,
        text: Seq::empty(),
        ..c
    }
}

/// The root opens: its version is recorded where it carries one.
pub open spec fn open_root(c: ContextView, attributes: Seq<XmlAttributeView>) -> Result<
    ContextView,
    ErrorView,
> {
    match attribute_text(attributes, "version"@, "Invalid UTF-8 in version"@) {
        Err(error) => Err(error),
        Ok(None) => Ok(c),
        Ok(Some(version)) => Ok(
            ContextView { document: XtabMLView { version, ..c.document }, ..c },
        ),
    }
}

/// A table opens at document level: a new table is begun, and the next text
/// holder is its title.
pub open spec fn open_table(c: ContextView, attributes: Seq<XmlAttributeView>) -> Result<
    ContextView,
    ErrorView,
> {
    if c.table.is_some() {
        Ok(c)
    } else {
        match attribute_text(attributes, "name"@, "Invalid UTF-8 in name"@) {
            Err(error) => Err(error),
            Ok(name) => Ok(
                ContextView { table: Some(new_table(name)), focus: Focus::TableTitle, ..c },
            ),
        }
    }
}

/// A control opens: the capture of its body begins. `c.stack` already holds
/// the control.
pub open spec fn open_control(c: ContextView, attributes: Seq<XmlAttributeView>) -> Result<
    ContextView,
    ErrorView,
> {
    match attribute_text(attributes, "type"@, "Invalid UTF-8 in control type"@) {
        Err(error) => Err(error),
        Ok(kind) => Ok(
            ContextView {
                capture: Some(
                    CaptureView {
                        kind: text_or_empty(kind),
                        base: c.stack.len() - 1,
                        resume: c.focus,
                    },
                ),
                focus: Focus::ControlText,
                text: Seq::empty(),
                ..c
            },
        ),
    }
}

/// An edge opens in a table.
pub open spec fn open_edge(c: ContextView, attributes: Seq<XmlAttributeView>) -> Result<
    ContextView,
    ErrorView,
> {
    if c.table.is_none() {
        Ok(c)
    } else {
        match attribute_text(attributes, "axis"@, "Invalid UTF-8 in axis"@) {
            Err(error) => Err(error),
            Ok(axis) => Ok(
                ContextView {
                    edge: Some(EdgeView { axis: text_or_empty(axis), groups: Seq::empty() }),
                    group: None,
                    element: None,
                    ..c
                },
            ),
        }
    }
}

/// A group opens in an edge: its elements are counted from zero.
pub open spec fn open_group(c: ContextView) -> ContextView {
    if c.edge.is_none() {
        c
    } else {
        ContextView {
            group: Some(GroupView { elements: Seq::empty(), summaries: Seq::empty() }),
            next_index: 0,
            element: None,
            ..c
        }
    }
}

/// An element opens in a group: the next text holder is its label.
pub open spec fn open_element(c: ContextView) -> ContextView {
    if c.group.is_none() {
        c
    } else {
        ContextView {
            element: Some(ElementView { text: Seq::empty(), index: None }),
            focus: Focus::ElementLabel,
            ..c
        }
    }
}

/// A summary opens in a group: text is gathered for it from here on.
pub open spec fn open_summary(c: ContextView) -> ContextView {
    if c.group.is_none() {
        c
    } else {
        ContextView { focus: Focus::SummaryText, text: Seq::empty(), ..c }
    }
}

/// A statistic is declared in a table: it joins the table's statistics, last.
pub open spec fn declare_statistic(c: ContextView, attributes: Seq<XmlAttributeView>) -> Result<
    ContextView,
    ErrorView,
> {
    match c.table {
        None => Ok(c),
        Some(table) => match attribute_text(
            attributes,
            "type"@,
            "Invalid UTF-8 in statistic type"@,
        ) {
            Err(error) => Err(error),
            Ok(kind) => Ok(
                ContextView {
                    table: Some(
                        TableView {
                            statistics: table.statistics.push(
                                StatisticView { kind: text_or_empty(kind) },
                            ),
                            ..table
                        },
                    ),
                    ..c
                },
            ),
        },
    }
}

/// A data row opens in a table, with one empty series for each statistic
/// declared so far.
pub open spec fn open_row(c: ContextView) -> ContextView {
    match c.table {
        None => c,
        Some(table) => ContextView {
            row: Some(new_row(table.statistics)),
            cursor: 0,
            cell: None,
            ..c
        },
    }
}

/// A value opens in a cell group of a row: a cell is begun.
pub open spec fn open_value(c: ContextView, parent: Option<ElementKind>) -> ContextView {
    if c.row.is_some() && parent == Some(ElementKind::CellGroup) {
        ContextView { cell: Some(DataCellView { value: None, is_missing: false }), ..c }
    } else {
        c
    }
}

/// A statistic type opens: the next text holder is its text.
pub open spec fn open_statistic_type(c: ContextView, attributes: Seq<XmlAttributeView>) -> Result<
    ContextView,
    ErrorView,
> {
    match attribute_text(attributes, "name"@, "Invalid UTF-8 in name"@) {
        Err(error) => Err(error),
        Ok(name) => Ok(
            ContextView {
                statistic_type: Some(
                    StatisticTypeView { name: text_or_empty(name), text: Seq::empty() },
                ),
                focus: Focus::StatisticTypeText,
                ..c
            },
        ),
    }
}

/// A control type opens: its name is read, and nothing is kept.
pub open spec fn open_control_type(c: ContextView, attributes: Seq<XmlAttributeView>) -> Result<
    ContextView,
    ErrorView,
> {
    match attribute_text(attributes, "name"@, "Invalid UTF-8 in name"@) {
        Err(error) => Err(error),
        Ok(_) => Ok(c),
    }
}

/// A finished cell arrives while a row is open. It joins the series under the
/// cursor. Where the cursor has passed the last series, the strict policy
/// fails and the lenient policy drops the cell.
pub open spec fn place_cell(c: ContextView, cell: DataCellView, policy: CellPolicy) -> Result<
    ContextView,
    ErrorView,
> {
    match c.row {
        None => Ok(c),
        Some(row) => if 0 <= c.cursor < row.data_row_series.len() {
            Ok(ContextView { row: Some(row_with_cell(row, c.cursor, cell)), ..c })
        } else {
            match policy {
                CellPolicy::Strict => Err(ErrorView::InvalidStructure(stray_cell_message(c))),
                CellPolicy::Lenient => Ok(c),
            }
        },
    }
}

/// What an opening tag does. The element is pushed onto the stack first;
/// during a capture nothing else happens.
pub open spec fn on_open(
    c: ContextView,
    kind: ElementKind,
    attributes: Seq<XmlAttributeView>,
    options: ParseOptions,
) -> Result<ContextView, ErrorView> {
    if too_deep(c.stack.len(), options.max_depth) {
        Err(ErrorView::InvalidStructure("Maximum nesting depth exceeded"@))
    } else if c.stack.len() == 0 && kind != ElementKind::Root {
        Err(ErrorView::MissingElement("xtab"@))
    } else {
        let parent = innermost(c.stack);
        let c = ContextView { stack: c.stack.push(kind), ..c };
        if c.capture.is_some() {
            Ok(c)
        } else {
            match kind {
                ElementKind::Root => open_root(c, attributes),
                ElementKind::Table => open_table(c, attributes),
                ElementKind::Control => open_control(c, attributes),
                ElementKind::Edge => open_edge(c, attributes),
                ElementKind::Group => Ok(open_group(c)),
                ElementKind::Element => Ok(open_element(c)),
                ElementKind::Summary => Ok(open_summary(c)),
                ElementKind::Statistic => declare_statistic(c, attributes),
                ElementKind::Row => Ok(open_row(c)),
                ElementKind::Value => Ok(open_value(c, parent)),
                ElementKind::StatisticType => open_statistic_type(c, attributes),
                ElementKind::ControlType => open_control_type(c, attributes),
                _ => Ok(c),
            }
        }
    }
}

/// What a self-closing tag does. It never touches the stack. A statistic is
/// declared; a missing marker in a cell group of a row becomes a cell with
/// no value and the missing flag set; any other element is passed over.
pub open spec fn on_empty(
    c: ContextView,
    kind: ElementKind,
    attributes: Seq<XmlAttributeView>,
    options: ParseOptions,
) -> Result<ContextView, ErrorView> {
    if c.capture.is_some() {
        Ok(c)
    } else if c.stack.len() == 0 && kind != ElementKind::Root {
        Err(ErrorView::MissingElement("xtab"@))
    } else {
        match kind {
            ElementKind::Statistic => declare_statistic(c, attributes),
            ElementKind::Missing => if c.row.is_some() && innermost(c.stack) == Some(
                ElementKind::CellGroup,
            ) {
                place_cell(c, DataCellView { value: None, is_missing: true }, options.cell_policy)
            } else {
                Ok(c)
            },
            _ => Ok(c),
        }
    }
}

/// The captured control closes: it joins the open table, or the document
/// where no table is open.
pub open spec fn close_control(c: ContextView, capture: CaptureView) -> ContextView {
    let control = ControlView { kind: capture.kind, text: c.text };
    let c = ContextView { capture: None, focus: capture.resume, text: Seq::empty(), ..c };
    match c.table {
        Some(table) => ContextView {
            table: Some(TableView { controls: table.controls.push(control), ..table }),
            ..c
        },
        None => ContextView {
            document: XtabMLView { controls: c.document.controls.push(control), ..c.document },
            ..c
        },
    }
}

/// A text holder closes: the accumulated text goes to the entity in focus.
/// An element receives its label and its index and joins its group at once.
/// A summary's text stays in the accumulator until the summary closes.
pub open spec fn close_text(c: ContextView) -> Result<ContextView, ErrorView> {
    match c.focus {
        Focus::TableTitle => match c.table {
            Some(table) => Ok(
                ContextView {
                    table: Some(TableView { title: c.text, ..table }),
                    focus: Focus::Idle,
                    text: Seq::empty(),
                    ..c
                },
            ),
            None => Ok(without_text(c)),
        },
        Focus::ElementLabel => match (c.group, c.element) {
            (Some(group), Some(_)) => if c.next_index == i32::MAX {
                Err(ErrorView::InvalidStructure("Too many elements in group"@))
            } else {
                Ok(
                    ContextView {
                        group: Some(
                            GroupView {
                                elements: group.elements.push(
                                    ElementView { text: c.text, index: Some(c.next_index) },
                                ),
                                ..group
                            },
                        ),
                        next_index: (c.next_index + 1) as i32,
                        element: None,
                        focus: Focus::Idle,
                        text: Seq::empty(),
                        ..c
                    },
                )
            },
            _ => Ok(without_text(c)),
        },
        Focus::StatisticTypeText => match c.statistic_type {
            Some(statistic_type) => Ok(
                ContextView {
                    statistic_type: Some(StatisticTypeView { text: c.text, ..statistic_type }),
                    focus: Focus::Idle,
                    text: Seq::empty(),
                    ..c
                },
            ),
            None => Ok(without_text(c)),
        },
        Focus::SummaryText => Ok(c),
        _ => Ok(without_text(c)),
    }
}

/// An element closes: whatever is left of it is dropped.
pub open spec fn close_element(c: ContextView) -> ContextView {
    ContextView {
        element: None,
        focus: match c.focus {
            Focus::ElementLabel => Focus::Idle,
            other => other,
        },
        text: Seq::empty(),
        ..c
    }
}

/// A summary closes: the accumulated text becomes a summary of the open
/// group.
pub open spec fn close_summary(c: ContextView) -> ContextView {
    match c.focus {
        Focus::SummaryText => ContextView {
            group: match c.group {
                Some(group) => Some(
                    GroupView {
                        summaries: group.summaries.push(SummaryView { text: c.text }),
                        ..group
                    },
                ),
                None => None,
            },
            focus: Focus::Idle,
            text: Seq::empty(),
            ..c
        },
        _ => without_text(c),
    }
}

/// A group closes: it joins the open edge.
pub open spec fn close_group(c: ContextView) -> ContextView {
    match c.group {
        None => without_text(c),
        Some(group) => ContextView {
            edge: match c.edge {
                Some(edge) => Some(EdgeView { groups: edge.groups.push(group), ..edge }),
                None => None,
            },
            group: None,
            element: None,
            text: Seq::empty(),
            ..c
        },
    }
}

/// The table with an edge attached by its axis: "r" fills the row edge, "c"
/// the column edge, and an edge of any other axis is left out.
pub open spec fn table_with_edge(table: TableView, edge: EdgeView) -> TableView {
    if edge.axis == "r"@ {
        TableView { row_edge: Some(edge), ..table }
    } else if edge.axis == "c"@ {
        TableView { column_edge: Some(edge), ..table }
    } else {
        table
    }
}

/// An edge closes: it is attached to the open table.
pub open spec fn close_edge(c: ContextView) -> ContextView {
    match c.edge {
        None => without_text(c),
        Some(edge) => ContextView {
            table: match c.table {
                Some(table) => Some(table_with_edge(table, edge)),
                None => None,
            },
            edge: None,
            group: None,
            element: None,
            text: Seq::empty(),
            ..c
        },
    }
}

/// A cell group closes: the cursor moves to the next series. It stops one
/// past the last.
pub open spec fn close_cell_group(c: ContextView) -> ContextView {
    match c.row {
        None => without_text(c),
        Some(row) => ContextView {
            cursor: if 0 <= c.cursor < row.data_row_series.len() {
                c.cursor + 1
            } else {
                c.cursor
            },
            text: Seq::empty(),
            ..c
        },
    }
}

/// The cell that a closing value completes: it carries the accumulated text
/// where there is any, and stays as it was begun where there is none.
pub open spec fn completed_cell(cell: DataCellView, text: Seq<char>) -> DataCellView {
    if text.len() > 0 {
        DataCellView { value: Some(text), is_missing: false }
    } else {
        cell
    }
}

/// A value closes: the cell is completed and placed.
pub open spec fn close_value(c: ContextView, policy: CellPolicy) -> Result<ContextView, ErrorView> {
    match c.cell {
        None => Ok(without_text(c)),
        Some(cell) => place_cell(
            ContextView { cell: None, text: Seq::empty(), ..c },
            completed_cell(cell, c.text),
            policy,
        ),
    }
}

/// A data row closes: it joins the data of the open table.
pub open spec fn close_row(c: ContextView) -> ContextView {
    match c.row {
        None => without_text(c),
        Some(row) => ContextView {
            table: match c.table {
                Some(table) => Some(
                    TableView {
                        data: TableDataView { rows: table.data.rows.push(row) },
                        ..table
                    },
                ),
                None => None,
            },
            row: None,
            cell: None,
            cursor: 0,
            text: Seq::empty(),
            ..c
        },
    }
}

/// Whether a table's rows divide evenly among its statistics.
pub open spec fn rows_divide_evenly(table: TableView) -> bool {
    table.statistics.len() > 0 ==> table.data.rows.len() % table.statistics.len() == 0
}

/// A table closes: it is validated and joins the document. It is refused
/// where its rows do not divide evenly among its statistics, and where one of
/// its rows does not have one series for each of its statistics, as happens
/// when a statistic is declared after a row has opened.
pub open spec fn close_table(c: ContextView) -> Result<ContextView, ErrorView> {
    match c.table {
        None => Ok(without_text(c)),
        Some(table) => if !rows_divide_evenly(table) {
            Err(ErrorView::InvalidStructure(uneven_rows_message(table)))
        } else if !table_mirrored(table) {
            Err(ErrorView::InvalidStructure(unmirrored_rows_message(table)))
        } else {
            Ok(
                without_table(
                    ContextView {
                        document: XtabMLView {
                            tables: c.document.tables.push(table),
                            ..c.document
                        },
                        ..c
                    },
                ),
            )
        },
    }
}

/// A statistic type closes: it is dropped.
pub open spec fn close_statistic_type(c: ContextView) -> ContextView {
    ContextView {
        statistic_type: None,
        focus: match c.focus {
            Focus::StatisticTypeText => Focus::Idle,
            other => other,
        },
        text: Seq::empty(),
        ..c
    }
}

/// The stack after a closing tag.
pub open spec fn popped(stack: Seq<ElementKind>) -> Seq<ElementKind> {
    if stack.len() > 0 {
        stack.drop_last()
    } else {
        stack
    }
}

/// What a closing tag does. The innermost element leaves the stack first.
/// During a capture, the tag that brings the stack back to where the control
/// opened ends the capture, and any other does nothing more. Outside a
/// capture every closing tag clears the text accumulator, but for a text
/// holder inside a summary.
pub open spec fn on_close(c: ContextView, kind: ElementKind, options: ParseOptions) -> Result<
    ContextView,
    ErrorView,
> {
    let c = ContextView { stack: popped(c.stack), ..c };
    match c.capture {
        Some(capture) => if c.stack.len() <= capture.base {
            Ok(close_control(c, capture))
        } else {
            Ok(c)
        },
        None => match kind {
            ElementKind::TextHolder => close_text(c),
            ElementKind::Element => Ok(close_element(c)),
            ElementKind::Summary => Ok(close_summary(c)),
            ElementKind::Group => Ok(close_group(c)),
            ElementKind::Edge => Ok(close_edge(c)),
            ElementKind::CellGroup => Ok(close_cell_group(c)),
            ElementKind::Value => close_value(c, options.cell_policy),
            ElementKind::Row => Ok(close_row(c)),
            ElementKind::Table => close_table(c),
            ElementKind::StatisticType => Ok(close_statistic_type(c)),
            _ => Ok(without_text(c)),
        },
    }
}

/// What one event does to the context: the transition table of the
/// converter.
pub open spec fn advance(c: ContextView, event: XmlEventView, options: ParseOptions) -> Result<
    ContextView,
    ErrorView,
> {
    match event {
        XmlEventView::Open { name, attributes, empty } => if empty {
            on_empty(c, element_kind(name), attributes, options)
        } else {
            on_open(c, element_kind(name), attributes, options)
        },
        XmlEventView::Close { name } => on_close(c, element_kind(name), options),
        XmlEventView::Text { text } => Ok(ContextView { text: c.text + text, ..c }),
        XmlEventView::Other => Ok(c),
        XmlEventView::Eof => Ok(c),
    }
}

/// What the end of the input does: the document is handed over, unless a
/// control is still being captured.
pub open spec fn finish(c: ContextView) -> Result<XtabMLView, ErrorView> {
    if c.capture.is_some() {
        Err(ErrorView::InvalidStructure("Unexpected EOF in control"@))
    } else {
        Ok(c.document)
    }
}

} // verus!
