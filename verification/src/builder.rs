//! The builder: the executable form of the transition table.
//!
//! Every function here is proved to do to a [`ParseContext`] what the
//! function of the same name in [`crate::context`] does to its mathematical
//! counterpart.
use crate::context;
use crate::context::{
    CellPolicy, ContextView, ControlCapture, Focus, ParseContext, ParseOptions,
};
use crate::error::{ErrorView, XtabMLError};
use crate::event::{classify, find_attribute, ElementKind, XmlAttribute, XmlEvent};
use crate::reader::utf8_string;
use crate::types::{
    Control, DataCell, DataRow, DataRowSeries, DataRowSeriesView, Edge, Element,
    Group, Statistic, StatisticType, Summary, Table, TableData, XtabML,
};
use vstd::prelude::*;
use vstd::string::*;

verus! {

/// Appending to a vector appends to its mathematical counterpart.
pub proof fn lemma_push_view<T: DeepView>(before: Vec<T>, after: Vec<T>, item: T)
    requires
        after@ == before@.push(item),
    ensures
        after.deep_view() == before.deep_view().push(item.deep_view()),
{
    assert(after.deep_view() =~= before.deep_view().push(item.deep_view()));
}

/// An empty vector is the empty sequence.
pub proof fn lemma_empty_view<T: DeepView>(items: Vec<T>)
    requires
        items@.len() == 0,
    ensures
        items.deep_view() == Seq::<T::V>::empty(),
{
    assert(items.deep_view() =~= Seq::<T::V>::empty());
}

/// Whether a string is a given word.
fn text_is(text: &String, word: &str) -> (same: bool)
    ensures
        same == (text@ == word@),
{
    let other = String::from_str(word);
    *text == other
}

/// Reads an attribute as text.
fn read_attribute(attributes: &Vec<XmlAttribute>, word: &str, message: &str) -> (outcome: Result<
    Option<String>,
    XtabMLError,
>)
    ensures
        match outcome {
            Ok(text) => context::attribute_text(attributes.deep_view(), word@, message@) == Ok::<
                Option<Seq<char>>,
                ErrorView,
            >(text.deep_view()),
            Err(error) => context::attribute_text(attributes.deep_view(), word@, message@) == Err::<
                Option<Seq<char>>,
                ErrorView,
            >(error.deep_view()),
        },
{
    match find_attribute(attributes, word) {
        None => Ok(None),
        Some(bytes) => match utf8_string(bytes.clone()) {
            Some(text) => Ok(Some(text)),
            None => Err(XtabMLError::InvalidStructure(String::from_str(message))),
        },
    }
}

/// An attribute's text, empty where the attribute is absent.
fn or_empty(text: Option<String>) -> (out: String)
    ensures
        out@ == context::text_or_empty(text.deep_view()),
{
    match text {
        Some(text) => text,
        None => String::new(),
    }
}

/// The name under which an error speaks of a table.
fn label_of(table: &Table) -> (label: String)
    ensures
        label@ == context::table_label(table.deep_view()),
{
    match &table.name {
        Some(name) => name.clone(),
        None => table.title.clone(),
    }
}

/// A row with one empty series for each statistic.
fn row_for(statistics: &Vec<Statistic>) -> (row: DataRow)
    ensures
        row.deep_view() == context::new_row(statistics.deep_view()),
{
    let mut series: Vec<DataRowSeries> = Vec::new();
    let mut i: usize = 0;
    while i < statistics.len()
        invariant
            i <= statistics@.len(),
            series@.len() == i,
            forall|j: int|
                0 <= j < i ==> (#[trigger] series@[j]).deep_view() == (DataRowSeriesView {
                    statistic: Some(statistics@[j].deep_view()),
                    cells: Seq::empty(),
                }),
        decreases statistics@.len() - i,
    {
        let statistic = Statistic { kind: statistics[i].kind.clone() };
        let cells: Vec<DataCell> = Vec::new();
        proof {
            lemma_empty_view(cells);
        }
        series.push(DataRowSeries { statistic: Some(statistic), cells });
        i += 1;
    }
    let row = DataRow { data_row_series: series };
    assert(row.deep_view().data_row_series =~= context::new_row(
        statistics.deep_view(),
    ).data_row_series);
    row
}

impl ParseContext {
    /// The context before the first event.
    pub fn new() -> (fresh: ParseContext)
        ensures
            fresh.deep_view() == context::initial_context(),
    {
        let fresh = ParseContext {
            document: XtabML {
                version: String::new(),
                date: None,
                time: None,
                origin: None,
                user: None,
                languages: Vec::new(),
                control_types: Vec::new(),
                statistic_types: Vec::new(),
                controls: Vec::new(),
                tables: Vec::new(),
            },
            stack: Vec::new(),
            capture: None,
            focus: Focus::Idle,
            text: String::new(),
            table: None,
            edge: None,
            group: None,
            next_index: 0,
            element: None,
            row: None,
            cursor: 0,
            cell: None,
            statistic_type: None,
        };
        proof {
            lemma_empty_view(fresh.document.languages);
            lemma_empty_view(fresh.document.control_types);
            lemma_empty_view(fresh.document.statistic_types);
            lemma_empty_view(fresh.document.controls);
            lemma_empty_view(fresh.document.tables);
            assert(fresh.stack@ =~= Seq::<ElementKind>::empty());
        }
        fresh
    }

    /// Does what [`context::open_root`] states.
    fn open_root(self, attributes: &Vec<XmlAttribute>) -> (outcome: Result<
        ParseContext,
        XtabMLError,
    >)
        ensures
            context::outcome_view(outcome) == context::open_root(
                self.deep_view(),
                attributes.deep_view(),
            ),
    {
        let mut c = self;
        match read_attribute(attributes, "version", "Invalid UTF-8 in version") {
            Err(error) => Err(error),
            Ok(None) => Ok(c),
            Ok(Some(version)) => {
                c.document.version = version;
                Ok(c)
            },
        }
    }

    /// Does what [`context::open_table`] states.
    fn open_table(self, attributes: &Vec<XmlAttribute>) -> (outcome: Result<
        ParseContext,
        XtabMLError,
    >)
        ensures
            context::outcome_view(outcome) == context::open_table(
                self.deep_view(),
                attributes.deep_view(),
            ),
    {
        let mut c = self;
        if c.table.is_some() {
            return Ok(c);
        }
        match read_attribute(attributes, "name", "Invalid UTF-8 in name") {
            Err(error) => Err(error),
            Ok(name) => {
                let table = Table {
                    name,
                    title: String::new(),
                    controls: Vec::new(),
                    row_edge: None,
                    column_edge: None,
                    statistics: Vec::new(),
                    data: TableData { rows: Vec::new() },
                };
                proof {
                    lemma_empty_view(table.controls);
                    lemma_empty_view(table.statistics);
                    lemma_empty_view(table.data.rows);
                }
                c.table = Some(table);
                c.focus = Focus::TableTitle;
                Ok(c)
            },
        }
    }

    /// Does what [`context::open_control`] states.
    fn open_control(self, attributes: &Vec<XmlAttribute>) -> (outcome: Result<
        ParseContext,
        XtabMLError,
    >)
        requires
            self.stack@.len() > 0,
        ensures
            context::outcome_view(outcome) == context::open_control(
                self.deep_view(),
                attributes.deep_view(),
            ),
    {
        let mut c = self;
        match read_attribute(attributes, "type", "Invalid UTF-8 in control type") {
            Err(error) => Err(error),
            Ok(kind) => {
                c.capture = Some(
                    ControlCapture {
                        kind: or_empty(kind),
                        base: c.stack.len() - 1,
                        resume: c.focus,
                    },
                );
                c.focus = Focus::ControlText;
                c.text = String::new();
                Ok(c)
            },
        }
    }

    /// Does what [`context::open_edge`] states.
    fn open_edge(self, attributes: &Vec<XmlAttribute>) -> (outcome: Result<
        ParseContext,
        XtabMLError,
    >)
        ensures
            context::outcome_view(outcome) == context::open_edge(
                self.deep_view(),
                attributes.deep_view(),
            ),
    {
        let mut c = self;
        if c.table.is_none() {
            return Ok(c);
        }
        match read_attribute(attributes, "axis", "Invalid UTF-8 in axis") {
            Err(error) => Err(error),
            Ok(axis) => {
                let edge = Edge { axis: or_empty(axis), groups: Vec::new() };
                proof {
                    lemma_empty_view(edge.groups);
                }
                c.edge = Some(edge);
                c.group = None;
                c.element = None;
                Ok(c)
            },
        }
    }

    /// Does what [`context::open_group`] states.
    fn open_group(self) -> (after: ParseContext)
        ensures
            after.deep_view() == context::open_group(self.deep_view()),
    {
        let mut c = self;
        if c.edge.is_none() {
            return c;
        }
        let group = Group { elements: Vec::new(), summaries: Vec::new() };
        proof {
            lemma_empty_view(group.elements);
            lemma_empty_view(group.summaries);
        }
        c.group = Some(group);
        c.next_index = 0;
        c.element = None;
        c
    }

    /// Does what [`context::open_element`] states.
    fn open_element(self) -> (after: ParseContext)
        ensures
            after.deep_view() == context::open_element(self.deep_view()),
    {
        let mut c = self;
        if c.group.is_none() {
            return c;
        }
        c.element = Some(Element { text: String::new(), index: None });
        c.focus = Focus::ElementLabel;
        c
    }

    /// Does what [`context::open_summary`] states.
    fn open_summary(self) -> (after: ParseContext)
        ensures
            after.deep_view() == context::open_summary(self.deep_view()),
    {
        let mut c = self;
        if c.group.is_none() {
            return c;
        }
        c.focus = Focus::SummaryText;
        c.text = String::new();
        c
    }

    /// Does what [`context::declare_statistic`] states.
    fn declare_statistic(self, attributes: &Vec<XmlAttribute>) -> (outcome: Result<
        ParseContext,
        XtabMLError,
    >)
        ensures
            context::outcome_view(outcome) == context::declare_statistic(
                self.deep_view(),
                attributes.deep_view(),
            ),
    {
        let mut c = self;
        match c.table {
            None => Ok(c),
            Some(mut table) => match read_attribute(
                attributes,
                "type",
                "Invalid UTF-8 in statistic type",
            ) {
                Err(error) => Err(error),
                Ok(kind) => {
                    let statistic = Statistic { kind: or_empty(kind) };
                    let ghost before = table.statistics;
                    table.statistics.push(statistic);
                    proof {
                        lemma_push_view(before, table.statistics, statistic);
                    }
                    c.table = Some(table);
                    Ok(c)
                },
            },
        }
    }

    /// Does what [`context::open_row`] states.
    fn open_row(self) -> (after: ParseContext)
        ensures
            after.deep_view() == context::open_row(self.deep_view()),
    {
        let mut c = self;
        match &c.table {
            None => c,
            Some(table) => {
                let row = row_for(&table.statistics);
                c.row = Some(row);
                c.cursor = 0;
                c.cell = None;
                c
            },
        }
    }

    /// Does what [`context::open_value`] states.
    fn open_value(self, parent: Option<ElementKind>) -> (after: ParseContext)
        ensures
            after.deep_view() == context::open_value(self.deep_view(), parent),
    {
        let mut c = self;
        if c.row.is_some() && matches!(parent, Some(ElementKind::CellGroup)) {
            c.cell = Some(DataCell { value: None, is_missing: false });
        }
        c
    }

    /// Does what [`context::open_statistic_type`] states.
    fn open_statistic_type(self, attributes: &Vec<XmlAttribute>) -> (outcome: Result<
        ParseContext,
        XtabMLError,
    >)
        ensures
            context::outcome_view(outcome) == context::open_statistic_type(
                self.deep_view(),
                attributes.deep_view(),
            ),
    {
        let mut c = self;
        match read_attribute(attributes, "name", "Invalid UTF-8 in name") {
            Err(error) => Err(error),
            Ok(name) => {
                c.statistic_type = Some(
                    StatisticType { name: or_empty(name), text: String::new() },
                );
                c.focus = Focus::StatisticTypeText;
                Ok(c)
            },
        }
    }

    /// Does what [`context::open_control_type`] states.
    fn open_control_type(self, attributes: &Vec<XmlAttribute>) -> (outcome: Result<
        ParseContext,
        XtabMLError,
    >)
        ensures
            context::outcome_view(outcome) == context::open_control_type(
                self.deep_view(),
                attributes.deep_view(),
            ),
    {
        match read_attribute(attributes, "name", "Invalid UTF-8 in name") {
            Err(error) => Err(error),
            Ok(_) => Ok(self),
        }
    }

    /// The message of the error that a stray cell raises.
    fn stray_cell_error(&self) -> (error: XtabMLError)
        ensures
            error.deep_view() == ErrorView::InvalidStructure(
                context::stray_cell_message(self.deep_view()),
            ),
    {
        let label = match &self.table {
            Some(table) => label_of(table),
            None => String::new(),
        };
        XtabMLError::InvalidStructure(
            String::from_str("Cell beyond the declared statistics of table ").concat(
                label.as_str(),
            ),
        )
    }

    /// Does what [`context::place_cell`] states.
    fn place_cell(self, cell: DataCell, policy: CellPolicy) -> (outcome: Result<
        ParseContext,
        XtabMLError,
    >)
        ensures
            context::outcome_view(outcome) == context::place_cell(
                self.deep_view(),
                cell.deep_view(),
                policy,
            ),
    {
        let mut c = self;
        match c.row {
            None => Ok(c),
            Some(mut row) => {
                if c.cursor < row.data_row_series.len() {
                    let ghost before = row;
                    let at = c.cursor;
                    row.data_row_series[at].cells.push(cell);
                    proof {
                        lemma_push_view(
                            before.data_row_series@[at as int].cells,
                            row.data_row_series@[at as int].cells,
                            cell,
                        );
                        assert(row.deep_view().data_row_series =~= context::row_with_cell(
                            before.deep_view(),
                            at as int,
                            cell.deep_view(),
                        ).data_row_series);
                    }
                    c.row = Some(row);
                    Ok(c)
                } else {
                    c.row = Some(row);
                    match policy {
                        CellPolicy::Strict => Err(c.stray_cell_error()),
                        CellPolicy::Lenient => Ok(c),
                    }
                }
            },
        }
    }

    /// Does what [`context::on_open`] states.
    fn on_open(
        self,
        kind: ElementKind,
        attributes: &Vec<XmlAttribute>,
        options: &ParseOptions,
    ) -> (outcome: Result<ParseContext, XtabMLError>)
        ensures
            context::outcome_view(outcome) == context::on_open(
                self.deep_view(),
                kind,
                attributes.deep_view(),
                *options,
            ),
    {
        let mut c = self;
        let too_deep = match options.max_depth {
            Some(bound) => c.stack.len() >= bound,
            None => false,
        };
        if too_deep {
            return Err(
                XtabMLError::InvalidStructure(String::from_str("Maximum nesting depth exceeded")),
            );
        }
        if c.stack.len() == 0 && !matches!(kind, ElementKind::Root) {
            return Err(XtabMLError::MissingElement(String::from_str("xtab")));
        }
        let parent = if c.stack.len() > 0 {
            Some(c.stack[c.stack.len() - 1])
        } else {
            None
        };
        c.stack.push(kind);
        if c.capture.is_some() {
            return Ok(c);
        }
        match kind {
            ElementKind::Root => c.open_root(attributes),
            ElementKind::Table => c.open_table(attributes),
            ElementKind::Control => c.open_control(attributes),
            ElementKind::Edge => c.open_edge(attributes),
            ElementKind::Group => Ok(c.open_group()),
            ElementKind::Element => Ok(c.open_element()),
            ElementKind::Summary => Ok(c.open_summary()),
            ElementKind::Statistic => c.declare_statistic(attributes),
            ElementKind::Row => Ok(c.open_row()),
            ElementKind::Value => Ok(c.open_value(parent)),
            ElementKind::StatisticType => c.open_statistic_type(attributes),
            ElementKind::ControlType => c.open_control_type(attributes),
            _ => Ok(c),
        }
    }

    /// Does what [`context::on_empty`] states.
    fn on_empty(
        self,
        kind: ElementKind,
        attributes: &Vec<XmlAttribute>,
        options: &ParseOptions,
    ) -> (outcome: Result<ParseContext, XtabMLError>)
        ensures
            context::outcome_view(outcome) == context::on_empty(
                self.deep_view(),
                kind,
                attributes.deep_view(),
                *options,
            ),
    {
        let c = self;
        if c.capture.is_some() {
            return Ok(c);
        }
        if c.stack.len() == 0 && !matches!(kind, ElementKind::Root) {
            return Err(XtabMLError::MissingElement(String::from_str("xtab")));
        }
        match kind {
            ElementKind::Statistic => c.declare_statistic(attributes),
            ElementKind::Missing => {
                let in_cell_group = c.stack.len() > 0 && matches!(
                    c.stack[c.stack.len() - 1],
                    ElementKind::CellGroup
                );
                if c.row.is_some() && in_cell_group {
                    c.place_cell(DataCell { value: None, is_missing: true }, options.cell_policy)
                } else {
                    Ok(c)
                }
            },
            _ => Ok(c),
        }
    }

    /// Does what [`context::close_control`] states.
    fn close_control(self, capture: ControlCapture) -> (after: ParseContext)
        requires
            self.capture.is_none(),
        ensures
            after.deep_view() == context::close_control(
                ContextView { capture: Some(capture.deep_view()), ..self.deep_view() },
                capture.deep_view(),
            ),
    {
        let mut c = self;
        let control = Control { kind: capture.kind, text: c.text };
        c.focus = capture.resume;
        c.text = String::new();
        match c.table {
            Some(mut table) => {
                let ghost before = table.controls;
                table.controls.push(control);
                proof {
                    lemma_push_view(before, table.controls, control);
                }
                c.table = Some(table);
            },
            None => {
                let ghost before = c.document.controls;
                c.document.controls.push(control);
                proof {
                    lemma_push_view(before, c.document.controls, control);
                }
            },
        }
        c
    }

    /// Does what [`context::close_text`] states.
    fn close_text(self) -> (outcome: Result<ParseContext, XtabMLError>)
        ensures
            context::outcome_view(outcome) == context::close_text(self.deep_view()),
    {
        let mut c = self;
        match c.focus {
            Focus::TableTitle => {
                match c.table {
                    Some(mut table) => {
                        table.title = c.text;
                        c.table = Some(table);
                        c.focus = Focus::Idle;
                    },
                    None => {},
                }
                c.text = String::new();
                Ok(c)
            },
            Focus::ElementLabel => {
                match c.group {
                    Some(mut group) => {
                        if c.element.is_some() {
                            if c.next_index == i32::MAX {
                                return Err(
                                    XtabMLError::InvalidStructure(
                                        String::from_str("Too many elements in group"),
                                    ),
                                );
                            }
                            let element = Element { text: c.text, index: Some(c.next_index) };
                            let ghost before = group.elements;
                            group.elements.push(element);
                            proof {
                                lemma_push_view(before, group.elements, element);
                            }
                            c.next_index = c.next_index + 1;
                            c.element = None;
                            c.focus = Focus::Idle;
                        }
                        c.group = Some(group);
                    },
                    None => {},
                }
                c.text = String::new();
                Ok(c)
            },
            Focus::StatisticTypeText => {
                match c.statistic_type {
                    Some(mut statistic_type) => {
                        statistic_type.text = c.text;
                        c.statistic_type = Some(statistic_type);
                        c.focus = Focus::Idle;
                    },
                    None => {},
                }
                c.text = String::new();
                Ok(c)
            },
            Focus::SummaryText => Ok(c),
            _ => {
                c.text = String::new();
                Ok(c)
            },
        }
    }

    /// Does what [`context::close_element`] states.
    fn close_element(self) -> (after: ParseContext)
        ensures
            after.deep_view() == context::close_element(self.deep_view()),
    {
        let mut c = self;
        c.element = None;
        if matches!(c.focus, Focus::ElementLabel) {
            c.focus = Focus::Idle;
        }
        c.text = String::new();
        c
    }

    /// Does what [`context::close_summary`] states.
    fn close_summary(self) -> (after: ParseContext)
        ensures
            after.deep_view() == context::close_summary(self.deep_view()),
    {
        let mut c = self;
        if matches!(c.focus, Focus::SummaryText) {
            match c.group {
                Some(mut group) => {
                    let summary = Summary { text: c.text };
                    let ghost before = group.summaries;
                    group.summaries.push(summary);
                    proof {
                        lemma_push_view(before, group.summaries, summary);
                    }
                    c.group = Some(group);
                },
                None => {},
            }
            c.focus = Focus::Idle;
        }
        c.text = String::new();
        c
    }

    /// Does what [`context::close_group`] states.
    fn close_group(self) -> (after: ParseContext)
        ensures
            after.deep_view() == context::close_group(self.deep_view()),
    {
        let mut c = self;
        match c.group {
            Some(group) => {
                match c.edge {
                    Some(mut edge) => {
                        let ghost before = edge.groups;
                        edge.groups.push(group);
                        proof {
                            lemma_push_view(before, edge.groups, group);
                        }
                        c.edge = Some(edge);
                    },
                    None => {},
                }
                c.group = None;
                c.element = None;
            },
            None => {},
        }
        c.text = String::new();
        c
    }

    /// Does what [`context::close_edge`] states.
    fn close_edge(self) -> (after: ParseContext)
        ensures
            after.deep_view() == context::close_edge(self.deep_view()),
    {
        let mut c = self;
        match c.edge {
            Some(edge) => {
                match c.table {
                    Some(mut table) => {
                        if text_is(&edge.axis, "r") {
                            table.row_edge = Some(edge);
                        } else if text_is(&edge.axis, "c") {
                            table.column_edge = Some(edge);
                        }
                        c.table = Some(table);
                    },
                    None => {},
                }
                c.edge = None;
                c.group = None;
                c.element = None;
            },
            None => {},
        }
        c.text = String::new();
        c
    }

    /// Does what [`context::close_cell_group`] states.
    fn close_cell_group(self) -> (after: ParseContext)
        ensures
            after.deep_view() == context::close_cell_group(self.deep_view()),
    {
        let mut c = self;
        match &c.row {
            Some(row) => {
                if c.cursor < row.data_row_series.len() {
                    c.cursor = c.cursor + 1;
                }
            },
            None => {},
        }
        c.text = String::new();
        c
    }

    /// Does what [`context::close_value`] states.
    fn close_value(self, policy: CellPolicy) -> (outcome: Result<ParseContext, XtabMLError>)
        ensures
            context::outcome_view(outcome) == context::close_value(self.deep_view(), policy),
    {
        let mut c = self;
        match c.cell {
            None => {
                c.text = String::new();
                Ok(c)
            },
            Some(cell) => {
                let completed = if c.text.as_str().is_empty() {
                    cell
                } else {
                    DataCell { value: Some(c.text), is_missing: false }
                };
                c.cell = None;
                c.text = String::new();
                c.place_cell(completed, policy)
            },
        }
    }

    /// Does what [`context::close_row`] states.
    fn close_row(self) -> (after: ParseContext)
        ensures
            after.deep_view() == context::close_row(self.deep_view()),
    {
        let mut c = self;
        match c.row {
            Some(row) => {
                match c.table {
                    Some(mut table) => {
                        let ghost before = table.data.rows;
                        table.data.rows.push(row);
                        proof {
                            lemma_push_view(before, table.data.rows, row);
                        }
                        c.table = Some(table);
                    },
                    None => {},
                }
                c.row = None;
                c.cell = None;
                c.cursor = 0;
            },
            None => {},
        }
        c.text = String::new();
        c
    }

    /// Does what [`context::close_table`] states.
    fn close_table(self) -> (outcome: Result<ParseContext, XtabMLError>)
        ensures
            context::outcome_view(outcome) == context::close_table(self.deep_view()),
    {
        let mut c = self;
        match c.table {
            None => {
                c.text = String::new();
                Ok(c)
            },
            Some(table) => {
                let statistics = table.statistics.len();
                if statistics > 0 && table.data.rows.len() % statistics != 0 {
                    return Err(
                        XtabMLError::InvalidStructure(
                            String::from_str(
                                "Data rows do not divide evenly among the statistics of table ",
                            ).concat(label_of(&table).as_str()),
                        ),
                    );
                }
                if !table.rows_mirror_statistics() {
                    return Err(
                        XtabMLError::InvalidStructure(
                            String::from_str(
                                "Data rows do not mirror the statistics of table ",
                            ).concat(label_of(&table).as_str()),
                        ),
                    );
                }
                let ghost before = c.document.tables;
                c.document.tables.push(table);
                proof {
                    lemma_push_view(before, c.document.tables, table);
                }
                c.table = None;
                c.edge = None;
                c.group = None;
                c.element = None;
                c.row = None;
                c.cell = None;
                c.cursor = 0;
                c.focus = Focus::Idle;
                c.text = String::new();
                Ok(c)
            },
        }
    }

    /// Does what [`context::close_statistic_type`] states.
    fn close_statistic_type(self) -> (after: ParseContext)
        ensures
            after.deep_view() == context::close_statistic_type(self.deep_view()),
    {
        let mut c = self;
        c.statistic_type = None;
        if matches!(c.focus, Focus::StatisticTypeText) {
            c.focus = Focus::Idle;
        }
        c.text = String::new();
        c
    }

    /// Does what [`context::on_close`] states.
    fn on_close(self, kind: ElementKind, options: &ParseOptions) -> (outcome: Result<
        ParseContext,
        XtabMLError,
    >)
        ensures
            context::outcome_view(outcome) == context::on_close(self.deep_view(), kind, *options),
    {
        let mut c = self;
        let ghost before = c.stack@;
        c.stack.pop();
        assert(c.stack@ =~= context::popped(before));
        match c.capture {
            Some(capture) => {
                if c.stack.len() <= capture.base {
                    c.capture = None;
                    Ok(c.close_control(capture))
                } else {
                    c.capture = Some(capture);
                    Ok(c)
                }
            },
            None => match kind {
                ElementKind::TextHolder => c.close_text(),
                ElementKind::Element => Ok(c.close_element()),
                ElementKind::Summary => Ok(c.close_summary()),
                ElementKind::Group => Ok(c.close_group()),
                ElementKind::Edge => Ok(c.close_edge()),
                ElementKind::CellGroup => Ok(c.close_cell_group()),
                ElementKind::Value => c.close_value(options.cell_policy),
                ElementKind::Row => Ok(c.close_row()),
                ElementKind::Table => c.close_table(),
                ElementKind::StatisticType => Ok(c.close_statistic_type()),
                _ => {
                    c.text = String::new();
                    Ok(c)
                },
            },
        }
    }

    /// Takes one event. The outcome is the one that the transition table
    /// gives for this context, this event and these options: the next
    /// context, or the error that ends the conversion.
    pub fn advance(self, event: XmlEvent, options: &ParseOptions) -> (outcome: Result<
        ParseContext,
        XtabMLError,
    >)
        ensures
            context::outcome_view(outcome) == context::advance(
                self.deep_view(),
                event.deep_view(),
                *options,
            ),
    {
        let mut c = self;
        match event {
            XmlEvent::Open { name, attributes, empty } => {
                let kind = classify(name.as_slice());
                if empty {
                    c.on_empty(kind, &attributes, options)
                } else {
                    c.on_open(kind, &attributes, options)
                }
            },
            XmlEvent::Close { name } => {
                let kind = classify(name.as_slice());
                c.on_close(kind, options)
            },
            XmlEvent::Text { text } => {
                c.text.append(text.as_str());
                Ok(c)
            },
            XmlEvent::Other => Ok(c),
            XmlEvent::Eof => Ok(c),
        }
    }

    /// Ends the conversion at the end of the input: the document, or the
    /// structural error of a control that was never closed.
    pub fn finish(self) -> (outcome: Result<XtabML, XtabMLError>)
        ensures
            match outcome {
                Ok(document) => context::finish(self.deep_view()) == Ok::<
                    crate::types::XtabMLView,
                    ErrorView,
                >(document.deep_view()),
                Err(error) => context::finish(self.deep_view()) == Err::<
                    crate::types::XtabMLView,
                    ErrorView,
                >(error.deep_view()),
            },
    {
        if self.capture.is_some() {
            Err(XtabMLError::InvalidStructure(String::from_str("Unexpected EOF in control")))
        } else {
            Ok(self.document)
        }
    }
}

} // verus!
