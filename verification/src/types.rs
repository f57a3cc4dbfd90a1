//! The document model: a report, its tables, their banners, declared
//! statistics and data matrix.
//!
//! Every type has a mathematical counterpart (its `deep_view`) in which
//! strings are sequences of characters and vectors are sequences. Contracts
//! throughout the crate are stated over these counterparts.
use vstd::prelude::*;

verus! {

/// Root element of an XtabML document.
#[derive(Debug, Clone)]
pub struct XtabML {
    pub version: String,
    pub date: Option<String>,
    pub time: Option<String>,
    pub origin: Option<String>,
    pub user: Option<String>,
    /// Languages used in the document.
    pub languages: Vec<Language>,
    /// Control types defined in the document.
    pub control_types: Vec<ControlType>,
    /// Statistic types defined in the document.
    pub statistic_types: Vec<StatisticType>,
    /// Report-level controls.
    pub controls: Vec<Control>,
    /// Tables in the document.
    pub tables: Vec<Table>,
}

/// Language specification for alternative texts.
#[derive(Debug, Clone)]
pub struct Language {
    pub lang: String,
    pub base: Option<String>,
    pub description: String,
}

/// Control type definition.
#[derive(Debug, Clone)]
pub struct ControlType {
    pub name: String,
    pub status: Option<String>,
    pub text: String,
}

/// Statistic type definition.
#[derive(Debug, Clone)]
pub struct StatisticType {
    pub name: String,
    pub text: String,
}

/// Control element (metadata): its declared type and its captured body text.
#[derive(Debug, Clone)]
pub struct Control {
    pub kind: String,
    pub text: String,
}

/// A table of the document.
#[derive(Debug, Clone)]
pub struct Table {
    pub name: Option<String>,
    pub title: String,
    /// Controls specific to this table (e.g. weight, base).
    pub controls: Vec<Control>,
    /// Row edge (axis "r").
    pub row_edge: Option<Edge>,
    /// Column edge (axis "c").
    pub column_edge: Option<Edge>,
    /// Statistics declared for this table, in declaration order.
    pub statistics: Vec<Statistic>,
    /// The data matrix.
    pub data: TableData,
}

/// Edge definition (row or column banner).
#[derive(Debug, Clone)]
pub struct Edge {
    /// "r" for row, "c" for column.
    pub axis: String,
    pub groups: Vec<Group>,
}

/// A group within an edge.
#[derive(Debug, Clone)]
pub struct Group {
    pub elements: Vec<Element>,
    pub summaries: Vec<Summary>,
}

/// A labelled entry of a group, with its position in the group.
#[derive(Debug, Clone)]
pub struct Element {
    pub text: String,
    pub index: Option<i32>,
}

/// A subtotal label.
#[derive(Debug, Clone)]
pub struct Summary {
    pub text: String,
}

/// A declared measure.
#[derive(Debug, Clone)]
pub struct Statistic {
    pub kind: String,
}

/// Table data matrix.
#[derive(Debug, Clone)]
pub struct TableData {
    pub rows: Vec<DataRow>,
}

/// The part of a data row that belongs to one statistic.
#[derive(Debug, Clone)]
pub struct DataRowSeries {
    pub statistic: Option<Statistic>,
    pub cells: Vec<DataCell>,
}

/// A row in the data matrix.
#[derive(Debug, Clone)]
pub struct DataRow {
    pub data_row_series: Vec<DataRowSeries>,
}

/// A cell in the data matrix: a present value, a missing marker, or neither
/// (no text observed).
#[derive(Debug, Clone)]
pub struct DataCell {
    pub value: Option<String>,
    pub is_missing: bool,
}

/// The values of one statistic across a table.
#[derive(Debug, Clone)]
pub struct StatisticData {
    pub statistic_type: String,
    pub values: Vec<Vec<Option<String>>>,
}

/// The mathematical counterpart of [`XtabML`].
pub struct XtabMLView {
    pub version: Seq<char>,
    pub date: Option<Seq<char>>,
    pub time: Option<Seq<char>>,
    pub origin: Option<Seq<char>>,
    pub user: Option<Seq<char>>,
    pub languages: Seq<LanguageView>,
    pub control_types: Seq<ControlTypeView>,
    pub statistic_types: Seq<StatisticTypeView>,
    pub controls: Seq<ControlView>,
    pub tables: Seq<TableView>,
}

/// The mathematical counterpart of [`Language`].
pub struct LanguageView {
    pub lang: Seq<char>,
    pub base: Option<Seq<char>>,
    pub description: Seq<char>,
}

/// The mathematical counterpart of [`ControlType`].
pub struct ControlTypeView {
    pub name: Seq<char>,
    pub status: Option<Seq<char>>,
    pub text: Seq<char>,
}

/// The mathematical counterpart of [`StatisticType`].
pub struct StatisticTypeView {
    pub name: Seq<char>,
    pub text: Seq<char>,
}

/// The mathematical counterpart of [`Control`].
pub struct ControlView {
    pub kind: Seq<char>,
    pub text: Seq<char>,
}

/// The mathematical counterpart of [`Table`].
pub struct TableView {
    pub name: Option<Seq<char>>,
    pub title: Seq<char>,
    pub controls: Seq<ControlView>,
    pub row_edge: Option<EdgeView>,
    pub column_edge: Option<EdgeView>,
    pub statistics: Seq<StatisticView>,
    pub data: TableDataView,
}

/// The mathematical counterpart of [`Edge`].
pub struct EdgeView {
    pub axis: Seq<char>,
    pub groups: Seq<GroupView>,
}

/// The mathematical counterpart of [`Group`].
pub struct GroupView {
    pub elements: Seq<ElementView>,
    pub summaries: Seq<SummaryView>,
}

/// The mathematical counterpart of [`Element`].
pub struct ElementView {
    pub text: Seq<char>,
    pub index: Option<i32>,
}

/// The mathematical counterpart of [`Summary`].
pub struct SummaryView {
    pub text: Seq<char>,
}

/// The mathematical counterpart of [`Statistic`].
pub struct StatisticView {
    pub kind: Seq<char>,
}

/// The mathematical counterpart of [`TableData`].
pub struct TableDataView {
    pub rows: Seq<DataRowView>,
}

/// The mathematical counterpart of [`DataRowSeries`].
pub struct DataRowSeriesView {
    pub statistic: Option<StatisticView>,
    pub cells: Seq<DataCellView>,
}

/// The mathematical counterpart of [`DataRow`].
pub struct DataRowView {
    pub data_row_series: Seq<DataRowSeriesView>,
}

/// The mathematical counterpart of [`DataCell`].
pub struct DataCellView {
    pub value: Option<Seq<char>>,
    pub is_missing: bool,
}

/// The mathematical counterpart of [`StatisticData`].
pub struct StatisticDataView {
    pub statistic_type: Seq<char>,
    pub values: Seq<Seq<Option<Seq<char>>>>,
}

impl DeepView for XtabML {
    type V = XtabMLView;

    open spec fn deep_view(&self) -> XtabMLView {
        XtabMLView {
            version: self.version@,
            date: self.date.deep_view(),
            time: self.time.deep_view(),
            origin: self.origin.deep_view(),
            user: self.user.deep_view(),
            languages: self.languages.deep_view(),
            control_types: self.control_types.deep_view(),
            statistic_types: self.statistic_types.deep_view(),
            controls: self.controls.deep_view(),
            tables: self.tables.deep_view(),
        }
    }
}

impl DeepView for Language {
    type V = LanguageView;

    open spec fn deep_view(&self) -> LanguageView {
        LanguageView {
            lang: self.lang@,
            base: self.base.deep_view(),
            description: self.description@,
        }
    }
}

impl DeepView for ControlType {
    type V = ControlTypeView;

    open spec fn deep_view(&self) -> ControlTypeView {
        ControlTypeView {
            name: self.name@,
            status: self.status.deep_view(),
            text: self.text@,
        }
    }
}

impl DeepView for StatisticType {
    type V = StatisticTypeView;

    open spec fn deep_view(&self) -> StatisticTypeView {
        StatisticTypeView { name: self.name@, text: self.text@ }
    }
}

impl DeepView for Control {
    type V = ControlView;

    open spec fn deep_view(&self) -> ControlView {
        ControlView { kind: self.kind@, text: self.text@ }
    }
}

impl DeepView for Table {
    type V = TableView;

    open spec fn deep_view(&self) -> TableView {
        TableView {
            name: self.name.deep_view(),
            title: self.title@,
            controls: self.controls.deep_view(),
            row_edge: self.row_edge.deep_view(),
            column_edge: self.column_edge.deep_view(),
            statistics: self.statistics.deep_view(),
            data: self.data.deep_view(),
        }
    }
}

impl DeepView for Edge {
    type V = EdgeView;

    open spec fn deep_view(&self) -> EdgeView {
        EdgeView { axis: self.axis@, groups: self.groups.deep_view() }
    }
}

impl DeepView for Group {
    type V = GroupView;

    open spec fn deep_view(&self) -> GroupView {
        GroupView {
            elements: self.elements.deep_view(),
            summaries: self.summaries.deep_view(),
        }
    }
}

impl DeepView for Element {
    type V = ElementView;

    open spec fn deep_view(&self) -> ElementView {
        ElementView { text: self.text@, index: self.index }
    }
}

impl DeepView for Summary {
    type V = SummaryView;

    open spec fn deep_view(&self) -> SummaryView {
        SummaryView { text: self.text@ }
    }
}

impl DeepView for Statistic {
    type V = StatisticView;

    open spec fn deep_view(&self) -> StatisticView {
        StatisticView { kind: self.kind@ }
    }
}

impl DeepView for TableData {
    type V = TableDataView;

    open spec fn deep_view(&self) -> TableDataView {
        TableDataView { rows: self.rows.deep_view() }
    }
}

impl DeepView for DataRowSeries {
    type V = DataRowSeriesView;

    open spec fn deep_view(&self) -> DataRowSeriesView {
        DataRowSeriesView {
            statistic: self.statistic.deep_view(),
            cells: self.cells.deep_view(),
        }
    }
}

impl DeepView for DataRow {
    type V = DataRowView;

    open spec fn deep_view(&self) -> DataRowView {
        DataRowView { data_row_series: self.data_row_series.deep_view() }
    }
}

impl DeepView for DataCell {
    type V = DataCellView;

    open spec fn deep_view(&self) -> DataCellView {
        DataCellView { value: self.value.deep_view(), is_missing: self.is_missing }
    }
}

impl DeepView for StatisticData {
    type V = StatisticDataView;

    open spec fn deep_view(&self) -> StatisticDataView {
        StatisticDataView {
            statistic_type: self.statistic_type@,
            values: self.values.deep_view(),
        }
    }
}

impl Default for DataCell {
    /// A cell for which nothing has been observed yet: no value, not missing.
    fn default() -> (cell: DataCell)
        ensures
            cell.deep_view() == (DataCellView { value: None, is_missing: false }),
    {
        DataCell { value: None, is_missing: false }
    }
}


/// The declared statistic types of a table, in declaration order.
pub open spec fn statistic_kinds(table: TableView) -> Seq<Seq<char>> {
    Seq::new(table.statistics.len(), |i: int| table.statistics[i].kind)
}

/// The shape of a table: the number of its rows, and the number of cells in
/// the first series of its first row. A table without rows has shape (0, 0);
/// a first row without series has no columns.
pub open spec fn table_shape(table: TableView) -> (int, int) {
    let rows = table.data.rows;
    if rows.len() == 0 {
        (0, 0)
    } else if rows[0].data_row_series.len() == 0 {
        (rows.len() as int, 0)
    } else {
        (rows.len() as int, rows[0].data_row_series[0].cells.len() as int)
    }
}

/// The labels of an edge: the text of every element of its first group.
/// An absent edge, or one without groups, has none.
pub open spec fn edge_labels(edge: Option<EdgeView>) -> Seq<Seq<char>> {
    match edge {
        Some(edge) => if edge.groups.len() > 0 {
            Seq::new(
                edge.groups[0].elements.len(),
                |i: int| edge.groups[0].elements[i].text,
            )
        } else {
            Seq::empty()
        },
        None => Seq::empty(),
    }
}

/// What a cell holds for a reader of the data: its value, unless it is
/// marked missing.
pub open spec fn cell_value(cell: DataCellView) -> Option<Seq<char>> {
    if cell.is_missing {
        None
    } else {
        cell.value
    }
}

/// The values of a row's series at one statistic position. A row that has no
/// series there has no values.
pub open spec fn series_values(row: DataRowView, position: int) -> Seq<Option<Seq<char>>> {
    if 0 <= position < row.data_row_series.len() {
        Seq::new(
            row.data_row_series[position].cells.len(),
            |i: int| cell_value(row.data_row_series[position].cells[i]),
        )
    } else {
        Seq::empty()
    }
}

/// The grid of values of one statistic: for every row of the table, the
/// values of its series at that statistic's position. There is none for a
/// position at which the table declares no statistic.
pub open spec fn statistic_grid(table: TableView, position: int) -> Option<
    Seq<Seq<Option<Seq<char>>>>,
> {
    if 0 <= position < table.statistics.len() {
        Some(Seq::new(table.data.rows.len(), |r: int| series_values(table.data.rows[r], position)))
    } else {
        None
    }
}

/// The labels of an edge.
fn labels_of(edge: &Option<Edge>) -> (labels: Vec<String>)
    ensures
        labels.deep_view() == edge_labels(edge.deep_view()),
{
    let mut labels: Vec<String> = Vec::new();
    match edge {
        Some(edge) => {
            if edge.groups.len() > 0 {
                let elements = &edge.groups[0].elements;
                let mut i: usize = 0;
                while i < elements.len()
                    invariant
                        i <= elements@.len(),
                        labels@.len() == i,
                        forall|j: int| 0 <= j < i ==> (#[trigger] labels@[j])@ == elements@[j].text@,
                    decreases elements@.len() - i,
                {
                    labels.push(elements[i].text.clone());
                    i += 1;
                }
            }
        },
        None => {},
    }
    assert(labels.deep_view() =~= edge_labels(edge.deep_view()));
    labels
}

/// The values of a row's series at one statistic position.
fn values_of(row: &DataRow, position: usize) -> (values: Vec<Option<String>>)
    ensures
        values.deep_view() == series_values(row.deep_view(), position as int),
{
    let mut values: Vec<Option<String>> = Vec::new();
    if position < row.data_row_series.len() {
        let cells = &row.data_row_series[position].cells;
        let mut i: usize = 0;
        while i < cells.len()
            invariant
                i <= cells@.len(),
                values@.len() == i,
                forall|j: int|
                    0 <= j < i ==> (#[trigger] values@[j]).deep_view() == cell_value(
                        cells@[j].deep_view(),
                    ),
            decreases cells@.len() - i,
        {
            let value = if cells[i].is_missing {
                None
            } else {
                match &cells[i].value {
                    Some(text) => Some(text.clone()),
                    None => None,
                }
            };
            values.push(value);
            i += 1;
        }
    }
    assert(values.deep_view() =~= series_values(row.deep_view(), position as int));
    values
}

impl Table {
    /// The declared statistic types of this table, in declaration order.
    pub fn statistic_types(&self) -> (kinds: Vec<&str>)
        ensures
            kinds.deep_view() == statistic_kinds(self.deep_view()),
    {
        let mut kinds: Vec<&str> = Vec::new();
        let mut i: usize = 0;
        while i < self.statistics.len()
            invariant
                i <= self.statistics@.len(),
                kinds@.len() == i,
                forall|j: int| 0 <= j < i ==> (#[trigger] kinds@[j])@ == self.statistics@[j].kind@,
            decreases self.statistics@.len() - i,
        {
            kinds.push(self.statistics[i].kind.as_str());
            i += 1;
        }
        assert(kinds.deep_view() =~= statistic_kinds(self.deep_view()));
        kinds
    }

    /// The shape of the table: (rows, columns).
    pub fn shape(&self) -> (shape: (usize, usize))
        ensures
            (shape.0 as int, shape.1 as int) == table_shape(self.deep_view()),
    {
        let rows = self.data.rows.len();
        let columns = if rows > 0 && self.data.rows[0].data_row_series.len() > 0 {
            self.data.rows[0].data_row_series[0].cells.len()
        } else {
            0
        };
        (rows, columns)
    }

    /// The values of the statistic at `statistic_index`, row by row; `None`
    /// where the table declares no statistic at that position.
    pub fn get_statistic_data(&self, statistic_index: usize) -> (grid: Option<
        Vec<Vec<Option<String>>>,
    >)
        ensures
            grid.deep_view() == statistic_grid(self.deep_view(), statistic_index as int),
    {
        if statistic_index >= self.statistics.len() {
            return None;
        }
        let mut grid: Vec<Vec<Option<String>>> = Vec::new();
        let mut r: usize = 0;
        while r < self.data.rows.len()
            invariant
                r <= self.data.rows@.len(),
                grid@.len() == r,
                forall|j: int|
                    0 <= j < r ==> (#[trigger] grid@[j]).deep_view() == series_values(
                        self.data.rows@[j].deep_view(),
                        statistic_index as int,
                    ),
            decreases self.data.rows@.len() - r,
        {
            grid.push(values_of(&self.data.rows[r], statistic_index));
            r += 1;
        }
        assert(grid.deep_view() =~= statistic_grid(
            self.deep_view(),
            statistic_index as int,
        ).unwrap());
        Some(grid)
    }

    /// The row labels: the text of every element of the first group of the
    /// row edge.
    pub fn row_labels(&self) -> (labels: Vec<String>)
        ensures
            labels.deep_view() == edge_labels(self.deep_view().row_edge),
    {
        labels_of(&self.row_edge)
    }

    /// The column labels: the text of every element of the first group of
    /// the column edge.
    pub fn column_labels(&self) -> (labels: Vec<String>)
        ensures
            labels.deep_view() == edge_labels(self.deep_view().column_edge),
    {
        labels_of(&self.column_edge)
    }
}


/// The row has one series for each of the statistics, in their order, each
/// holding its statistic.
pub open spec fn row_mirrors(row: DataRowView, statistics: Seq<StatisticView>) -> bool {
    &&& row.data_row_series.len() == statistics.len()
    &&& forall|s: int|
        0 <= s < statistics.len() ==> (#[trigger] row.data_row_series[s]).statistic == Some(
            statistics[s],
        )
}

/// Every row of the table has one series for each statistic of the table.
pub open spec fn table_mirrored(table: TableView) -> bool {
    forall|r: int|
        0 <= r < table.data.rows.len() ==> row_mirrors(
            #[trigger] table.data.rows[r],
            table.statistics,
        )
}

/// Every row of every table has one series for each statistic of its table.
pub open spec fn document_mirrored(document: XtabMLView) -> bool {
    forall|t: int|
        0 <= t < document.tables.len() ==> table_mirrored(#[trigger] document.tables[t])
}

/// The series of the row are equally long.
pub open spec fn row_even(row: DataRowView) -> bool {
    forall|s: int, t: int|
        0 <= s < row.data_row_series.len() && 0 <= t < row.data_row_series.len() ==> (
        #[trigger] row.data_row_series[s]).cells.len() == (
        #[trigger] row.data_row_series[t]).cells.len()
}

/// The series of every row of the table are equally long.
pub open spec fn table_even(table: TableView) -> bool {
    forall|r: int| 0 <= r < table.data.rows.len() ==> row_even(#[trigger] table.data.rows[r])
}

/// The series of every row of every table are equally long.
pub open spec fn document_even(document: XtabMLView) -> bool {
    forall|t: int| 0 <= t < document.tables.len() ==> table_even(#[trigger] document.tables[t])
}

impl DataRow {
    /// Whether the row has one series for each of the statistics, in their
    /// order, each holding its statistic.
    pub fn mirrors(&self, statistics: &Vec<Statistic>) -> (yes: bool)
        ensures
            yes == row_mirrors(self.deep_view(), statistics.deep_view()),
    {
        if self.data_row_series.len() != statistics.len() {
            return false;
        }
        let mut s: usize = 0;
        while s < statistics.len()
            invariant
                s <= statistics@.len(),
                self.data_row_series@.len() == statistics@.len(),
                forall|j: int|
                    0 <= j < s ==> (#[trigger] self.deep_view().data_row_series[j]).statistic
                        == Some(statistics.deep_view()[j]),
            decreases statistics@.len() - s,
        {
            let same = match &self.data_row_series[s].statistic {
                Some(statistic) => statistic.kind == statistics[s].kind,
                None => false,
            };
            if !same {
                assert(self.deep_view().data_row_series[s as int].statistic != Some(
                    statistics.deep_view()[s as int],
                ));
                return false;
            }
            s += 1;
        }
        true
    }

    /// Whether the series of the row are equally long.
    pub fn is_even(&self) -> (yes: bool)
        ensures
            yes == row_even(self.deep_view()),
    {
        if self.data_row_series.len() == 0 {
            return true;
        }
        let first = self.data_row_series[0].cells.len();
        let mut s: usize = 1;
        while s < self.data_row_series.len()
            invariant
                1 <= s <= self.data_row_series@.len(),
                first == self.data_row_series@[0].cells@.len(),
                forall|j: int|
                    0 <= j < s ==> (#[trigger] self.deep_view().data_row_series[j]).cells.len()
                        == first,
            decreases self.data_row_series@.len() - s,
        {
            if self.data_row_series[s].cells.len() != first {
                assert(self.deep_view().data_row_series[s as int].cells.len()
                    != self.deep_view().data_row_series[0].cells.len());
                return false;
            }
            s += 1;
        }
        true
    }
}

impl Table {
    /// Whether every row has one series for each statistic of the table, in
    /// declaration order.
    pub fn rows_mirror_statistics(&self) -> (yes: bool)
        ensures
            yes == table_mirrored(self.deep_view()),
    {
        let mut r: usize = 0;
        while r < self.data.rows.len()
            invariant
                r <= self.data.rows@.len(),
                forall|j: int|
                    0 <= j < r ==> row_mirrors(
                        #[trigger] self.deep_view().data.rows[j],
                        self.deep_view().statistics,
                    ),
            decreases self.data.rows@.len() - r,
        {
            if !self.data.rows[r].mirrors(&self.statistics) {
                assert(!row_mirrors(
                    self.deep_view().data.rows[r as int],
                    self.deep_view().statistics,
                ));
                return false;
            }
            r += 1;
        }
        true
    }

    /// Whether the series of every row are equally long.
    pub fn series_equally_long(&self) -> (yes: bool)
        ensures
            yes == table_even(self.deep_view()),
    {
        let mut r: usize = 0;
        while r < self.data.rows.len()
            invariant
                r <= self.data.rows@.len(),
                forall|j: int| 0 <= j < r ==> row_even(#[trigger] self.deep_view().data.rows[j]),
            decreases self.data.rows@.len() - r,
        {
            if !self.data.rows[r].is_even() {
                assert(!row_even(self.deep_view().data.rows[r as int]));
                return false;
            }
            r += 1;
        }
        true
    }
}

impl XtabML {
    /// Whether every row of every table has one series for each statistic of
    /// its table, in declaration order.
    pub fn rows_mirror_statistics(&self) -> (yes: bool)
        ensures
            yes == document_mirrored(self.deep_view()),
    {
        let mut t: usize = 0;
        while t < self.tables.len()
            invariant
                t <= self.tables@.len(),
                forall|j: int| 0 <= j < t ==> table_mirrored(#[trigger] self.deep_view().tables[j]),
            decreases self.tables@.len() - t,
        {
            if !self.tables[t].rows_mirror_statistics() {
                assert(!table_mirrored(self.deep_view().tables[t as int]));
                return false;
            }
            t += 1;
        }
        true
    }

    /// Whether the series of every row of every table are equally long.
    pub fn series_equally_long(&self) -> (yes: bool)
        ensures
            yes == document_even(self.deep_view()),
    {
        let mut t: usize = 0;
        while t < self.tables.len()
            invariant
                t <= self.tables@.len(),
                forall|j: int| 0 <= j < t ==> table_even(#[trigger] self.deep_view().tables[j]),
            decreases self.tables@.len() - t,
        {
            if !self.tables[t].series_equally_long() {
                assert(!table_even(self.deep_view().tables[t as int]));
                return false;
            }
            t += 1;
        }
        true
    }
}

} // verus!
