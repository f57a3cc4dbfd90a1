//! Converts XtabML cross-tabulation documents into a structured document
//! model.
pub mod builder;
pub mod context;
pub mod error;
pub mod event;
pub mod laws;
pub mod parser;
pub mod reader;
pub mod types;

pub use context::{CellPolicy, Focus, ParseContext, ParseOptions};
pub use error::{Result, XtabMLError};
pub use event::{ElementKind, XmlAttribute, XmlEvent};
pub use parser::{parse_str, XtabMLParser};
pub use types::{
    Control, ControlType, DataCell, DataRow, DataRowSeries, Edge, Element, Group, Language,
    Statistic, StatisticData, StatisticType, Summary, Table, TableData, XtabML,
};
