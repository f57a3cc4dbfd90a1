use libxtabml::{CellPolicy, ParseOptions, XtabMLError, XtabMLParser};

fn strict() -> ParseOptions {
    ParseOptions { cell_policy: CellPolicy::Strict, max_depth: None }
}

fn lenient() -> ParseOptions {
    ParseOptions { cell_policy: CellPolicy::Lenient, max_depth: None }
}

fn structure_message(result: libxtabml::Result<libxtabml::XtabML>) -> String {
    match result {
        Err(XtabMLError::InvalidStructure(message)) => message,
        other => panic!("expected a structural error, got: {:?}", other),
    }
}

#[test]
fn zero_length_input_gives_an_empty_document() {
    let document = XtabMLParser::parse_bytes(b"").unwrap();
    assert_eq!(document.version, "");
    assert_eq!(document.date, None);
    assert_eq!(document.time, None);
    assert_eq!(document.origin, None);
    assert_eq!(document.user, None);
    assert!(document.languages.is_empty());
    assert!(document.control_types.is_empty());
    assert!(document.statistic_types.is_empty());
    assert!(document.controls.is_empty());
    assert!(document.tables.is_empty());
}

#[test]
fn root_without_version_gives_empty_version() {
    let document = XtabMLParser::parse_str("<xtab><table name=\"a\"><t>A</t></table></xtab>").unwrap();
    assert_eq!(document.version, "");
    assert_eq!(document.tables.len(), 1);
}

#[test]
fn root_version_is_recorded() {
    let document = XtabMLParser::parse_str("<xtab version=\"1.1\"></xtab>").unwrap();
    assert_eq!(document.version, "1.1");
}

#[test]
fn statistic_type_name_does_not_touch_the_version() {
    let document = XtabMLParser::parse_str(
        "<xtab version=\"1.1\"><statistictype name=\"Count\"><t>Count</t></statistictype></xtab>",
    )
    .unwrap();
    assert_eq!(document.version, "1.1");
    assert!(document.statistic_types.is_empty());
}

#[test]
fn entities_are_decoded() {
    let document = XtabMLParser::parse_str(
        "<xtab><table><t>Test &amp; User</t></table></xtab>",
    )
    .unwrap();
    assert_eq!(document.tables[0].title, "Test & User");
}

#[test]
fn text_is_trimmed() {
    let document = XtabMLParser::parse_str(
        "<xtab><table><t>\n   Wide title \n</t></table></xtab>",
    )
    .unwrap();
    assert_eq!(document.tables[0].title, "Wide title");
}

#[test]
fn table_name_is_optional() {
    let document = XtabMLParser::parse_str(
        "<xtab><table><t>A</t></table><table name=\"b\"><t>B</t></table></xtab>",
    )
    .unwrap();
    assert_eq!(document.tables[0].name, None);
    assert_eq!(document.tables[1].name, Some("b".to_string()));
    assert_eq!(document.tables[1].title, "B");
}

#[test]
fn one_statistic_eleven_rows() {
    let mut xml = String::from("<xtab><table name=\"age\"><t>Age</t><edge axis=\"r\"><group>");
    for i in 0..11 {
        xml.push_str(&format!("<element><t>Label {}</t></element>", i));
    }
    xml.push_str("</group></edge><statistic type=\"Percent\"/><data>");
    for i in 0..11 {
        xml.push_str(&format!("<r><c><v>.{}</v><v>.{}</v><v>.{}</v></c></r>", i, i + 1, i + 2));
    }
    xml.push_str("</data></table></xtab>");
    let document = XtabMLParser::parse_str(&xml).unwrap();
    let table = &document.tables[0];
    assert_eq!(table.shape(), (11, 3));
    assert_eq!(table.statistic_types(), vec!["Percent"]);
    assert_eq!(table.row_labels().len(), 11);
    assert_eq!(table.row_labels()[10], "Label 10");
}

#[test]
fn element_indices_count_from_zero_in_each_group() {
    let document = XtabMLParser::parse_str(
        "<xtab><table><t>T</t><edge axis=\"r\">\
         <group><element><t>a</t></element><element><t>b</t></element><element><t>c</t></element></group>\
         <group><element><t>d</t></element><element><t>e</t></element></group>\
         </edge></table></xtab>",
    )
    .unwrap();
    let edge = document.tables[0].row_edge.as_ref().unwrap();
    let first: Vec<Option<i32>> = edge.groups[0].elements.iter().map(|e| e.index).collect();
    let second: Vec<Option<i32>> = edge.groups[1].elements.iter().map(|e| e.index).collect();
    assert_eq!(first, vec![Some(0), Some(1), Some(2)]);
    assert_eq!(second, vec![Some(0), Some(1)]);
    assert_eq!(edge.groups[1].elements[1].text, "e");
}

#[test]
fn element_without_text_holder_is_left_out() {
    let document = XtabMLParser::parse_str(
        "<xtab><table><t>T</t><edge axis=\"r\"><group>\
         <element></element><element><t>b</t></element>\
         </group></edge></table></xtab>",
    )
    .unwrap();
    let group = &document.tables[0].row_edge.as_ref().unwrap().groups[0];
    assert_eq!(group.elements.len(), 1);
    assert_eq!(group.elements[0].text, "b");
    assert_eq!(group.elements[0].index, Some(0));
}

#[test]
fn summaries_join_their_group() {
    let document = XtabMLParser::parse_str(
        "<xtab><table><t>T</t><edge axis=\"c\"><group>\
         <element><t>Male</t></element>\
         <summary><t>NET</t></summary>\
         <summary>Total</summary>\
         </group></edge></table></xtab>",
    )
    .unwrap();
    let group = &document.tables[0].column_edge.as_ref().unwrap().groups[0];
    assert_eq!(group.elements.len(), 1);
    assert_eq!(group.summaries.len(), 2);
    assert_eq!(group.summaries[0].text, "NET");
    assert_eq!(group.summaries[1].text, "Total");
}

#[test]
fn edges_are_attached_by_axis() {
    let document = XtabMLParser::parse_str(
        "<xtab><table><t>T</t>\
         <edge axis=\"c\"><group><element><t>col</t></element></group></edge>\
         <edge axis=\"z\"><group><element><t>other</t></element></group></edge>\
         <edge axis=\"r\"><group><element><t>row</t></element></group></edge>\
         </table></xtab>",
    )
    .unwrap();
    let table = &document.tables[0];
    assert_eq!(table.row_labels(), vec!["row".to_string()]);
    assert_eq!(table.column_labels(), vec!["col".to_string()]);
    assert_eq!(table.row_edge.as_ref().unwrap().axis, "r");
    assert_eq!(table.column_edge.as_ref().unwrap().axis, "c");
}

#[test]
fn controls_attach_to_the_table_or_the_document() {
    let document = XtabMLParser::parse_str(
        "<xtab><control type=\"project\"><t>Phone 1</t></control>\
         <table><control type=\"base\"><t>Total <b>sample</b></t><note/>; n = 713</control><t>Title</t></table>\
         <control><t>after</t></control></xtab>",
    )
    .unwrap();
    assert_eq!(document.controls.len(), 2);
    assert_eq!(document.controls[0].kind, "project");
    assert_eq!(document.controls[0].text, "Phone 1");
    assert_eq!(document.controls[1].kind, "");
    assert_eq!(document.controls[1].text, "after");
    let table = &document.tables[0];
    assert_eq!(table.controls.len(), 1);
    assert_eq!(table.controls[0].kind, "base");
    assert_eq!(table.controls[0].text, "Totalsample; n = 713");
    assert_eq!(table.title, "Title");
}

#[test]
fn unterminated_control_is_a_structural_error() {
    let result = XtabMLParser::parse_str("<xtab><control type=\"project\"><t>Phone 1</t>");
    assert_eq!(structure_message(result), "Unexpected EOF in control");
}

#[test]
fn missing_marker_lands_at_its_position() {
    let document = XtabMLParser::parse_str(
        "<xtab><table><t>T</t><statistic type=\"Percent\"/><statistic type=\"n\"/><data>\
         <r><c><v>.5</v><v>.25</v></c><c><v>10</v><v>5</v></c></r>\
         <r><c><v>.75</v><x/></c><c><x/><v>7</v></c></r>\
         </data></table></xtab>",
    )
    .unwrap();
    let table = &document.tables[0];
    let row = &table.data.rows[1];
    assert_eq!(row.data_row_series.len(), 2);
    let first = &row.data_row_series[0].cells;
    let second = &row.data_row_series[1].cells;
    assert_eq!(first.len(), 2);
    assert_eq!(first[0].value, Some(".75".to_string()));
    assert!(!first[0].is_missing);
    assert_eq!(first[1].value, None);
    assert!(first[1].is_missing);
    assert_eq!(second[0].value, None);
    assert!(second[0].is_missing);
    assert_eq!(second[1].value, Some("7".to_string()));
    assert!(!second[1].is_missing);
    assert!(table.data.rows[0].data_row_series.iter().all(|s| s.cells.iter().all(|c| !c.is_missing)));
}

#[test]
fn empty_value_is_neither_present_nor_missing() {
    let document = XtabMLParser::parse_str(
        "<xtab><table><t>T</t><statistic type=\"n\"/><data><r><c><v></v><v>3</v></c></r></data></table></xtab>",
    )
    .unwrap();
    let cells = &document.tables[0].data.rows[0].data_row_series[0].cells;
    assert_eq!(cells.len(), 2);
    assert_eq!(cells[0].value, None);
    assert!(!cells[0].is_missing);
    assert_eq!(cells[1].value, Some("3".to_string()));
}

#[test]
fn series_carry_their_statistics_in_order() {
    let document = XtabMLParser::parse_str(
        "<xtab><table><t>T</t><statistic type=\"Percent\"/><statistic type=\"n\"/><data>\
         <r><c><v>.5</v></c><c><v>10</v></c></r>\
         <r><c><v>.5</v></c><c><v>10</v></c></r>\
         </data></table></xtab>",
    )
    .unwrap();
    let table = &document.tables[0];
    assert_eq!(table.data.rows.len() % table.statistics.len(), 0);
    for row in &table.data.rows {
        assert_eq!(row.data_row_series.len(), table.statistics.len());
        for (series, statistic) in row.data_row_series.iter().zip(table.statistics.iter()) {
            assert_eq!(series.statistic.as_ref().unwrap().kind, statistic.kind);
            assert_eq!(series.cells.len(), row.data_row_series[0].cells.len());
        }
    }
    assert!(document.rows_mirror_statistics());
    assert!(document.series_equally_long());
    assert_eq!(table.data.rows[0].data_row_series[1].statistic.as_ref().unwrap().kind, "n");
}

#[test]
fn uneven_rows_name_their_table() {
    let xml = "<xtab><table name=\"mismatched\"><t>M</t>\
         <statistic type=\"Values\"/><statistic type=\"n\"/><data>\
         <r><c><v>1</v></c><c><v>2</v></c></r>\
         <r><c><v>1</v></c><c><v>2</v></c></r>\
         <r><c><v>100</v></c></r>\
         </data></table></xtab>";
    let message = structure_message(XtabMLParser::parse_bytes_with(xml.as_bytes(), &strict()));
    assert_eq!(
        message,
        "Data rows do not divide evenly among the statistics of table mismatched"
    );
    let message = structure_message(XtabMLParser::parse_bytes_with(xml.as_bytes(), &lenient()));
    assert!(message.contains("mismatched"));
}

#[test]
fn a_single_short_row_of_two_statistics_is_refused() {
    let xml = "<xtab><table name=\"mismatched\"><t>M</t>\
         <statistic type=\"Values\"/><statistic type=\"n\"/><data>\
         <r><c><v>100</v></c></r>\
         </data></table></xtab>";
    let message = structure_message(XtabMLParser::parse_bytes_with(xml.as_bytes(), &strict()));
    assert!(message.contains("mismatched"));
}

#[test]
fn unnamed_table_is_named_by_its_title() {
    let xml = "<xtab><table><t>Untitled 7</t>\
         <statistic type=\"Values\"/><statistic type=\"n\"/><data><r></r></data></table></xtab>";
    let message = structure_message(XtabMLParser::parse_str(xml));
    assert_eq!(
        message,
        "Data rows do not divide evenly among the statistics of table Untitled 7"
    );
}

#[test]
fn rows_of_a_table_without_statistics_are_accepted() {
    let document = XtabMLParser::parse_str(
        "<xtab><table><t>T</t><data><r><c><v>1</v></c></r><r></r><r></r></data></table></xtab>",
    )
    .unwrap();
    let table = &document.tables[0];
    assert_eq!(table.data.rows.len(), 3);
    assert_eq!(table.shape(), (3, 0));
    assert!(table.data.rows[0].data_row_series.is_empty());
}

#[test]
fn stray_cell_is_dropped_under_the_lenient_policy() {
    let xml = "<xtab><table name=\"wide\"><t>T</t><statistic type=\"n\"/><data>\
         <r><c><v>1</v></c><c><v>2</v></c><c><x/></c></r>\
         </data></table></xtab>";
    let document = XtabMLParser::parse_bytes_with(xml.as_bytes(), &lenient()).unwrap();
    let row = &document.tables[0].data.rows[0];
    assert_eq!(row.data_row_series.len(), 1);
    assert_eq!(row.data_row_series[0].cells.len(), 1);
    assert_eq!(row.data_row_series[0].cells[0].value, Some("1".to_string()));
    let by_default = XtabMLParser::parse_str(xml).unwrap();
    assert_eq!(by_default.tables[0].data.rows[0].data_row_series[0].cells.len(), 1);
}

#[test]
fn stray_cell_fails_under_the_strict_policy() {
    let xml = "<xtab><table name=\"wide\"><t>T</t><statistic type=\"n\"/><data>\
         <r><c><v>1</v></c><c><v>2</v></c></r>\
         </data></table></xtab>";
    let message = structure_message(XtabMLParser::parse_bytes_with(xml.as_bytes(), &strict()));
    assert_eq!(message, "Cell beyond the declared statistics of table wide");
    let xml = "<xtab><table name=\"wide\"><t>T</t><statistic type=\"n\"/><data>\
         <r><c><v>1</v></c><c><x/></c></r>\
         </data></table></xtab>";
    let message = structure_message(XtabMLParser::parse_bytes_with(xml.as_bytes(), &strict()));
    assert_eq!(message, "Cell beyond the declared statistics of table wide");
}

#[test]
fn late_statistic_is_refused_when_the_table_closes() {
    let xml = "<xtab><table name=\"late\"><t>T</t><data><r><c><v>1</v></c></r></data>\
         <statistic type=\"n\"/></table></xtab>";
    assert_eq!(
        structure_message(XtabMLParser::parse_str(xml)),
        "Data rows do not mirror the statistics of table late"
    );
    let xml = "<xtab><table name=\"late\"><t>T</t><statistic type=\"a\"/><data>\
         <r><c><v>1</v></c></r><r><statistic type=\"b\"/><c><v>1</v></c></r>\
         </data></table></xtab>";
    assert_eq!(
        structure_message(XtabMLParser::parse_bytes_with(xml.as_bytes(), &strict())),
        "Data rows do not mirror the statistics of table late"
    );
}

#[test]
fn late_statistic_is_accepted_where_every_kept_row_mirrors_it() {
    let document = XtabMLParser::parse_str(
        "<xtab><table><t>T</t><statistic type=\"a\"/><data>\
         <r><statistic type=\"b\"/><r><c><v>1</v></c><c><v>2</v></c></r><r></r></r>\
         </data></table></xtab>",
    )
    .unwrap();
    let table = &document.tables[0];
    assert_eq!(table.statistic_types(), vec!["a", "b"]);
    assert_eq!(table.data.rows.len(), 2);
    assert_eq!(table.data.rows[0].data_row_series.len(), 2);
    assert_eq!(table.data.rows[1].data_row_series.len(), 2);
    assert!(document.rows_mirror_statistics());
}

#[test]
fn short_cell_group_leaves_a_row_uneven() {
    let document = XtabMLParser::parse_str(
        "<xtab><table><t>T</t><statistic type=\"a\"/><statistic type=\"b\"/><data>\
         <r><c><v>1</v><v>2</v></c><c><v>3</v></c></r>\
         <r><c><v>1</v></c></r>\
         </data></table></xtab>",
    )
    .unwrap();
    let rows = &document.tables[0].data.rows;
    assert_eq!(rows[0].data_row_series[0].cells.len(), 2);
    assert_eq!(rows[0].data_row_series[1].cells.len(), 1);
    assert_eq!(rows[1].data_row_series[1].cells.len(), 0);
    assert!(!document.series_equally_long());
    assert!(document.rows_mirror_statistics());
}

#[test]
fn statistic_may_be_opened_and_closed() {
    let document = XtabMLParser::parse_str(
        "<xtab><table><t>T</t><statistic type=\"a\"></statistic><statistic type=\"b\"/><statistic/></table></xtab>",
    )
    .unwrap();
    assert_eq!(document.tables[0].statistic_types(), vec!["a", "b", ""]);
}

#[test]
fn depth_is_bounded_on_request() {
    let xml = "<xtab><table><t>T</t><edge axis=\"r\"><group><element><t>a</t></element></group></edge></table></xtab>";
    let bounded = ParseOptions { cell_policy: CellPolicy::Lenient, max_depth: Some(5) };
    let message = structure_message(XtabMLParser::parse_bytes_with(xml.as_bytes(), &bounded));
    assert_eq!(message, "Maximum nesting depth exceeded");
    let enough = ParseOptions { cell_policy: CellPolicy::Lenient, max_depth: Some(6) };
    let document = XtabMLParser::parse_bytes_with(xml.as_bytes(), &enough).unwrap();
    assert_eq!(document.tables[0].row_labels(), vec!["a".to_string()]);
    let none = ParseOptions { cell_policy: CellPolicy::Lenient, max_depth: Some(0) };
    assert!(XtabMLParser::parse_bytes_with(b"", &none).is_ok());
    assert!(XtabMLParser::parse_bytes_with(b"<xtab/>", &none).is_ok());
    assert!(XtabMLParser::parse_bytes_with(b"<xtab></xtab>", &none).is_err());
}

#[test]
fn outermost_element_must_be_the_root() {
    match XtabMLParser::parse_str("<table name=\"a\"><t>A</t></table>") {
        Err(XtabMLError::MissingElement(name)) => assert_eq!(name, "xtab"),
        other => panic!("expected a missing element, got: {:?}", other),
    }
    match XtabMLParser::parse_str("<statistic type=\"a\"/>") {
        Err(XtabMLError::MissingElement(name)) => assert_eq!(name, "xtab"),
        other => panic!("expected a missing element, got: {:?}", other),
    }
    assert!(XtabMLParser::parse_str("<?xml version=\"1.0\"?><!-- nothing -->").is_ok());
}

#[test]
fn attribute_that_is_not_utf8_is_a_structural_error() {
    let message = structure_message(XtabMLParser::parse_bytes(b"<xtab version=\"\xff\"></xtab>"));
    assert_eq!(message, "Invalid UTF-8 in version");
    let message = structure_message(XtabMLParser::parse_bytes(b"<xtab><table name=\"\xff\"></table></xtab>"));
    assert_eq!(message, "Invalid UTF-8 in name");
    let message = structure_message(XtabMLParser::parse_bytes(b"<xtab><control type=\"\xff\"></control></xtab>"));
    assert_eq!(message, "Invalid UTF-8 in control type");
    let message = structure_message(XtabMLParser::parse_bytes(
        b"<xtab><table><edge axis=\"\xff\"></edge></table></xtab>",
    ));
    assert_eq!(message, "Invalid UTF-8 in axis");
    let message = structure_message(XtabMLParser::parse_bytes(
        b"<xtab><table><statistic type=\"\xff\"/></table></xtab>",
    ));
    assert_eq!(message, "Invalid UTF-8 in statistic type");
    let message = structure_message(XtabMLParser::parse_bytes(
        b"<xtab><statistictype name=\"\xff\"></statistictype></xtab>",
    ));
    assert_eq!(message, "Invalid UTF-8 in name");
    let message = structure_message(XtabMLParser::parse_bytes(
        b"<xtab><controltype name=\"\xff\"></controltype></xtab>",
    ));
    assert_eq!(message, "Invalid UTF-8 in name");
    assert!(XtabMLParser::parse_bytes(b"<xtab other=\"\xff\"></xtab>").is_ok());
}

#[test]
fn attribute_values_are_decoded_as_utf8() {
    let document = XtabMLParser::parse_str("<xtab version=\"caf\u{e9} \u{1f680}\"></xtab>").unwrap();
    assert_eq!(document.version, "caf\u{e9} \u{1f680}");
}

#[test]
fn malformed_markup_is_a_token_error() {
    let malformed = [
        "<xtab version=\"1.1\"\n  <date>2025-01-01</date>\n  <user>Test</user>\n</xtab>",
        "<xtab><table></xtab>",
        "<xtab>&bogus;</xtab>",
        "<xtab a=\"1\" a=\"2\"></xtab>",
        "<xtab><!-- a -- b --></xtab>",
        "<xtab></xtab></xtab>",
    ];
    for xml in malformed {
        match XtabMLParser::parse_str(xml) {
            Err(XtabMLError::XmlParse(_)) => {}
            other => panic!("expected a token error for {:?}, got: {:?}", xml, other),
        }
    }
}

#[test]
fn the_first_error_wins() {
    let result = XtabMLParser::parse_bytes(b"<xtab version=\"\xff\"><table></xtab>");
    assert_eq!(structure_message(result), "Invalid UTF-8 in version");
    match XtabMLParser::parse_bytes(b"<xtab><table></xtab><control>") {
        Err(XtabMLError::XmlParse(_)) => {}
        other => panic!("expected a token error, got: {:?}", other),
    }
}

#[test]
fn unclosed_table_is_left_out() {
    let document = XtabMLParser::parse_str("<xtab><table name=\"a\"><t>A</t></table><table name=\"b\"><t>B</t>").unwrap();
    assert_eq!(document.tables.len(), 1);
    assert_eq!(document.tables[0].title, "A");
}

#[test]
fn names_are_case_sensitive_and_literal() {
    let document = XtabMLParser::parse_str(
        "<xtab><Table><t>A</t></Table><xt:table><t>B</t></xt:table><table><T>C</T><t>D</t></table></xtab>",
    )
    .unwrap();
    assert_eq!(document.tables.len(), 1);
    assert_eq!(document.tables[0].title, "D");
}
