use libxtabml::XtabMLParser;

/// One table of the example document.
fn table_xml(
    name: &str,
    title: &str,
    base: &str,
    row_labels: &[&str],
    column_labels: &[&str],
    column_summaries: &[&str],
    statistics: &[&str],
    rows: &[Vec<Vec<&str>>],
) -> String {
    let mut xml = format!("  <table name=\"{}\">\n    <t>{}</t>\n", name, title);
    xml.push_str(&format!("    <control type=\"base\">\n      <t>{}</t>\n    </control>\n", base));
    xml.push_str("    <edge axis=\"r\">\n      <group>\n");
    for label in row_labels {
        xml.push_str(&format!("        <element>\n          <t>{}</t>\n        </element>\n", label));
    }
    xml.push_str("      </group>\n    </edge>\n    <edge axis=\"c\">\n      <group>\n");
    for label in column_labels {
        xml.push_str(&format!("        <element>\n          <t>{}</t>\n        </element>\n", label));
    }
    for label in column_summaries {
        xml.push_str(&format!("        <summary>\n          <t>{}</t>\n        </summary>\n", label));
    }
    xml.push_str("      </group>\n    </edge>\n");
    for statistic in statistics {
        xml.push_str(&format!("    <statistic type=\"{}\" />\n", statistic));
    }
    xml.push_str("    <data>\n");
    for row in rows {
        xml.push_str("      <r>\n");
        for series in row {
            xml.push_str("        <c>\n");
            for value in series {
                xml.push_str(&format!("          <v>{}</v>\n", value));
            }
            xml.push_str("        </c>\n");
        }
        xml.push_str("      </r>\n");
    }
    xml.push_str("    </data>\n  </table>\n");
    xml
}

/// The example document: a report with four tables, the first of which is
/// an age breakdown with one statistic, eleven row labels and eleven rows.
/// The second table has a column summary, the third a value that is a dash.
fn example_document() -> String {
    let mut xml = String::from(
        "<?xml version=\"1.0\" encoding=\"utf-8\" standalone=\"yes\"?>\n\
<xtab version=\"Observation\" xmlns=\"http://www.XtabML.org/2005/xtab\">\n\
  <date>16/11/2025</date>\n\
  <time>10:15:00</time>\n\
  <origin>Survey Reporter</origin>\n\
  <user>Miles</user>\n\
  <controltype name=\"project\" status=\"primary\">\n    <t>Project</t>\n  </controltype>\n\
  <controltype name=\"base\" status=\"secondary\">\n    <t>Base</t>\n  </controltype>\n\
  <statistictype name=\"Observation\">\n    <t>Observation</t>\n  </statistictype>\n\
  <statistictype name=\"Percent\">\n    <t>Percent</t>\n  </statistictype>\n\
  <control type=\"project\">\n    <t>Phone 1</t>\n  </control>\n\
  <control type=\"weight\">\n    <t>Unweighted</t>\n  </control>\n",
    );
    let ages = [
        "15 and under", "16-19 yrs", "20-24 yrs", "25-29 yrs", "30-34 yrs", "35-44 yrs",
        "45-54 yrs", "55-64 yrs", "65 and over", "Refused", "NET",
    ];
    let shares = [
        ".140", ".084", ".112", ".098", ".126", ".154", ".112", ".084", ".070", ".020", "1.000",
    ];
    let age_rows: Vec<Vec<Vec<&str>>> = shares.iter().map(|share| vec![vec![*share]]).collect();
    xml.push_str(&table_xml(
        "97f48ec3-87c5-4c39-b6c2-5229cc884666",
        "q4: Age",
        "Total sample; Unweighted; base n = 713",
        &ages,
        &[],
        &[],
        &["Percent"],
        &age_rows,
    ));
    xml.push_str(&table_xml(
        "0b1f7c52-6a0e-4d57-9d0c-3f1c5a2b7e10",
        "q5: Gender by region",
        "Total sample; Unweighted; base n = 713",
        &["Male", "Female"],
        &["North", "South"],
        &["NET"],
        &["Percent"],
        &[vec![vec![".48", ".52", ".50"]], vec![vec![".52", ".48", ".50"]]],
    ));
    xml.push_str(&table_xml(
        "5d2c9a44-1f63-4b8e-8a57-0c4e9f6d2b31",
        "q6: Phone ownership by gender",
        "Total sample; Unweighted; base n = 700",
        &["Owns a phone", "Does not own a phone"],
        &["Male", "Female"],
        &[],
        &["Percent", "n"],
        &[
            vec![vec![".91", ".93"], vec!["310", "335"]],
            vec![vec![".09", " - "], vec!["31", " - "]],
        ],
    ));
    xml.push_str(&table_xml(
        "c7e0a9d3-42b1-4f0a-b6de-91a3e5f07c22",
        "q7: Satisfaction",
        "Phone owners; Unweighted; base n = 645",
        &["Satisfied", "Neutral", "Dissatisfied"],
        &["Total"],
        &[],
        &["Percent"],
        &[vec![vec![".61"]], vec![vec![".27"]], vec![vec![".12"]]],
    ));
    xml.push_str("</xtab>\n");
    xml
}

#[test]
fn test_parse_file_method() {
    let result = XtabMLParser::parse_str(&example_document());
    assert!(result.is_ok(), "parsing the example should succeed");

    let xtab = result.unwrap();
    assert_eq!(xtab.version, "Observation");
    assert!(!xtab.tables.is_empty());
}

#[test]
fn test_parse_str_method() {
    let file_content = example_document();

    let result = XtabMLParser::parse_str(&file_content);
    assert!(result.is_ok(), "parse_str should succeed");

    let xtab = result.unwrap();
    assert_eq!(xtab.version, "Observation");
    assert!(!xtab.tables.is_empty());
}

#[test]
fn test_parse_str_empty() {
    let result = XtabMLParser::parse_str("");
    assert!(result.is_ok(), "parse_str succeeds for the empty string");
}

#[test]
fn test_parse_str_invalid_xml() {
    let invalid_xml = r#"<xtab><invalid></xtab>"#;
    let result = XtabMLParser::parse_str(invalid_xml);
    assert!(result.is_err(), "parse_str should fail for invalid XML");

    let error = result.unwrap_err();
    assert!(matches!(error, libxtabml::XtabMLError::XmlParse(_)));
}

#[test]
fn test_parse_bytes_method() {
    let file_content = example_document().into_bytes();

    let result = XtabMLParser::parse_bytes(&file_content);
    assert!(result.is_ok(), "parse_bytes should succeed");

    let xtab = result.unwrap();
    assert_eq!(xtab.version, "Observation");
    assert!(!xtab.tables.is_empty());
}

#[test]
fn test_parse_bytes_empty() {
    let empty_bytes: &[u8] = &[];
    let result = XtabMLParser::parse_bytes(empty_bytes);
    assert!(result.is_ok(), "parse_bytes succeeds for empty bytes");
}

#[test]
fn test_parsing_methods_consistency() {
    let file_content_str = example_document();
    let file_content_bytes = example_document().into_bytes();

    // Parse through every entry point
    let result_free = libxtabml::parse_str(&file_content_str);
    let result_str = XtabMLParser::parse_str(&file_content_str);
    let result_bytes = XtabMLParser::parse_bytes(&file_content_bytes);

    // All should succeed
    assert!(result_free.is_ok(), "the free parse_str should succeed");
    assert!(result_str.is_ok(), "parse_str should succeed");
    assert!(result_bytes.is_ok(), "parse_bytes should succeed");

    let xtab_file = result_free.unwrap();
    let xtab_str = result_str.unwrap();
    let xtab_bytes = result_bytes.unwrap();

    // Results should be equivalent
    assert_eq!(xtab_file.version, xtab_str.version);
    assert_eq!(xtab_file.version, xtab_bytes.version);

    assert_eq!(xtab_file.date, xtab_str.date);
    assert_eq!(xtab_file.date, xtab_bytes.date);

    assert_eq!(xtab_file.time, xtab_str.time);
    assert_eq!(xtab_file.time, xtab_bytes.time);

    assert_eq!(xtab_file.user, xtab_str.user);
    assert_eq!(xtab_file.user, xtab_bytes.user);

    assert_eq!(xtab_file.tables.len(), xtab_str.tables.len());
    assert_eq!(xtab_file.tables.len(), xtab_bytes.tables.len());

    // Compare first table details
    if !xtab_file.tables.is_empty() {
        let table_file = &xtab_file.tables[0];
        let table_str = &xtab_str.tables[0];
        let table_bytes = &xtab_bytes.tables[0];

        assert_eq!(table_file.title, table_str.title);
        assert_eq!(table_file.title, table_bytes.title);

        assert_eq!(table_file.name, table_str.name);
        assert_eq!(table_file.name, table_bytes.name);

        assert_eq!(table_file.statistics.len(), table_str.statistics.len());
        assert_eq!(table_file.statistics.len(), table_bytes.statistics.len());

        assert_eq!(table_file.data.rows.len(), table_str.data.rows.len());
        assert_eq!(table_file.data.rows.len(), table_bytes.data.rows.len());
    }
}

#[test]
fn test_parse_str_with_utf8() {
    // Test that parsing handles UTF-8 correctly
    let xml_with_utf8 = r#"<?xml version="1.0" encoding="utf-8" standalone="yes"?>
<xtab version="1.1" xmlns:xt="http://www.XtabML.org/2005/xtab" xmlns="http://www.XtabML.org/2005/xtab">
  <date>16/11/2025</date>
  <user>Miles</user>
  <controltype name="project" status="primary">
    <t>Project</t>
  </controltype>
  <control type="project">
    <t>Test with special chars: cafÃ© naÃ¯ve rÃ©sumÃ©</t>
  </control>
  <table name="test-utf8">
    <t>UTF-8 Test</t>
    <edge axis="r">
      <group>
        <element>
          <t>Row 1: ðŸš€</t>
        </element>
      </group>
    </edge>
    <edge axis="c">
      <group>
        <element>
          <t>Col 1: ðŸŒŸ</t>
        </element>
      </group>
    </edge>
    <statistic type="Values" />
    <data>
      <r>
        <c>
          <v>100.0%</v>
        </c>
      </r>
    </data>
  </table>
</xtab>"#;

    let result = XtabMLParser::parse_str(xml_with_utf8);
    assert!(result.is_ok(), "Should parse UTF-8 content correctly");

    let xtab = result.unwrap();
    assert_eq!(xtab.version, "1.1");
    assert!(!xtab.tables.is_empty());
    let table = &xtab.tables[0];

    assert_eq!(table.title, "UTF-8 Test");

    let row_labels = table.row_labels();
    assert!(row_labels.iter().any(|label| label.contains("ðŸš€")));

    let column_labels = table.column_labels();
    assert!(column_labels.iter().any(|label| label.contains("ðŸŒŸ")));
}
