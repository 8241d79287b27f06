use cfdi_csv::batch::{process_batch, process_document, BatchResult};
use cfdi_csv::error::InvoiceError;
use cfdi_csv::extract::extract_comprobante;
use cfdi_csv::record::Comprobante;
use cfdi_csv::xml::{clean_text, parse_document};

fn minimal_xml(total: &str) -> String {
    let mut text = String::new();
    text.push_str("<Comprobante xmlns=\"http://www.sat.gob.mx/cfd/4\" Version=\"4.0\" ");
    text.push_str("Fecha=\"2024-01-01T00:00:00\" Sello=\"\" FormaPago=\"01\" NoCertificado=\"\" ");
    text.push_str("Certificado=\"\" SubTotal=\"100.00\" ");
    text.push_str(total);
    text.push_str("TipoDeComprobante=\"I\" MetodoPago=\"PUE\" LugarExpedicion=\"00000\">");
    text.push_str("<Emisor Rfc=\"AAA010101AAA\"/>");
    text.push_str("<Receptor Rfc=\"XAXX010101000\"/>");
    text.push_str("<Conceptos>");
    text.push_str("<Concepto ObjetoImp=\"\" ValorUnitario=\"100.00\" Importe=\"\" ");
    text.push_str("ClaveProdServ=\"01010101\" Descripcion=\"Item\" Cantidad=\"1\" ClaveUnidad=\"\"/>");
    text.push_str("</Conceptos>");
    text.push_str("<Impuestos TotalImpuestosTrasladados=\"16.00\"/>");
    text.push_str("</Comprobante>");
    text
}

fn valid_xml() -> String {
    minimal_xml("Total=\"116.00\" ")
}

#[test]
fn parse_document_builds_the_expected_tree() {
    let root = parse_document(&valid_xml()).unwrap();
    assert_eq!(root.name, "Comprobante");
    assert_eq!(root.ns, "http://www.sat.gob.mx/cfd/4");
    assert_eq!(root.children.len(), 4);
    assert_eq!(root.children[0].name, "Emisor");
    assert_eq!(root.attr("Version").unwrap(), "4.0");
    assert!(root.attr("NoSuchAttribute").is_none());
}

#[test]
fn leading_bom_and_whitespace_are_tolerated() {
    let text = format!("\u{feff}\n  {}", valid_xml());
    let root = parse_document(&text).unwrap();
    let rec = extract_comprobante(&root).unwrap();
    assert_eq!(rec.total, "116.00");
}

#[test]
fn bom_and_whitespace_never_change_the_parsed_tree() {
    let plain = parse_document(&valid_xml()).unwrap();
    let marked = parse_document(&format!("\u{feff} \t\r\n{}", valid_xml())).unwrap();
    assert_eq!(plain, marked);
}

#[test]
fn processing_the_same_text_twice_gives_identical_rows() {
    let first = process_document("doc.xml", &valid_xml()).unwrap();
    let second = process_document("doc.xml", &valid_xml()).unwrap();
    assert_eq!(first, second);
}

#[test]
fn clean_text_strips_one_bom_then_whitespace() {
    assert_eq!(clean_text("\u{feff} \t\r\n<a/>"), "<a/>");
    assert_eq!(clean_text("  <a/>"), "<a/>");
    assert_eq!(clean_text("<a/>"), "<a/>");
    assert_eq!(clean_text("\u{feff}\u{feff}<a/>"), "\u{feff}<a/>");
    assert_eq!(clean_text(""), "");
}

#[test]
fn malformed_xml_is_a_parse_error() {
    let err = parse_document("<Comprobante xmlns=\"x\"").unwrap_err();
    assert_eq!(err, InvoiceError::Parse);
    let err = process_document("bad.xml", "not xml at all").unwrap_err();
    assert_eq!(err, InvoiceError::Parse);
}

#[test]
fn error_descriptions_name_each_kind() {
    assert_eq!(InvoiceError::Io.describe(), "the document could not be read");
    assert_eq!(
        InvoiceError::Encoding.describe(),
        "the document is not valid text in the expected encoding"
    );
    assert_eq!(InvoiceError::Parse.describe(), "the document is not well-formed XML");
    assert_eq!(
        InvoiceError::MissingField { field: "Total".to_string(), element: "Comprobante".to_string() }
            .describe(),
        "a required attribute is absent"
    );
    assert_eq!(
        InvoiceError::UnexpectedRoot.describe(),
        "the root element is not an invoice record"
    );
}

#[test]
fn process_document_emits_header_block_then_details() {
    let rows = process_document("doc1.xml", &valid_xml()).unwrap();
    assert_eq!(rows.len(), 2);
    assert!(rows[0].starts_with("doc1.xml,4.0,"));
    assert!(rows[1].starts_with(",,,,,,,,,,,,,,,,,,,,,01010101,Item,1,100.00"));
    for row in &rows {
        assert_eq!(row.split(',').count(), 30);
    }
}

#[test]
fn batch_isolates_a_failing_document() {
    let docs = vec![
        ("doc1.xml".to_string(), valid_xml()),
        ("doc2.xml".to_string(), minimal_xml("")),
        ("doc3.xml".to_string(), valid_xml()),
    ];
    let BatchResult { rows, failures } = process_batch(&docs);

    let good = process_document("doc1.xml", &valid_xml()).unwrap();
    assert_eq!(rows.len(), 1 + 2 * good.len());
    assert_eq!(rows[0], Comprobante::get_headers());
    assert_eq!(rows[1], good[0]);
    assert_eq!(rows[2], good[1]);
    assert!(rows[3].starts_with("doc3.xml,"));

    assert_eq!(failures.len(), 1);
    assert_eq!(failures[0].0, "doc2.xml");
    assert_eq!(
        failures[0].1,
        InvoiceError::MissingField { field: "Total".to_string(), element: "Comprobante".to_string() }
    );
}

#[test]
fn empty_batch_emits_only_the_header_row() {
    let BatchResult { rows, failures } = process_batch(&Vec::new());
    assert_eq!(rows, vec![Comprobante::get_headers()]);
    assert!(failures.is_empty());
}

#[test]
fn unknown_root_document_flattens_to_a_single_empty_row() {
    let text = "<Retenciones xmlns=\"http://www.sat.gob.mx/esquemas/retencionpago/2\"/>";
    let rows = process_document("r.xml", text).unwrap();
    assert_eq!(rows.len(), 1);
    assert_eq!(rows[0], format!("r.xml{}", ",".repeat(29)));
}
