use cfdi_csv::error::InvoiceError;
use cfdi_csv::extract::{extract_comprobante, extract_comprobante_with, RootPolicy};
use cfdi_csv::record::{Comprobante, Emisor, Receptor, TimbreFiscalDigital, Traslado};
use cfdi_csv::xml::{XmlAttr, XmlNode};

const CFDI_NS: &str = "http://www.sat.gob.mx/cfd/4";
const TIMBRE_NS: &str = "http://www.sat.gob.mx/TimbreFiscalDigital";

fn elem(name: &str, ns: &str, attrs: &[(&str, &str)], children: Vec<XmlNode>) -> XmlNode {
    XmlNode {
        name: name.to_string(),
        ns: ns.to_string(),
        attrs: attrs
            .iter()
            .map(|(k, v)| XmlAttr { ns: String::new(), name: k.to_string(), value: v.to_string() })
            .collect(),
        children,
    }
}

fn root_attrs() -> Vec<(&'static str, &'static str)> {
    vec![
        ("Version", "4.0"),
        ("Fecha", "2024-01-01T00:00:00"),
        ("Sello", "SELLO"),
        ("FormaPago", "01"),
        ("NoCertificado", "30001000000400002495"),
        ("Certificado", "CERT"),
        ("SubTotal", "100.00"),
        ("Total", "116.00"),
        ("TipoDeComprobante", "I"),
        ("MetodoPago", "PUE"),
        ("LugarExpedicion", "00000"),
    ]
}

fn minimal_root(children: Vec<XmlNode>) -> XmlNode {
    elem("Comprobante", CFDI_NS, &root_attrs(), children)
}

fn concepto_attrs() -> Vec<(&'static str, &'static str)> {
    vec![
        ("ObjetoImp", "02"),
        ("ValorUnitario", "100.00"),
        ("Importe", "100.00"),
        ("ClaveProdServ", "01010101"),
        ("Descripcion", "Item"),
        ("Cantidad", "1"),
        ("ClaveUnidad", "H87"),
    ]
}

fn traslado_attrs(importe: &str) -> Vec<(String, String)> {
    vec![
        ("TasaOCuota".to_string(), "0.160000".to_string()),
        ("Importe".to_string(), importe.to_string()),
        ("Base".to_string(), "100.00".to_string()),
        ("TipoFactor".to_string(), "Tasa".to_string()),
        ("Impuesto".to_string(), "002".to_string()),
    ]
}

fn traslado_elem(importe: &str) -> XmlNode {
    let attrs: Vec<XmlAttr> = traslado_attrs(importe)
        .into_iter()
        .map(|(k, v)| XmlAttr { ns: String::new(), name: k, value: v })
        .collect();
    XmlNode {
        name: "Traslado".to_string(),
        ns: CFDI_NS.to_string(),
        attrs,
        children: vec![],
    }
}

#[test]
fn root_attributes_extracted() {
    let root = minimal_root(vec![]);
    let rec = extract_comprobante(&root).unwrap();
    assert_eq!(rec.version, "4.0");
    assert_eq!(rec.fecha, "2024-01-01T00:00:00");
    assert_eq!(rec.sello, "SELLO");
    assert_eq!(rec.forma_pago, "01");
    assert_eq!(rec.no_certificado, "30001000000400002495");
    assert_eq!(rec.certificado, "CERT");
    assert_eq!(rec.sub_total, "100.00");
    assert_eq!(rec.total, "116.00");
    assert_eq!(rec.tipo_de_comprobante, "I");
    assert_eq!(rec.metodo_pago, "PUE");
    assert_eq!(rec.lugar_expedicion, "00000");
    assert_eq!(rec.emisor, Emisor::default());
    assert_eq!(rec.receptor, Receptor::default());
    assert!(rec.conceptos.is_empty());
    assert_eq!(rec.timbre_fiscal_digital, TimbreFiscalDigital::default());
}

#[test]
fn missing_required_root_attribute_is_reported() {
    let mut attrs = root_attrs();
    attrs.retain(|(k, _)| *k != "Total");
    let root = elem("Comprobante", CFDI_NS, &attrs, vec![]);
    let err = extract_comprobante(&root).unwrap_err();
    assert_eq!(
        err,
        InvoiceError::MissingField { field: "Total".to_string(), element: "Comprobante".to_string() }
    );
}

#[test]
fn extraction_is_idempotent() {
    let concepto = elem(
        "Concepto",
        CFDI_NS,
        &concepto_attrs(),
        vec![elem(
            "Impuestos",
            CFDI_NS,
            &[],
            vec![elem("Traslados", CFDI_NS, &[], vec![traslado_elem("16.00")])],
        )],
    );
    let root = minimal_root(vec![
        elem("Emisor", CFDI_NS, &[("Rfc", "AAA010101AAA")], vec![]),
        elem("Conceptos", CFDI_NS, &[], vec![concepto]),
    ]);
    let first = extract_comprobante(&root).unwrap();
    let second = extract_comprobante(&root).unwrap();
    assert_eq!(first, second);
}

#[test]
fn two_transfer_taxes_keep_only_the_last() {
    let concepto = elem(
        "Concepto",
        CFDI_NS,
        &concepto_attrs(),
        vec![elem(
            "Impuestos",
            CFDI_NS,
            &[],
            vec![elem(
                "Traslados",
                CFDI_NS,
                &[],
                vec![traslado_elem("8.00"), traslado_elem("16.00")],
            )],
        )],
    );
    let root = minimal_root(vec![elem("Conceptos", CFDI_NS, &[], vec![concepto])]);
    let rec = extract_comprobante(&root).unwrap();
    assert_eq!(rec.conceptos.len(), 1);
    let tax = &rec.conceptos[0].impuestos;
    assert_eq!(tax.importe, "16.00");
    assert_eq!(tax.tasa_o_cuota, "0.160000");
    assert_eq!(tax.base, "100.00");
    assert_eq!(tax.tipo_factor, "Tasa");
    assert_eq!(tax.impuesto, "002");
}

#[test]
fn line_item_without_tax_keeps_empty_detail() {
    let concepto = elem("Concepto", CFDI_NS, &concepto_attrs(), vec![]);
    let root = minimal_root(vec![elem("Conceptos", CFDI_NS, &[], vec![concepto])]);
    let rec = extract_comprobante(&root).unwrap();
    assert_eq!(rec.conceptos[0].impuestos, Traslado::default());
}

#[test]
fn summary_taxes_accumulate_in_order() {
    let impuestos = elem(
        "Impuestos",
        CFDI_NS,
        &[("TotalImpuestosTrasladados", "24.00")],
        vec![elem(
            "Traslados",
            CFDI_NS,
            &[],
            vec![traslado_elem("8.00"), traslado_elem("16.00")],
        )],
    );
    let root = minimal_root(vec![impuestos]);
    let rec = extract_comprobante(&root).unwrap();
    assert_eq!(rec.impuestos.total_impuestos_trasladados, "24.00");
    assert_eq!(rec.impuestos.traslados.len(), 2);
    assert_eq!(rec.impuestos.traslados[0].importe, "8.00");
    assert_eq!(rec.impuestos.traslados[1].importe, "16.00");
}

#[test]
fn missing_summary_total_is_reported() {
    let impuestos = elem("Impuestos", CFDI_NS, &[], vec![]);
    let root = minimal_root(vec![impuestos]);
    let err = extract_comprobante(&root).unwrap_err();
    assert_eq!(
        err,
        InvoiceError::MissingField {
            field: "TotalImpuestosTrasladados".to_string(),
            element: "Impuestos".to_string(),
        }
    );
}

#[test]
fn missing_complement_yields_all_empty_stamp() {
    let root = minimal_root(vec![]);
    let rec = extract_comprobante(&root).unwrap();
    let stamp = &rec.timbre_fiscal_digital;
    assert_eq!(stamp.version, "");
    assert_eq!(stamp.uuid, "");
    assert_eq!(stamp.fecha_timbrado, "");
    assert_eq!(stamp.rfc_prov_certif, "");
    assert_eq!(stamp.sello_cfd, "");
    assert_eq!(stamp.no_certificado_sat, "");
    assert_eq!(stamp.sello_sat, "");
}

#[test]
fn stamp_is_matched_by_its_own_namespace() {
    let timbre = elem(
        "TimbreFiscalDigital",
        TIMBRE_NS,
        &[
            ("Version", "1.1"),
            ("NoCertificadoSAT", "30001000000400002323"),
            ("FechaTimbrado", "2024-01-01T00:00:05"),
            ("RfcProvCertif", "SAT970701NN3"),
            ("SelloCFD", "SELLOCFD"),
            ("UUID", "AAAAAAAA-BBBB-CCCC-DDDD-EEEEEEEEEEEE"),
            ("SelloSAT", "SELLOSAT"),
        ],
        vec![],
    );
    let root = minimal_root(vec![elem("Complemento", CFDI_NS, &[], vec![timbre])]);
    let rec = extract_comprobante(&root).unwrap();
    assert_eq!(rec.timbre_fiscal_digital.uuid, "AAAAAAAA-BBBB-CCCC-DDDD-EEEEEEEEEEEE");
    assert_eq!(rec.timbre_fiscal_digital.no_certificado_sat, "30001000000400002323");
    assert_eq!(rec.timbre_fiscal_digital.fecha_timbrado, "2024-01-01T00:00:05");
    assert_eq!(rec.timbre_fiscal_digital.rfc_prov_certif, "SAT970701NN3");
}

#[test]
fn stamp_in_wrong_namespace_is_ignored() {
    let timbre = elem("TimbreFiscalDigital", CFDI_NS, &[("Version", "1.1")], vec![]);
    let root = minimal_root(vec![elem("Complemento", CFDI_NS, &[], vec![timbre])]);
    let rec = extract_comprobante(&root).unwrap();
    assert_eq!(rec.timbre_fiscal_digital, TimbreFiscalDigital::default());
}

#[test]
fn unexpected_root_yields_default_record() {
    let root = elem("Retenciones", CFDI_NS, &root_attrs(), vec![]);
    let rec = extract_comprobante(&root).unwrap();
    assert_eq!(rec, Comprobante::default());
}

#[test]
fn unexpected_root_fails_under_strict_policy() {
    let root = elem("Retenciones", CFDI_NS, &root_attrs(), vec![]);
    let err = extract_comprobante_with(&root, RootPolicy::Strict).unwrap_err();
    assert_eq!(err, InvoiceError::UnexpectedRoot);
}

#[test]
fn issuer_and_recipient_attributes_default_individually() {
    let root = minimal_root(vec![
        elem("Emisor", CFDI_NS, &[("Rfc", "AAA010101AAA")], vec![]),
        elem(
            "Receptor",
            CFDI_NS,
            &[("Rfc", "XAXX010101000"), ("UsoCFDI", "G03")],
            vec![],
        ),
    ]);
    let rec = extract_comprobante(&root).unwrap();
    assert_eq!(rec.emisor.rfc, "AAA010101AAA");
    assert_eq!(rec.emisor.nombre, "");
    assert_eq!(rec.emisor.regimen_fiscal, "");
    assert_eq!(rec.receptor.rfc, "XAXX010101000");
    assert_eq!(rec.receptor.uso_cfdi, "G03");
    assert_eq!(rec.receptor.domicilio_fiscal, "");
}

#[test]
fn missing_line_item_attribute_names_item_element() {
    let mut attrs = concepto_attrs();
    attrs.retain(|(k, _)| *k != "Descripcion");
    let concepto = elem("Concepto", CFDI_NS, &attrs, vec![]);
    let root = minimal_root(vec![elem("Conceptos", CFDI_NS, &[], vec![concepto])]);
    let err = extract_comprobante(&root).unwrap_err();
    assert_eq!(
        err,
        InvoiceError::MissingField {
            field: "Descripcion".to_string(),
            element: "Concepto".to_string(),
        }
    );
}

#[test]
fn sibling_elements_of_other_names_are_ignored() {
    let concepto = elem("Concepto", CFDI_NS, &concepto_attrs(), vec![]);
    let other = elem("InformacionAdicional", CFDI_NS, &[], vec![]);
    let root = minimal_root(vec![elem(
        "Conceptos",
        CFDI_NS,
        &[],
        vec![other, concepto],
    )]);
    let rec = extract_comprobante(&root).unwrap();
    assert_eq!(rec.conceptos.len(), 1);
    assert_eq!(rec.conceptos[0].descripcion, "Item");
}
