use cfdi_csv::flatten::{
    detail_row_fields, flatten_record, header_block_fields, join_row, HEADERS_1, HEADERS_2,
};
use cfdi_csv::record::{Comprobante, Concepto, Traslado};

fn sample_concepto(code: &str, description: &str) -> Concepto {
    Concepto {
        objeto_imp: "02".to_string(),
        valor_unitario: "100.00".to_string(),
        importe: "100.00".to_string(),
        clave_prod_serv: code.to_string(),
        descripcion: description.to_string(),
        cantidad: "1".to_string(),
        clave_unidad: "H87".to_string(),
        impuestos: Traslado::default(),
    }
}

fn sample_record(items: Vec<Concepto>) -> Comprobante {
    let mut rec = Comprobante::default();
    rec.version = "4.0".to_string();
    rec.fecha = "2024-01-01T00:00:00".to_string();
    rec.forma_pago = "01".to_string();
    rec.sub_total = "100.00".to_string();
    rec.total = "116.00".to_string();
    rec.tipo_de_comprobante = "I".to_string();
    rec.metodo_pago = "PUE".to_string();
    rec.lugar_expedicion = "00000".to_string();
    rec.emisor.rfc = "AAA010101AAA".to_string();
    rec.receptor.rfc = "XAXX010101000".to_string();
    rec.impuestos.total_impuestos_trasladados = "16.00".to_string();
    rec.conceptos = items;
    rec
}

#[test]
fn headers_are_the_thirty_column_names() {
    let headers = Comprobante::get_headers();
    assert_eq!(headers, format!("{},{}", HEADERS_1, HEADERS_2));
    assert_eq!(headers.split(',').count(), 30);
    assert_eq!(
        headers,
        "Archivo,Version,Fecha,FormaPago,SubTotal,Total,TipoDeComprobante,MetodoPago,\
         LugarExpedicion,EmisorRFC,EmisorNombre,EmisorRegimenFiscal,ReceptorRFC,ReceptorNombre,\
         ReceptorUsoCFDI,ReceptorRegimenFiscal,TotalImpuestosTrasladados,TimbreUUID,\
         TimbreFechaTimbrado,TimbreRFCProvCertif,TimbreNoCertificadoSAT,ClaveProdServ,\
         Descripcion,Cantidad,ValorUnitario,TasaOCuota,Importe,Base,TipoFactor,Impuesto"
    );
}

#[test]
fn record_with_k_items_emits_k_plus_one_rows_of_thirty_fields() {
    let rec = sample_record(vec![
        sample_concepto("01010101", "A"),
        sample_concepto("01010102", "B"),
        sample_concepto("01010103", "C"),
    ]);
    let rows = flatten_record("invoice.xml", &rec);
    assert_eq!(rows.len(), 4);
    for row in &rows {
        assert_eq!(row.split(',').count(), 30);
    }
}

#[test]
fn block_b_is_blank_in_header_row_and_block_a_in_detail_rows() {
    let rec = sample_record(vec![sample_concepto("01010101", "A")]);
    let header = header_block_fields("invoice.xml", &rec);
    assert_eq!(header.len(), 30);
    for field in &header[21..] {
        assert_eq!(field, "");
    }
    let detail = detail_row_fields(&rec.conceptos[0]);
    assert_eq!(detail.len(), 30);
    for field in &detail[..21] {
        assert_eq!(field, "");
    }
}

#[test]
fn detail_rows_preserve_line_item_order() {
    let rec = sample_record(vec![
        sample_concepto("01010101", "first"),
        sample_concepto("01010102", "second"),
    ]);
    let rows = flatten_record("f.xml", &rec);
    assert!(rows[1].contains("first"));
    assert!(rows[2].contains("second"));
    assert!(!rows[1].contains("second"));
}

#[test]
fn join_row_inserts_one_comma_between_fields() {
    let fields = vec!["a".to_string(), "".to_string(), "c".to_string()];
    assert_eq!(join_row(&fields), "a,,c");
    assert_eq!(join_row(&vec!["solo".to_string()]), "solo");
    assert_eq!(join_row(&Vec::new()), "");
}

#[test]
fn minimal_document_flattens_to_expected_two_rows() {
    let mut item = Concepto::default();
    item.clave_prod_serv = "01010101".to_string();
    item.descripcion = "Item".to_string();
    item.cantidad = "1".to_string();
    item.valor_unitario = "100.00".to_string();
    let rec = sample_record(vec![item]);
    let rows = flatten_record("doc1.xml", &rec);
    assert_eq!(rows.len(), 2);

    let mut header_fields: Vec<&str> = vec![
        "doc1.xml",
        "4.0",
        "2024-01-01T00:00:00",
        "01",
        "100.00",
        "116.00",
        "I",
        "PUE",
        "00000",
        "AAA010101AAA",
        "",
        "",
        "XAXX010101000",
        "",
        "",
        "",
        "16.00",
        "",
        "",
        "",
        "",
    ];
    header_fields.extend(std::iter::repeat("").take(9));
    assert_eq!(rows[0], header_fields.join(","));

    let mut detail_fields: Vec<&str> = std::iter::repeat("").take(21).collect();
    detail_fields.extend(["01010101", "Item", "1", "100.00", "", "", "", "", ""]);
    assert_eq!(rows[1], detail_fields.join(","));
}

#[test]
fn stamp_fields_land_in_their_block_a_columns() {
    let mut rec = sample_record(vec![]);
    rec.timbre_fiscal_digital.uuid = "UUID-1".to_string();
    rec.timbre_fiscal_digital.fecha_timbrado = "2024-01-01T00:00:05".to_string();
    rec.timbre_fiscal_digital.rfc_prov_certif = "SAT970701NN3".to_string();
    rec.timbre_fiscal_digital.no_certificado_sat = "30001000000400002323".to_string();
    let fields = header_block_fields("doc.xml", &rec);
    assert_eq!(fields[17], "UUID-1");
    assert_eq!(fields[18], "2024-01-01T00:00:05");
    assert_eq!(fields[19], "SAT970701NN3");
    assert_eq!(fields[20], "30001000000400002323");
}

#[test]
fn tax_detail_fills_the_last_five_columns() {
    let mut item = sample_concepto("01010101", "A");
    item.impuestos = Traslado {
        tasa_o_cuota: "0.160000".to_string(),
        importe: "16.00".to_string(),
        base: "100.00".to_string(),
        tipo_factor: "Tasa".to_string(),
        impuesto: "002".to_string(),
    };
    let fields = detail_row_fields(&item);
    assert_eq!(&fields[25..], &["0.160000", "16.00", "100.00", "Tasa", "002"]);
}
