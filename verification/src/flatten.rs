//! Deterministic flattening of one record into fixed-width CSV rows.
//!
//! The column grid has 30 columns: Block A (21 columns) carries the
//! document-level fields, Block B (9 columns) the line-item fields. Each
//! record emits one header-block row — Block A filled, Block B blank —
//! followed by one detail row per line item in document order — Block A
//! blank, Block B filled. Blanked columns keep their commas, so every row
//! has the same width and a spreadsheet shows each line item nested under
//! its invoice. Field values are inserted verbatim.

use vstd::prelude::*;
use vstd::string::StringExecFns;
use crate::record::{Comprobante, Concepto, SpecComprobante, SpecConcepto};

verus! {

/// The Block A column names, comma-joined: the document-level columns.
pub const HEADERS_1: &'static str = "Archivo,Version,Fecha,FormaPago,SubTotal,Total,TipoDeComprobante,MetodoPago,LugarExpedicion,EmisorRFC,EmisorNombre,EmisorRegimenFiscal,ReceptorRFC,ReceptorNombre,ReceptorUsoCFDI,ReceptorRegimenFiscal,TotalImpuestosTrasladados,TimbreUUID,TimbreFechaTimbrado,TimbreRFCProvCertif,TimbreNoCertificadoSAT";

/// The Block B column names, comma-joined: the line-item columns.
pub const HEADERS_2: &'static str = "ClaveProdServ,Descripcion,Cantidad,ValorUnitario,TasaOCuota,Importe,Base,TipoFactor,Impuesto";

impl Comprobante {
    /// The single CSV header row: the Block A column names followed by the
    /// Block B column names, emitted once per batch, not per document.
    pub fn get_headers() -> (r: String)
        ensures
            r@ == HEADERS_1@ + ","@ + HEADERS_2@,
    {
        let mut s = HEADERS_1.to_owned();
        s.append(",");
        s.append(HEADERS_2);
        s
    }
}

/// The header row's contents: what [`Comprobante::get_headers`] returns.
pub open spec fn header_row() -> Seq<char> {
    HEADERS_1@ + ","@ + HEADERS_2@
}

/// `k` empty fields: the blanked-out portion of a row.
pub open spec fn blank_fields(k: nat) -> Seq<Seq<char>> {
    Seq::new(k, |i: int| Seq::<char>::empty())
}

/// The 30 fields of a record's header-block row: the source identifier and
/// the document-level values in Block A, Block B entirely blank.
pub open spec fn header_fields(source: Seq<char>, c: SpecComprobante) -> Seq<Seq<char>> {
    seq![
        source,
        c.version,
        c.fecha,
        c.forma_pago,
        c.sub_total,
        c.total,
        c.tipo_de_comprobante,
        c.metodo_pago,
        c.lugar_expedicion,
        c.emisor.rfc,
        c.emisor.nombre,
        c.emisor.regimen_fiscal,
        c.receptor.rfc,
        c.receptor.nombre,
        c.receptor.uso_cfdi,
        c.receptor.regimen_fiscal,
        c.impuestos.total_impuestos_trasladados,
        c.timbre_fiscal_digital.uuid,
        c.timbre_fiscal_digital.fecha_timbrado,
        c.timbre_fiscal_digital.rfc_prov_certif,
        c.timbre_fiscal_digital.no_certificado_sat,
    ] + blank_fields(9)
}

/// The 30 fields of one line item's detail row: Block A entirely blank, the
/// item's own four fields and its tax detail's five fields in Block B.
pub open spec fn detail_fields(c: SpecConcepto) -> Seq<Seq<char>> {
    blank_fields(21) + seq![
        c.clave_prod_serv,
        c.descripcion,
        c.cantidad,
        c.valor_unitario,
        c.impuestos.tasa_o_cuota,
        c.impuestos.importe,
        c.impuestos.base,
        c.impuestos.tipo_factor,
        c.impuestos.impuesto,
    ]
}

/// `fields` joined by the column delimiter, values verbatim.
pub open spec fn join_fields(fields: Seq<Seq<char>>) -> Seq<char>
    decreases fields.len(),
{
    if fields.len() == 0 {
        Seq::empty()
    } else if fields.len() == 1 {
        fields[0]
    } else {
        join_fields(fields.drop_last()) + ","@ + fields.last()
    }
}

/// A record's header-block row, joined.
pub open spec fn header_row_of(source: Seq<char>, c: SpecComprobante) -> Seq<char> {
    join_fields(header_fields(source, c))
}

/// One line item's detail row, joined.
pub open spec fn detail_row_of(c: SpecConcepto) -> Seq<char> {
    join_fields(detail_fields(c))
}

/// The rows one record flattens to, as field lists: the header-block row,
/// then one detail row per line item in document order.
pub open spec fn flatten_fields_spec(source: Seq<char>, c: SpecComprobante) -> Seq<Seq<Seq<char>>> {
    seq![header_fields(source, c)] + c.conceptos.map_values(|cp: SpecConcepto| detail_fields(cp))
}

/// The same rows, each joined by the column delimiter: what the sink
/// receives for one record.
pub open spec fn flatten_spec(source: Seq<char>, c: SpecComprobante) -> Seq<Seq<char>> {
    seq![header_row_of(source, c)] + c.conceptos.map_values(|cp: SpecConcepto| detail_row_of(cp))
}

/// Builds the header-block row of `c` as its 30 fields.
pub fn header_block_fields(source: &str, c: &Comprobante) -> (r: Vec<String>)
    ensures
        r.deep_view() == header_fields(source@, c.deep_view()),
{
    let r: Vec<String> = vec![
        source.to_owned(),
        c.version.clone(),
        c.fecha.clone(),
        c.forma_pago.clone(),
        c.sub_total.clone(),
        c.total.clone(),
        c.tipo_de_comprobante.clone(),
        c.metodo_pago.clone(),
        c.lugar_expedicion.clone(),
        c.emisor.rfc.clone(),
        c.emisor.nombre.clone(),
        c.emisor.regimen_fiscal.clone(),
        c.receptor.rfc.clone(),
        c.receptor.nombre.clone(),
        c.receptor.uso_cfdi.clone(),
        c.receptor.regimen_fiscal.clone(),
        c.impuestos.total_impuestos_trasladados.clone(),
        c.timbre_fiscal_digital.uuid.clone(),
        c.timbre_fiscal_digital.fecha_timbrado.clone(),
        c.timbre_fiscal_digital.rfc_prov_certif.clone(),
        c.timbre_fiscal_digital.no_certificado_sat.clone(),
        String::new(),
        String::new(),
        String::new(),
        String::new(),
        String::new(),
        String::new(),
        String::new(),
        String::new(),
        String::new(),
    ];
    proof {
        assert(r.deep_view() =~= header_fields(source@, c.deep_view()));
    }
    r
}

/// Builds the detail row of one line item as its 30 fields.
pub fn detail_row_fields(c: &Concepto) -> (r: Vec<String>)
    ensures
        r.deep_view() == detail_fields(c.deep_view()),
{
    let r: Vec<String> = vec![
        String::new(),
        String::new(),
        String::new(),
        String::new(),
        String::new(),
        String::new(),
        String::new(),
        String::new(),
        String::new(),
        String::new(),
        String::new(),
        String::new(),
        String::new(),
        String::new(),
        String::new(),
        String::new(),
        String::new(),
        String::new(),
        String::new(),
        String::new(),
        String::new(),
        c.clave_prod_serv.clone(),
        c.descripcion.clone(),
        c.cantidad.clone(),
        c.valor_unitario.clone(),
        c.impuestos.tasa_o_cuota.clone(),
        c.impuestos.importe.clone(),
        c.impuestos.base.clone(),
        c.impuestos.tipo_factor.clone(),
        c.impuestos.impuesto.clone(),
    ];
    proof {
        assert(r.deep_view() =~= detail_fields(c.deep_view()));
    }
    r
}

/// Joins a row's fields with the column delimiter, as [`join_fields`]
/// describes.
pub fn join_row(fields: &Vec<String>) -> (r: String)
    ensures
        r@ == join_fields(fields.deep_view()),
{
    let ghost dv = fields.deep_view();
    let mut s = String::new();
    let mut i: usize = 0;
    while i < fields.len()
        invariant
            i <= fields@.len(),
            dv == fields.deep_view(),
            dv.len() == fields@.len(),
            s@ == join_fields(dv.take(i as int)),
        decreases fields@.len() - i,
    {
        if i > 0 {
            s.append(",");
        }
        s.append(fields[i].as_str());
        proof {
            assert(dv.take(i + 1).drop_last() =~= dv.take(i as int));
            assert(dv.take(i + 1).last() == dv[i as int]);
            if i == 0 {
                assert(s@ =~= join_fields(dv.take(1)));
            } else {
                assert(s@ =~= join_fields(dv.take(i + 1)));
            }
        }
        i += 1;
    }
    proof {
        assert(dv.take(fields@.len() as int) =~= dv);
    }
    s
}

/// Flattens one record into its rows: the header-block row first, then the
/// detail rows in line-item order, as [`flatten_spec`] describes.
pub fn flatten_record(source: &str, c: &Comprobante) -> (r: Vec<String>)
    ensures
        r.deep_view() == flatten_spec(source@, c.deep_view()),
{
    let ghost cdv = c.deep_view();
    let mut rows: Vec<String> = Vec::new();
    let hf = header_block_fields(source, c);
    let hrow = join_row(&hf);
    rows.push(hrow);
    proof {
        assert(rows.deep_view() =~= seq![header_row_of(source@, cdv)] + cdv.conceptos.take(
            0,
        ).map_values(|cp: SpecConcepto| detail_row_of(cp)));
    }
    let mut i: usize = 0;
    while i < c.conceptos.len()
        invariant
            i <= c.conceptos@.len(),
            cdv == c.deep_view(),
            cdv.conceptos.len() == c.conceptos@.len(),
            rows.deep_view() == seq![header_row_of(source@, cdv)] + cdv.conceptos.take(
                i as int,
            ).map_values(|cp: SpecConcepto| detail_row_of(cp)),
        decreases c.conceptos@.len() - i,
    {
        let item = &c.conceptos[i];
        let df = detail_row_fields(item);
        let drow = join_row(&df);
        let ghost prev = rows.deep_view();
        let ghost drowv = drow@;
        rows.push(drow);
        proof {
            assert(rows.deep_view() =~= prev.push(drowv));
            assert(cdv.conceptos.take(i + 1) =~= cdv.conceptos.take(i as int).push(
                cdv.conceptos[i as int],
            ));
            assert(rows.deep_view() =~= seq![header_row_of(source@, cdv)] + cdv.conceptos.take(
                i + 1,
            ).map_values(|cp: SpecConcepto| detail_row_of(cp)));
        }
        i += 1;
    }
    proof {
        assert(cdv.conceptos.take(c.conceptos@.len() as int) =~= cdv.conceptos);
        assert(rows.deep_view() =~= flatten_spec(source@, cdv));
    }
    rows
}

/// Law: a record with `k` line items flattens to exactly `k + 1` rows —
/// one header-block row and one detail row per line item — and every row
/// has exactly 30 fields.
pub proof fn lemma_flatten_row_count(source: Seq<char>, c: SpecComprobante)
    ensures
        flatten_fields_spec(source, c).len() == c.conceptos.len() + 1,
        flatten_spec(source, c).len() == c.conceptos.len() + 1,
        forall|i: int|
            0 <= i < c.conceptos.len() + 1 ==> (#[trigger] flatten_fields_spec(source, c)[i]).len()
                == 30,
{
    let rows = flatten_fields_spec(source, c);
    assert forall|i: int| 0 <= i < c.conceptos.len() + 1 implies (#[trigger] rows[i]).len()
        == 30 by {
        if i == 0 {
            assert(rows[0] == header_fields(source, c));
        } else {
            assert(rows[i] == detail_fields(c.conceptos[i - 1]));
        }
    }
}

/// Law: each emitted row is exactly its field list joined by the column
/// delimiter — the joined rows and the field-level rows describe the same
/// output.
pub proof fn lemma_rows_are_joined_fields(source: Seq<char>, c: SpecComprobante)
    ensures
        flatten_spec(source, c).len() == flatten_fields_spec(source, c).len(),
        forall|i: int|
            0 <= i < flatten_spec(source, c).len() ==> #[trigger] flatten_spec(source, c)[i]
                == join_fields(flatten_fields_spec(source, c)[i]),
{
    let joined = flatten_spec(source, c);
    let fields = flatten_fields_spec(source, c);
    assert forall|i: int| 0 <= i < joined.len() implies #[trigger] joined[i] == join_fields(
        fields[i],
    ) by {
        if i == 0 {
            assert(joined[0] == header_row_of(source, c));
            assert(fields[0] == header_fields(source, c));
        } else {
            assert(joined[i] == detail_row_of(c.conceptos[i - 1]));
            assert(fields[i] == detail_fields(c.conceptos[i - 1]));
        }
    }
}

/// Law: positional blanking — the header-block row is empty in all nine
/// Block B columns, and every detail row is empty in all twenty-one Block A
/// columns.
pub proof fn lemma_block_blanking(source: Seq<char>, c: SpecComprobante)
    ensures
        forall|j: int|
            21 <= j < 30 ==> #[trigger] flatten_fields_spec(source, c)[0][j] == Seq::<
                char,
            >::empty(),
        forall|i: int, j: int|
            1 <= i < c.conceptos.len() + 1 && 0 <= j < 21
                ==> #[trigger] flatten_fields_spec(source, c)[i][j] == Seq::<char>::empty(),
{
    let rows = flatten_fields_spec(source, c);
    assert forall|j: int| 21 <= j < 30 implies #[trigger] rows[0][j] == Seq::<char>::empty() by {
        assert(rows[0] == header_fields(source, c));
        assert(header_fields(source, c)[j] == blank_fields(9)[j - 21]);
    }
    assert forall|i: int, j: int| 1 <= i < c.conceptos.len() + 1 && 0 <= j < 21 implies #[trigger] rows[i][j]
        == Seq::<char>::empty() by {
        assert(rows[i] == detail_fields(c.conceptos[i - 1]));
        assert(detail_fields(c.conceptos[i - 1])[j] == blank_fields(21)[j]);
    }
}

/// How many times `ch` occurs in `s`.
pub open spec fn count_char(s: Seq<char>, ch: char) -> nat
    decreases s.len(),
{
    if s.len() == 0 {
        0
    } else {
        count_char(s.drop_last(), ch) + (if s.last() == ch {
            1nat
        } else {
            0nat
        })
    }
}

proof fn lemma_count_char_add(a: Seq<char>, b: Seq<char>, ch: char)
    ensures
        count_char(a + b, ch) == count_char(a, ch) + count_char(b, ch),
    decreases b.len(),
{
    if b.len() == 0 {
        assert(a + b =~= a);
    } else {
        assert((a + b).drop_last() =~= a + b.drop_last());
        assert((a + b).last() == b.last());
        lemma_count_char_add(a, b.drop_last(), ch);
    }
}

/// Whether every field value of every row of the record's flattened
/// output — the source identifier included — is free of the column
/// delimiter. Values are inserted verbatim, so this is the premise under
/// which the emitted rows split cleanly; delimiter-safe quoting of values
/// that do contain it is the sink's concern.
pub open spec fn comma_free(source: Seq<char>, c: SpecComprobante) -> bool {
    forall|i: int, j: int|
        0 <= i < flatten_fields_spec(source, c).len() && 0 <= j < 30 ==> count_char(
            #[trigger] flatten_fields_spec(source, c)[i][j],
            ',',
        ) == 0
}

/// Law: when no field value contains the column delimiter, every row a
/// record flattens to holds exactly 29 delimiters — it reads back as
/// exactly 30 comma-separated fields.
pub proof fn lemma_flatten_comma_count(source: Seq<char>, c: SpecComprobante)
    requires
        comma_free(source, c),
    ensures
        forall|i: int|
            0 <= i < flatten_spec(source, c).len() ==> count_char(
                #[trigger] flatten_spec(source, c)[i],
                ',',
            ) == 29,
{
    lemma_flatten_row_count(source, c);
    lemma_rows_are_joined_fields(source, c);
    let joined = flatten_spec(source, c);
    let fields = flatten_fields_spec(source, c);
    assert forall|i: int| 0 <= i < joined.len() implies count_char(#[trigger] joined[i], ',')
        == 29 by {
        assert(fields[i].len() == 30);
        assert(forall|j: int| 0 <= j < 30 ==> count_char(#[trigger] fields[i][j], ',') == 0);
        lemma_join_comma_count(fields[i]);
        assert(joined[i] == join_fields(fields[i]));
    }
}

/// Law: a row joined from `n` delimiter-free fields holds exactly `n - 1`
/// delimiters, so it reads back as exactly `n` comma-separated fields.
pub proof fn lemma_join_comma_count(fields: Seq<Seq<char>>)
    requires
        fields.len() > 0,
        forall|i: int| 0 <= i < fields.len() ==> count_char(#[trigger] fields[i], ',') == 0,
    ensures
        count_char(join_fields(fields), ',') == fields.len() - 1,
    decreases fields.len(),
{
    if fields.len() > 1 {
        lemma_join_comma_count(fields.drop_last());
        reveal_strlit(",");
        assert(","@.len() == 1);
        assert(","@.drop_last() =~= Seq::<char>::empty());
        assert(","@.last() == ',');
        assert(count_char(Seq::<char>::empty(), ',') == 0);
        assert(count_char(","@, ',') == 1);
        lemma_count_char_add(join_fields(fields.drop_last()), ","@, ',');
        lemma_count_char_add(join_fields(fields.drop_last()) + ","@, fields.last(), ',');
    }
}

} // verus!
