//! Schema-aware extraction of an element tree into a [`Comprobante`].
//!
//! The walk is table-driven: each element type has an ordered list of
//! attribute names. Required attributes fail extraction with a
//! `MissingField` error naming the first absent one; optional attributes
//! default to the empty string. The root's own namespace governs every
//! lookup in the main body, while the digital-stamp complement is matched by
//! its own fixed namespace, which does not track the root document's
//! version.

use vstd::prelude::*;
use crate::error::{res_view, spec_missing, InvoiceError, SpecError};
use crate::record::{
    Comprobante, Concepto, Emisor, Impuestos, Receptor, SpecComprobante, SpecConcepto, SpecEmisor,
    SpecImpuestos, SpecReceptor, SpecTimbre, SpecTraslado, TimbreFiscalDigital, Traslado,
};
use crate::strutil::str_eq;
use crate::xml::{children_named, find_attr, find_child, XmlNode};

verus! {

/// The first name in `names` that `n` has no attribute for, if any: required
/// attributes are checked in table order, so this is the field a failed
/// extraction reports.
pub open spec fn first_missing(n: XmlNode, names: Seq<Seq<char>>) -> Option<Seq<char>>
    decreases names.len(),
{
    if names.len() == 0 {
        None
    } else if n.spec_attr(names[0]) is None {
        Some(names[0])
    } else {
        first_missing(n, names.drop_first())
    }
}

/// The values of the required attributes `names` of `n`, in table order, or
/// the missing-field error naming the first absent one.
pub open spec fn req_attrs(n: XmlNode, names: Seq<Seq<char>>) -> Result<Seq<Seq<char>>, SpecError> {
    match first_missing(n, names) {
        Some(f) => Err(spec_missing(f, n.name@)),
        None => Ok(Seq::new(names.len(), |i: int| n.spec_attr(names[i]).unwrap())),
    }
}

proof fn lemma_first_missing_at(n: XmlNode, names: Seq<Seq<char>>, i: int)
    requires
        0 <= i < names.len(),
        forall|j: int| 0 <= j < i ==> n.spec_attr(names[j]) is Some,
        n.spec_attr(names[i]) is None,
    ensures
        first_missing(n, names) == Some(names[i]),
    decreases i,
{
    if i > 0 {
        lemma_first_missing_at(n, names.drop_first(), i - 1);
    }
}

proof fn lemma_first_missing_none(n: XmlNode, names: Seq<Seq<char>>)
    requires
        forall|j: int| 0 <= j < names.len() ==> n.spec_attr(names[j]) is Some,
    ensures
        first_missing(n, names) is None,
    decreases names.len(),
{
    if names.len() > 0 {
        lemma_first_missing_none(n, names.drop_first());
    }
}

/// Reads the required attributes `names` of `n`, in table order, as
/// [`req_attrs`] describes.
pub fn required_attrs(n: &XmlNode, names: &Vec<&str>) -> (r: Result<Vec<String>, InvoiceError>)
    ensures
        res_view(r) == req_attrs(*n, names.deep_view()),
{
    let ghost names_dv = names.deep_view();
    let mut vs: Vec<String> = Vec::new();
    let mut i: usize = 0;
    while i < names.len()
        invariant
            i <= names_dv.len(),
            names_dv == names.deep_view(),
            names_dv.len() == names@.len(),
            vs@.len() == i,
            forall|j: int| 0 <= j < i ==> n.spec_attr(names_dv[j]) is Some,
            forall|j: int|
                0 <= j < i ==> vs.deep_view()[j] == n.spec_attr(names_dv[j]).unwrap(),
        decreases names@.len() - i,
    {
        proof {
            assert(names_dv[i as int] == names@[i as int]@);
        }
        match n.attr(names[i]) {
            Some(v) => {
                let value = v.clone();
                let ghost prev = vs.deep_view();
                vs.push(value);
                proof {
                    assert(vs.deep_view() =~= prev.push(v@));
                }
                i += 1;
            },
            None => {
                proof {
                    lemma_first_missing_at(*n, names_dv, i as int);
                }
                let field = names[i].to_owned();
                let element = n.name.clone();
                return Err(InvoiceError::MissingField { field, element });
            },
        }
    }
    proof {
        lemma_first_missing_none(*n, names_dv);
        assert(vs.deep_view() =~= Seq::new(
            names_dv.len(),
            |j: int| n.spec_attr(names_dv[j]).unwrap(),
        ));
    }
    Ok(vs)
}

/// Reads one required attribute of `n`, failing with the missing-field error
/// that names it.
pub fn required_attr(n: &XmlNode, name: &str) -> (r: Result<String, InvoiceError>)
    ensures
        match r {
            Ok(v) => n.spec_attr(name@) == Some(v@),
            Err(e) => n.spec_attr(name@) is None && e.deep_view() == spec_missing(
                name@,
                n.name@,
            ),
        },
{
    match n.attr(name) {
        Some(v) => Ok(v.clone()),
        None => Err(
            InvoiceError::MissingField { field: name.to_owned(), element: n.name.clone() },
        ),
    }
}

/// Reads one optional attribute of `n`, defaulting to the empty string.
pub fn optional_attr(n: &XmlNode, name: &str) -> (r: String)
    ensures
        r@ == n.attr_or_empty(name@),
{
    match n.attr(name) {
        Some(v) => v.clone(),
        None => String::new(),
    }
}

/// What extraction reads from an issuer element: every attribute optional,
/// defaulting to empty.
pub open spec fn emisor_spec(e: XmlNode) -> SpecEmisor {
    SpecEmisor {
        rfc: e.attr_or_empty("Rfc"@),
        nombre: e.attr_or_empty("Nombre"@),
        regimen_fiscal: e.attr_or_empty("RegimenFiscal"@),
    }
}

fn extract_emisor(e: &XmlNode) -> (r: Emisor)
    ensures
        r.deep_view() == emisor_spec(*e),
{
    Emisor {
        rfc: optional_attr(e, "Rfc"),
        nombre: optional_attr(e, "Nombre"),
        regimen_fiscal: optional_attr(e, "RegimenFiscal"),
    }
}

/// What extraction reads from a recipient element: every attribute optional,
/// defaulting to empty.
pub open spec fn receptor_spec(e: XmlNode) -> SpecReceptor {
    SpecReceptor {
        rfc: e.attr_or_empty("Rfc"@),
        nombre: e.attr_or_empty("Nombre"@),
        uso_cfdi: e.attr_or_empty("UsoCFDI"@),
        domicilio_fiscal: e.attr_or_empty("DomicilioFiscalReceptor"@),
        regimen_fiscal: e.attr_or_empty("RegimenFiscalReceptor"@),
    }
}

fn extract_receptor(e: &XmlNode) -> (r: Receptor)
    ensures
        r.deep_view() == receptor_spec(*e),
{
    Receptor {
        rfc: optional_attr(e, "Rfc"),
        nombre: optional_attr(e, "Nombre"),
        uso_cfdi: optional_attr(e, "UsoCFDI"),
        domicilio_fiscal: optional_attr(e, "DomicilioFiscalReceptor"),
        regimen_fiscal: optional_attr(e, "RegimenFiscalReceptor"),
    }
}

/// The attribute table of a transfer-tax element: all required.
pub open spec fn traslado_names() -> Seq<Seq<char>> {
    seq!["TasaOCuota"@, "Importe"@, "Base"@, "TipoFactor"@, "Impuesto"@]
}

/// What extraction reads from one transfer-tax element.
pub open spec fn traslado_spec(t: XmlNode) -> Result<SpecTraslado, SpecError> {
    match req_attrs(t, traslado_names()) {
        Err(e) => Err(e),
        Ok(vs) => Ok(
            SpecTraslado {
                tasa_o_cuota: vs[0],
                importe: vs[1],
                base: vs[2],
                tipo_factor: vs[3],
                impuesto: vs[4],
            },
        ),
    }
}

fn extract_traslado(t: &XmlNode) -> (r: Result<Traslado, InvoiceError>)
    ensures
        res_view(r) == traslado_spec(*t),
{
    let names: Vec<&str> = vec!["TasaOCuota", "Importe", "Base", "TipoFactor", "Impuesto"];
    proof {
        assert(names.deep_view() =~= traslado_names());
    }
    match required_attrs(t, &names) {
        Err(e) => Err(e),
        Ok(vs) => {
            proof {
                assert(vs.deep_view().len() == traslado_names().len());
                assert(vs@.len() == 5);
            }
            let r = Traslado {
                tasa_o_cuota: vs[0].clone(),
                importe: vs[1].clone(),
                base: vs[2].clone(),
                tipo_factor: vs[3].clone(),
                impuesto: vs[4].clone(),
            };
            proof {
                assert(res_view(Ok::<Traslado, InvoiceError>(r)) =~= traslado_spec(*t));
            }
            Ok(r)
        },
    }
}

/// The transfer-tax elements under one line item: the item-level taxes
/// container, then its transfers container, then every direct child named
/// `Traslado`, in document order.
pub open spec fn item_traslado_nodes(c: XmlNode, ns: Seq<char>) -> Seq<XmlNode> {
    match c.spec_child("Impuestos"@, ns) {
        None => Seq::empty(),
        Some(imp) => match imp.spec_child("Traslados"@, ns) {
            None => Seq::empty(),
            Some(tr) => children_named(tr.children@, "Traslado"@),
        },
    }
}

/// The tax detail an ordered run of transfer-tax elements leaves on its line
/// item: each is extracted in turn and the last one seen wins — a positional
/// overwrite, not an accumulation. A run with none keeps the all-empty
/// detail; the earliest element that fails extraction fails the item.
pub open spec fn item_tax_spec(ts: Seq<XmlNode>) -> Result<SpecTraslado, SpecError>
    decreases ts.len(),
{
    if ts.len() == 0 {
        Ok(SpecTraslado::empty())
    } else {
        match item_tax_spec(ts.drop_last()) {
            Err(e) => Err(e),
            Ok(_) => traslado_spec(ts.last()),
        }
    }
}

/// The tax detail of the line item `c`: [`item_tax_spec`] over
/// [`item_traslado_nodes`].
pub open spec fn item_tax_of(c: XmlNode, ns: Seq<char>) -> Result<SpecTraslado, SpecError> {
    item_tax_spec(item_traslado_nodes(c, ns))
}

proof fn lemma_item_tax_err_prefix(p: Seq<XmlNode>, s: Seq<XmlNode>)
    requires
        p.is_prefix_of(s),
        item_tax_spec(p) is Err,
    ensures
        item_tax_spec(s) == item_tax_spec(p),
    decreases s.len(),
{
    if p.len() == s.len() {
        assert(p =~= s);
    } else {
        assert(p =~= s.drop_last().subrange(0, p.len() as int));
        lemma_item_tax_err_prefix(p, s.drop_last());
    }
}

proof fn lemma_children_named_take_prefix(s: Seq<XmlNode>, name: Seq<char>, i: int)
    requires
        0 <= i <= s.len(),
    ensures
        children_named(s.take(i), name).is_prefix_of(children_named(s, name)),
    decreases s.len() - i,
{
    broadcast use Seq::<XmlNode>::lemma_filter_push;

    if i == s.len() {
        assert(s.take(i) =~= s);
        assert(children_named(s.take(i), name).is_prefix_of(children_named(s, name)));
    } else {
        let a = children_named(s.take(i), name);
        let b = children_named(s.take(i + 1), name);
        let c = children_named(s, name);
        assert(s.take(i + 1) =~= s.take(i).push(s[i]));
        assert(a.is_prefix_of(b));
        lemma_children_named_take_prefix(s, name, i + 1);
        assert(a =~= c.subrange(0, a.len() as int));
    }
}

/// Extracts the tax detail of the line item `c`, as [`item_tax_of`]
/// describes.
fn extract_item_tax(c: &XmlNode, ns: &str) -> (r: Result<Traslado, InvoiceError>)
    ensures
        res_view(r) == item_tax_of(*c, ns@),
{
    let mut tax = Traslado::default();
    if let Some(imp) = c.get_child("Impuestos", ns) {
        if let Some(tr) = imp.get_child("Traslados", ns) {
            let n = tr.children.len();
            let mut i: usize = 0;
            proof {
                assert(children_named(tr.children@.take(0), "Traslado"@) =~= Seq::<
                    XmlNode,
                >::empty());
            }
            while i < n
                invariant
                    i <= n,
                    n == tr.children@.len(),
                    item_tax_spec(children_named(tr.children@.take(i as int), "Traslado"@))
                        == Ok::<SpecTraslado, SpecError>(tax.deep_view()),
                    item_traslado_nodes(*c, ns@) == children_named(tr.children@, "Traslado"@),
                decreases n - i,
            {
                let child = &tr.children[i];
                let ghost pre = children_named(tr.children@.take(i as int), "Traslado"@);
                proof {
                    broadcast use Seq::<XmlNode>::lemma_filter_push;

                    assert(tr.children@.take(i + 1) =~= tr.children@.take(i as int).push(*child));
                    if child.name@ == "Traslado"@ {
                        assert(children_named(tr.children@.take(i + 1), "Traslado"@) == pre.push(
                            *child,
                        ));
                    } else {
                        assert(children_named(tr.children@.take(i + 1), "Traslado"@) == pre);
                    }
                }
                if str_eq(child.name.as_str(), "Traslado") {
                    match extract_traslado(child) {
                        Ok(t) => {
                            proof {
                                let ext = children_named(tr.children@.take(i + 1), "Traslado"@);
                                assert(ext.drop_last() =~= pre);
                                assert(ext.last() == *child);
                                assert(item_tax_spec(ext) == traslado_spec(*child));
                            }
                            tax = t;
                        },
                        Err(e) => {
                            proof {
                                let failed = children_named(tr.children@.take(i + 1), "Traslado"@);
                                assert(failed.drop_last() =~= pre);
                                assert(failed.last() == *child);
                                assert(item_tax_spec(failed) == Err::<SpecTraslado, SpecError>(
                                    e.deep_view(),
                                ));
                                lemma_children_named_take_prefix(
                                    tr.children@,
                                    "Traslado"@,
                                    i + 1,
                                );
                                lemma_item_tax_err_prefix(
                                    failed,
                                    children_named(tr.children@, "Traslado"@),
                                );
                            }
                            return Err(e);
                        },
                    }
                }
                i += 1;
            }
            proof {
                assert(tr.children@.take(n as int) =~= tr.children@);
            }
        }
    }
    Ok(tax)
}

/// The attribute table of a line-item element: all required.
pub open spec fn concepto_names() -> Seq<Seq<char>> {
    seq![
        "ObjetoImp"@,
        "ValorUnitario"@,
        "Importe"@,
        "ClaveProdServ"@,
        "Descripcion"@,
        "Cantidad"@,
        "ClaveUnidad"@,
    ]
}

/// What extraction reads from one line-item element.
pub open spec fn concepto_spec(c: XmlNode, ns: Seq<char>) -> Result<SpecConcepto, SpecError> {
    match req_attrs(c, concepto_names()) {
        Err(e) => Err(e),
        Ok(vs) => match item_tax_of(c, ns) {
            Err(e) => Err(e),
            Ok(tax) => Ok(
                SpecConcepto {
                    objeto_imp: vs[0],
                    valor_unitario: vs[1],
                    importe: vs[2],
                    clave_prod_serv: vs[3],
                    descripcion: vs[4],
                    cantidad: vs[5],
                    clave_unidad: vs[6],
                    impuestos: tax,
                },
            ),
        },
    }
}

fn extract_concepto(c: &XmlNode, ns: &str) -> (r: Result<Concepto, InvoiceError>)
    ensures
        res_view(r) == concepto_spec(*c, ns@),
{
    let names: Vec<&str> = vec![
        "ObjetoImp",
        "ValorUnitario",
        "Importe",
        "ClaveProdServ",
        "Descripcion",
        "Cantidad",
        "ClaveUnidad",
    ];
    proof {
        assert(names.deep_view() =~= concepto_names());
    }
    let vs = match required_attrs(c, &names) {
        Ok(vs) => vs,
        Err(e) => {
            return Err(e);
        },
    };
    proof {
        assert(vs.deep_view().len() == concepto_names().len());
        assert(vs@.len() == 7);
    }
    let tax = match extract_item_tax(c, ns) {
        Ok(t) => t,
        Err(e) => {
            return Err(e);
        },
    };
    let r = Concepto {
        objeto_imp: vs[0].clone(),
        valor_unitario: vs[1].clone(),
        importe: vs[2].clone(),
        clave_prod_serv: vs[3].clone(),
        descripcion: vs[4].clone(),
        cantidad: vs[5].clone(),
        clave_unidad: vs[6].clone(),
        impuestos: tax,
    };
    proof {
        assert(res_view(Ok::<Concepto, InvoiceError>(r)) =~= concepto_spec(*c, ns@));
    }
    Ok(r)
}

/// The line items an ordered run of `Concepto` elements yields, in document
/// order; the earliest element that fails extraction fails the document.
pub open spec fn conceptos_spec(cs: Seq<XmlNode>, ns: Seq<char>) -> Result<
    Seq<SpecConcepto>,
    SpecError,
>
    decreases cs.len(),
{
    if cs.len() == 0 {
        Ok(Seq::empty())
    } else {
        match conceptos_spec(cs.drop_last(), ns) {
            Err(e) => Err(e),
            Ok(rest) => match concepto_spec(cs.last(), ns) {
                Err(e) => Err(e),
                Ok(c) => Ok(rest.push(c)),
            },
        }
    }
}

proof fn lemma_conceptos_err_prefix(p: Seq<XmlNode>, s: Seq<XmlNode>, ns: Seq<char>)
    requires
        p.is_prefix_of(s),
        conceptos_spec(p, ns) is Err,
    ensures
        conceptos_spec(s, ns) == conceptos_spec(p, ns),
    decreases s.len(),
{
    if p.len() == s.len() {
        assert(p =~= s);
    } else {
        assert(p =~= s.drop_last().subrange(0, p.len() as int));
        lemma_conceptos_err_prefix(p, s.drop_last(), ns);
    }
}

/// The line items of the whole document: the children named `Concepto` of
/// the line-items container, or none when the container is absent.
pub open spec fn conceptos_of(root: XmlNode, ns: Seq<char>) -> Result<Seq<SpecConcepto>, SpecError> {
    match root.spec_child("Conceptos"@, ns) {
        None => Ok(Seq::empty()),
        Some(cont) => conceptos_spec(children_named(cont.children@, "Concepto"@), ns),
    }
}

/// Extracts every line item of the document, as [`conceptos_of`] describes.
fn extract_conceptos(root: &XmlNode, ns: &str) -> (r: Result<Vec<Concepto>, InvoiceError>)
    ensures
        res_view(r) == conceptos_of(*root, ns@),
{
    let mut items: Vec<Concepto> = Vec::new();
    proof {
        assert(items.deep_view() =~= Seq::<SpecConcepto>::empty());
    }
    if let Some(cont) = root.get_child("Conceptos", ns) {
        let n = cont.children.len();
        let mut i: usize = 0;
        proof {
            assert(children_named(cont.children@.take(0), "Concepto"@) =~= Seq::<
                XmlNode,
            >::empty());
        }
        while i < n
            invariant
                i <= n,
                n == cont.children@.len(),
                conceptos_spec(children_named(cont.children@.take(i as int), "Concepto"@), ns@)
                    == Ok::<Seq<SpecConcepto>, SpecError>(items.deep_view()),
                conceptos_of(*root, ns@) == conceptos_spec(
                    children_named(cont.children@, "Concepto"@),
                    ns@,
                ),
            decreases n - i,
        {
            let child = &cont.children[i];
            let ghost pre = children_named(cont.children@.take(i as int), "Concepto"@);
            proof {
                broadcast use Seq::<XmlNode>::lemma_filter_push;

                assert(cont.children@.take(i + 1) =~= cont.children@.take(i as int).push(*child));
                if child.name@ == "Concepto"@ {
                    assert(children_named(cont.children@.take(i + 1), "Concepto"@) == pre.push(
                        *child,
                    ));
                } else {
                    assert(children_named(cont.children@.take(i + 1), "Concepto"@) == pre);
                }
            }
            if str_eq(child.name.as_str(), "Concepto") {
                let ghost ext = children_named(cont.children@.take(i + 1), "Concepto"@);
                proof {
                    assert(ext.drop_last() =~= pre);
                    assert(ext.last() == *child);
                }
                match extract_concepto(child, ns) {
                    Ok(c) => {
                        let ghost prev = items.deep_view();
                        let ghost cv = c.deep_view();
                        items.push(c);
                        proof {
                            assert(items.deep_view() =~= prev.push(cv));
                            assert(conceptos_spec(ext, ns@) == Ok::<
                                Seq<SpecConcepto>,
                                SpecError,
                            >(items.deep_view()));
                        }
                    },
                    Err(e) => {
                        proof {
                            assert(conceptos_spec(ext, ns@) == Err::<
                                Seq<SpecConcepto>,
                                SpecError,
                            >(e.deep_view()));
                            lemma_children_named_take_prefix(cont.children@, "Concepto"@, i + 1);
                            lemma_conceptos_err_prefix(
                                ext,
                                children_named(cont.children@, "Concepto"@),
                                ns@,
                            );
                        }
                        return Err(e);
                    },
                }
            }
            i += 1;
        }
        proof {
            assert(cont.children@.take(n as int) =~= cont.children@);
        }
    }
    Ok(items)
}

/// The document-level transfer-tax entries an ordered run of elements
/// yields: unlike a line item's, all of them are accumulated, in document
/// order. The earliest element that fails extraction fails the document.
pub open spec fn traslados_spec(ts: Seq<XmlNode>) -> Result<Seq<SpecTraslado>, SpecError>
    decreases ts.len(),
{
    if ts.len() == 0 {
        Ok(Seq::empty())
    } else {
        match traslados_spec(ts.drop_last()) {
            Err(e) => Err(e),
            Ok(rest) => match traslado_spec(ts.last()) {
                Err(e) => Err(e),
                Ok(t) => Ok(rest.push(t)),
            },
        }
    }
}

proof fn lemma_traslados_err_prefix(p: Seq<XmlNode>, s: Seq<XmlNode>)
    requires
        p.is_prefix_of(s),
        traslados_spec(p) is Err,
    ensures
        traslados_spec(s) == traslados_spec(p),
    decreases s.len(),
{
    if p.len() == s.len() {
        assert(p =~= s);
    } else {
        assert(p =~= s.drop_last().subrange(0, p.len() as int));
        lemma_traslados_err_prefix(p, s.drop_last());
    }
}

/// The transfer-tax entries under the document-level tax summary `imp`:
/// none when its transfers container is absent.
pub open spec fn summary_traslados_of(imp: XmlNode, ns: Seq<char>) -> Result<
    Seq<SpecTraslado>,
    SpecError,
> {
    match imp.spec_child("Traslados"@, ns) {
        None => Ok(Seq::empty()),
        Some(tr) => traslados_spec(children_named(tr.children@, "Traslado"@)),
    }
}

/// The document-level tax summary: the all-empty summary when the container
/// is absent; its aggregate attribute is required when present, and its
/// transfer-tax entries accumulate.
pub open spec fn impuestos_spec(root: XmlNode, ns: Seq<char>) -> Result<SpecImpuestos, SpecError> {
    match root.spec_child("Impuestos"@, ns) {
        None => Ok(SpecImpuestos::empty()),
        Some(imp) => match imp.spec_attr("TotalImpuestosTrasladados"@) {
            None => Err(spec_missing("TotalImpuestosTrasladados"@, imp.name@)),
            Some(total) => match summary_traslados_of(imp, ns) {
                Err(e) => Err(e),
                Ok(ts) => Ok(
                    SpecImpuestos { total_impuestos_trasladados: total, traslados: ts },
                ),
            },
        },
    }
}

/// Extracts the document-level tax summary, as [`impuestos_spec`] describes.
fn extract_impuestos(root: &XmlNode, ns: &str) -> (r: Result<Impuestos, InvoiceError>)
    ensures
        res_view(r) == impuestos_spec(*root, ns@),
{
    let imp = match root.get_child("Impuestos", ns) {
        None => {
            return Ok(Impuestos::default());
        },
        Some(x) => x,
    };
    let total = match required_attr(imp, "TotalImpuestosTrasladados") {
        Ok(v) => v,
        Err(e) => {
            return Err(e);
        },
    };
    let mut ts: Vec<Traslado> = Vec::new();
    proof {
        assert(ts.deep_view() =~= Seq::<SpecTraslado>::empty());
    }
    if let Some(tr) = imp.get_child("Traslados", ns) {
        let n = tr.children.len();
        let mut i: usize = 0;
        proof {
            assert(children_named(tr.children@.take(0), "Traslado"@) =~= Seq::<XmlNode>::empty());
        }
        while i < n
            invariant
                i <= n,
                n == tr.children@.len(),
                traslados_spec(children_named(tr.children@.take(i as int), "Traslado"@))
                    == Ok::<Seq<SpecTraslado>, SpecError>(ts.deep_view()),
                summary_traslados_of(*imp, ns@) == traslados_spec(
                    children_named(tr.children@, "Traslado"@),
                ),
                root.spec_child("Impuestos"@, ns@) == Some(*imp),
                imp.spec_attr("TotalImpuestosTrasladados"@) == Some(total@),
            decreases n - i,
        {
            let child = &tr.children[i];
            let ghost pre = children_named(tr.children@.take(i as int), "Traslado"@);
            proof {
                broadcast use Seq::<XmlNode>::lemma_filter_push;

                assert(tr.children@.take(i + 1) =~= tr.children@.take(i as int).push(*child));
                if child.name@ == "Traslado"@ {
                    assert(children_named(tr.children@.take(i + 1), "Traslado"@) == pre.push(
                        *child,
                    ));
                } else {
                    assert(children_named(tr.children@.take(i + 1), "Traslado"@) == pre);
                }
            }
            if str_eq(child.name.as_str(), "Traslado") {
                let ghost ext = children_named(tr.children@.take(i + 1), "Traslado"@);
                proof {
                    assert(ext.drop_last() =~= pre);
                    assert(ext.last() == *child);
                }
                match extract_traslado(child) {
                    Ok(t) => {
                        let ghost prev = ts.deep_view();
                        let ghost tv = t.deep_view();
                        ts.push(t);
                        proof {
                            assert(ts.deep_view() =~= prev.push(tv));
                            assert(traslados_spec(ext) == Ok::<Seq<SpecTraslado>, SpecError>(
                                ts.deep_view(),
                            ));
                        }
                    },
                    Err(e) => {
                        proof {
                            assert(traslados_spec(ext) == Err::<Seq<SpecTraslado>, SpecError>(
                                e.deep_view(),
                            ));
                            lemma_children_named_take_prefix(tr.children@, "Traslado"@, i + 1);
                            lemma_traslados_err_prefix(
                                ext,
                                children_named(tr.children@, "Traslado"@),
                            );
                            assert(summary_traslados_of(*imp, ns@) == Err::<
                                Seq<SpecTraslado>,
                                SpecError,
                            >(e.deep_view()));
                            assert(impuestos_spec(*root, ns@) == Err::<SpecImpuestos, SpecError>(
                                e.deep_view(),
                            ));
                        }
                        return Err(e);
                    },
                }
            }
            i += 1;
        }
        proof {
            assert(tr.children@.take(n as int) =~= tr.children@);
        }
    }
    let r = Impuestos { total_impuestos_trasladados: total, traslados: ts };
    proof {
        assert(res_view(Ok::<Impuestos, InvoiceError>(r)) =~= impuestos_spec(*root, ns@));
    }
    Ok(r)
}

/// The attribute table of the certification-stamp element: all required.
pub open spec fn timbre_names() -> Seq<Seq<char>> {
    seq![
        "Version"@,
        "NoCertificadoSAT"@,
        "FechaTimbrado"@,
        "RfcProvCertif"@,
        "SelloCFD"@,
        "UUID"@,
        "SelloSAT"@,
    ]
}

/// The fixed namespace of the certification-stamp element. Standards
/// evolution placed certification complements here, independent of the root
/// document's namespace and version.
pub open spec fn timbre_ns() -> Seq<char> {
    "http://www.sat.gob.mx/TimbreFiscalDigital"@
}

/// The digital stamp of the document: all-empty when the complement
/// container or the stamp element is absent — that is not an error — and
/// all seven attributes required when the stamp is present.
pub open spec fn timbre_spec(root: XmlNode, ns: Seq<char>) -> Result<SpecTimbre, SpecError> {
    match root.spec_child("Complemento"@, ns) {
        None => Ok(SpecTimbre::empty()),
        Some(comp) => match comp.spec_child("TimbreFiscalDigital"@, timbre_ns()) {
            None => Ok(SpecTimbre::empty()),
            Some(t) => match req_attrs(t, timbre_names()) {
                Err(e) => Err(e),
                Ok(vs) => Ok(
                    SpecTimbre {
                        version: vs[0],
                        no_certificado_sat: vs[1],
                        fecha_timbrado: vs[2],
                        rfc_prov_certif: vs[3],
                        sello_cfd: vs[4],
                        uuid: vs[5],
                        sello_sat: vs[6],
                    },
                ),
            },
        },
    }
}

/// Extracts the digital stamp, as [`timbre_spec`] describes.
fn extract_timbre(root: &XmlNode, ns: &str) -> (r: Result<TimbreFiscalDigital, InvoiceError>)
    ensures
        res_view(r) == timbre_spec(*root, ns@),
{
    let comp = match root.get_child("Complemento", ns) {
        None => {
            return Ok(TimbreFiscalDigital::default());
        },
        Some(x) => x,
    };
    let t = match comp.get_child("TimbreFiscalDigital", "http://www.sat.gob.mx/TimbreFiscalDigital") {
        None => {
            return Ok(TimbreFiscalDigital::default());
        },
        Some(x) => x,
    };
    let names: Vec<&str> = vec![
        "Version",
        "NoCertificadoSAT",
        "FechaTimbrado",
        "RfcProvCertif",
        "SelloCFD",
        "UUID",
        "SelloSAT",
    ];
    proof {
        assert(names.deep_view() =~= timbre_names());
    }
    match required_attrs(t, &names) {
        Err(e) => Err(e),
        Ok(vs) => {
            proof {
                assert(vs.deep_view().len() == timbre_names().len());
                assert(vs@.len() == 7);
            }
            let r = TimbreFiscalDigital {
                version: vs[0].clone(),
                no_certificado_sat: vs[1].clone(),
                fecha_timbrado: vs[2].clone(),
                rfc_prov_certif: vs[3].clone(),
                sello_cfd: vs[4].clone(),
                uuid: vs[5].clone(),
                sello_sat: vs[6].clone(),
            };
            proof {
                assert(res_view(Ok::<TimbreFiscalDigital, InvoiceError>(r)) =~= timbre_spec(
                    *root,
                    ns@,
                ));
            }
            Ok(r)
        },
    }
}

/// The attribute table of the root element: all required.
pub open spec fn root_attr_names() -> Seq<Seq<char>> {
    seq![
        "Version"@,
        "Fecha"@,
        "Sello"@,
        "FormaPago"@,
        "NoCertificado"@,
        "Certificado"@,
        "SubTotal"@,
        "Total"@,
        "TipoDeComprobante"@,
        "MetodoPago"@,
        "LugarExpedicion"@,
    ]
}

/// The record a well-named root element extracts to. The root's own default
/// namespace, resolved once, governs every lookup in the main body.
pub open spec fn extract_body_spec(root: XmlNode) -> Result<SpecComprobante, SpecError> {
    let ns = root.ns@;
    match req_attrs(root, root_attr_names()) {
        Err(e) => Err(e),
        Ok(vs) => match conceptos_of(root, ns) {
            Err(e) => Err(e),
            Ok(cs) => match impuestos_spec(root, ns) {
                Err(e) => Err(e),
                Ok(imp) => match timbre_spec(root, ns) {
                    Err(e) => Err(e),
                    Ok(tim) => Ok(
                        SpecComprobante {
                            version: vs[0],
                            fecha: vs[1],
                            sello: vs[2],
                            forma_pago: vs[3],
                            no_certificado: vs[4],
                            certificado: vs[5],
                            sub_total: vs[6],
                            total: vs[7],
                            tipo_de_comprobante: vs[8],
                            metodo_pago: vs[9],
                            lugar_expedicion: vs[10],
                            emisor: match root.spec_child("Emisor"@, ns) {
                                None => SpecEmisor::empty(),
                                Some(e) => emisor_spec(e),
                            },
                            receptor: match root.spec_child("Receptor"@, ns) {
                                None => SpecReceptor::empty(),
                                Some(e) => receptor_spec(e),
                            },
                            conceptos: cs,
                            impuestos: imp,
                            timbre_fiscal_digital: tim,
                        },
                    ),
                },
            },
        },
    }
}

/// How a root element whose local name is not the expected document type
/// name is handled.
#[derive(Debug, Clone, Copy, PartialEq, Eq)]
pub enum RootPolicy {
    /// Yield the all-default record: nothing to extract, not an error.
    Lenient,
    /// Fail the document with `UnexpectedRoot`.
    Strict,
}

/// The expected root-element local name of an invoice record.
pub open spec fn expected_root() -> Seq<char> {
    "Comprobante"@
}

/// What extraction yields, for any tree and either root policy.
pub open spec fn extract_spec(root: XmlNode, policy: RootPolicy) -> Result<
    SpecComprobante,
    SpecError,
> {
    if root.name@ == expected_root() {
        extract_body_spec(root)
    } else {
        match policy {
            RootPolicy::Lenient => Ok(SpecComprobante::empty()),
            RootPolicy::Strict => Err(SpecError::UnexpectedRoot),
        }
    }
}

/// Extracts one normalized record from a parsed element tree, handling an
/// unexpected root element as `policy` says. Extraction never mutates the
/// tree, and the result is pinned field for field by [`extract_spec`].
pub fn extract_comprobante_with(root: &XmlNode, policy: RootPolicy) -> (r: Result<
    Comprobante,
    InvoiceError,
>)
    ensures
        res_view(r) == extract_spec(*root, policy),
{
    if !str_eq(root.name.as_str(), "Comprobante") {
        return match policy {
            RootPolicy::Lenient => Ok(Comprobante::default()),
            RootPolicy::Strict => Err(InvoiceError::UnexpectedRoot),
        };
    }
    let names: Vec<&str> = vec![
        "Version",
        "Fecha",
        "Sello",
        "FormaPago",
        "NoCertificado",
        "Certificado",
        "SubTotal",
        "Total",
        "TipoDeComprobante",
        "MetodoPago",
        "LugarExpedicion",
    ];
    proof {
        assert(names.deep_view() =~= root_attr_names());
    }
    let vs = match required_attrs(root, &names) {
        Ok(vs) => vs,
        Err(e) => {
            return Err(e);
        },
    };
    proof {
        assert(vs.deep_view().len() == root_attr_names().len());
        assert(vs@.len() == 11);
    }
    let ns = root.ns.as_str();
    let emisor = match root.get_child("Emisor", ns) {
        Some(e) => extract_emisor(e),
        None => Emisor::default(),
    };
    let receptor = match root.get_child("Receptor", ns) {
        Some(e) => extract_receptor(e),
        None => Receptor::default(),
    };
    let conceptos = match extract_conceptos(root, ns) {
        Ok(v) => v,
        Err(e) => {
            return Err(e);
        },
    };
    let impuestos = match extract_impuestos(root, ns) {
        Ok(v) => v,
        Err(e) => {
            return Err(e);
        },
    };
    let timbre_fiscal_digital = match extract_timbre(root, ns) {
        Ok(v) => v,
        Err(e) => {
            return Err(e);
        },
    };
    let r = Comprobante {
        version: vs[0].clone(),
        fecha: vs[1].clone(),
        sello: vs[2].clone(),
        forma_pago: vs[3].clone(),
        no_certificado: vs[4].clone(),
        certificado: vs[5].clone(),
        sub_total: vs[6].clone(),
        total: vs[7].clone(),
        tipo_de_comprobante: vs[8].clone(),
        metodo_pago: vs[9].clone(),
        lugar_expedicion: vs[10].clone(),
        emisor,
        receptor,
        conceptos,
        impuestos,
        timbre_fiscal_digital,
    };
    proof {
        assert(res_view(Ok::<Comprobante, InvoiceError>(r)) =~= extract_spec(*root, policy));
    }
    Ok(r)
}

/// Law: extraction is idempotent — two runs of the extractor over the same
/// parsed tree, under the same root policy, yield field-for-field identical
/// records, because each run's result is pinned to `extract_spec` of that
/// tree.
pub proof fn lemma_extract_deterministic(
    root: XmlNode,
    policy: RootPolicy,
    r1: Result<SpecComprobante, SpecError>,
    r2: Result<SpecComprobante, SpecError>,
)
    requires
        r1 == extract_spec(root, policy),
        r2 == extract_spec(root, policy),
    ensures
        r1 == r2,
{
}

/// Law: a line item whose transfer-tax run extracts successfully and is
/// non-empty carries exactly the last transfer-tax element's detail — not
/// the first and not a merge of several.
pub proof fn lemma_item_tax_last_wins(ts: Seq<XmlNode>)
    requires
        item_tax_spec(ts) is Ok,
        ts.len() > 0,
    ensures
        item_tax_spec(ts) == traslado_spec(ts.last()),
{
}

/// Law: a document with no certification complement yields the all-empty
/// digital stamp, and that absence is not an error.
pub proof fn lemma_no_complement_default_stamp(root: XmlNode, ns: Seq<char>)
    requires
        root.spec_child("Complemento"@, ns) is None,
    ensures
        timbre_spec(root, ns) == Ok::<SpecTimbre, SpecError>(SpecTimbre::empty()),
{
}

/// Law: in a record extracted from a document with no certification
/// complement, every digital-stamp field is the empty string.
pub proof fn lemma_no_complement_record(root: XmlNode)
    requires
        root.spec_child("Complemento"@, root.ns@) is None,
        extract_body_spec(root) is Ok,
    ensures
        extract_body_spec(root)->Ok_0.timbre_fiscal_digital == SpecTimbre::empty(),
{
}

/// Law: under the lenient baseline, a document whose root element name is
/// not the expected document type yields the all-default record rather
/// than an error.
pub proof fn lemma_unexpected_root_lenient(root: XmlNode)
    requires
        root.name@ != expected_root(),
    ensures
        extract_spec(root, RootPolicy::Lenient) == Ok::<SpecComprobante, SpecError>(
            SpecComprobante::empty(),
        ),
{
}

proof fn lemma_item_tax_err_kind(ts: Seq<XmlNode>)
    ensures
        item_tax_spec(ts) is Err ==> item_tax_spec(ts)->Err_0 is MissingField,
    decreases ts.len(),
{
    if ts.len() > 0 {
        lemma_item_tax_err_kind(ts.drop_last());
    }
}

proof fn lemma_conceptos_err_kind(cs: Seq<XmlNode>, ns: Seq<char>)
    ensures
        conceptos_spec(cs, ns) is Err ==> conceptos_spec(cs, ns)->Err_0 is MissingField,
    decreases cs.len(),
{
    if cs.len() > 0 {
        lemma_conceptos_err_kind(cs.drop_last(), ns);
        lemma_item_tax_err_kind(item_traslado_nodes(cs.last(), ns));
    }
}

proof fn lemma_traslados_err_kind(ts: Seq<XmlNode>)
    ensures
        traslados_spec(ts) is Err ==> traslados_spec(ts)->Err_0 is MissingField,
    decreases ts.len(),
{
    if ts.len() > 0 {
        lemma_traslados_err_kind(ts.drop_last());
    }
}

/// Law: under the lenient root policy, extraction fails only with a
/// missing-field error — every other shape of document yields a record.
pub proof fn lemma_lenient_err_missing_field(root: XmlNode)
    ensures
        extract_spec(root, RootPolicy::Lenient) is Err ==> extract_spec(
            root,
            RootPolicy::Lenient,
        )->Err_0 is MissingField,
{
    let ns = root.ns@;
    if root.spec_child("Conceptos"@, ns) is Some {
        let cont = root.spec_child("Conceptos"@, ns)->Some_0;
        lemma_conceptos_err_kind(children_named(cont.children@, "Concepto"@), ns);
    }
    if root.spec_child("Impuestos"@, ns) is Some {
        let imp = root.spec_child("Impuestos"@, ns)->Some_0;
        if imp.spec_child("Traslados"@, ns) is Some {
            let tr = imp.spec_child("Traslados"@, ns)->Some_0;
            lemma_traslados_err_kind(children_named(tr.children@, "Traslado"@));
        }
    }
}

/// Extracts one normalized record with the lenient root policy, the
/// documented baseline: a document whose root element is not an invoice
/// record yields the all-default record rather than an error.
pub fn extract_comprobante(root: &XmlNode) -> (r: Result<Comprobante, InvoiceError>)
    ensures
        res_view(r) == extract_spec(*root, RootPolicy::Lenient),
{
    extract_comprobante_with(root, RootPolicy::Lenient)
}

} // verus!
