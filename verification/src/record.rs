//! The normalized invoice record and its substructures.
//!
//! All leaf fields are raw text: numeric and date fields of the source format
//! are opaque strings at this layer. Every record, once extracted, is
//! structurally complete: all substructures are present, possibly with
//! all-empty fields.
//!
//! Each executable struct has a ghost counterpart over `Seq<char>` (its
//! `deep_view`), which is what all contracts in this crate speak of.

use vstd::prelude::*;

verus! {

/// Ghost counterpart of [`Traslado`].
#[verifier::ext_equal]
pub struct SpecTraslado {
    pub tasa_o_cuota: Seq<char>,
    pub importe: Seq<char>,
    pub base: Seq<char>,
    pub tipo_factor: Seq<char>,
    pub impuesto: Seq<char>,
}

impl SpecTraslado {
    /// The all-empty transfer-tax detail.
    pub open spec fn empty() -> Self {
        SpecTraslado {
            tasa_o_cuota: Seq::empty(),
            importe: Seq::empty(),
            base: Seq::empty(),
            tipo_factor: Seq::empty(),
            impuesto: Seq::empty(),
        }
    }
}

/// One transfer-tax entry: a pure value type, no identity beyond its fields.
#[derive(Debug, PartialEq)]
pub struct Traslado {
    pub tasa_o_cuota: String,
    pub importe: String,
    pub base: String,
    pub tipo_factor: String,
    pub impuesto: String,
}

impl DeepView for Traslado {
    type V = SpecTraslado;

    open spec fn deep_view(&self) -> SpecTraslado {
        SpecTraslado {
            tasa_o_cuota: self.tasa_o_cuota@,
            importe: self.importe@,
            base: self.base@,
            tipo_factor: self.tipo_factor@,
            impuesto: self.impuesto@,
        }
    }
}

impl Default for Traslado {
    fn default() -> (r: Self)
        ensures
            r.deep_view() == SpecTraslado::empty(),
    {
        let r = Traslado {
            tasa_o_cuota: String::new(),
            importe: String::new(),
            base: String::new(),
            tipo_factor: String::new(),
            impuesto: String::new(),
        };
        proof {
            assert(r.deep_view() =~= SpecTraslado::empty());
        }
        r
    }
}

/// Ghost counterpart of [`Emisor`].
#[verifier::ext_equal]
pub struct SpecEmisor {
    pub rfc: Seq<char>,
    pub nombre: Seq<char>,
    pub regimen_fiscal: Seq<char>,
}

impl SpecEmisor {
    /// The all-empty issuer.
    pub open spec fn empty() -> Self {
        SpecEmisor { rfc: Seq::empty(), nombre: Seq::empty(), regimen_fiscal: Seq::empty() }
    }
}

/// The issuer of the invoice.
#[derive(Debug, PartialEq)]
pub struct Emisor {
    pub rfc: String,
    pub nombre: String,
    pub regimen_fiscal: String,
}

impl DeepView for Emisor {
    type V = SpecEmisor;

    open spec fn deep_view(&self) -> SpecEmisor {
        SpecEmisor { rfc: self.rfc@, nombre: self.nombre@, regimen_fiscal: self.regimen_fiscal@ }
    }
}

impl Default for Emisor {
    fn default() -> (r: Self)
        ensures
            r.deep_view() == SpecEmisor::empty(),
    {
        let r = Emisor { rfc: String::new(), nombre: String::new(), regimen_fiscal: String::new() };
        proof {
            assert(r.deep_view() =~= SpecEmisor::empty());
        }
        r
    }
}

/// Ghost counterpart of [`Receptor`].
#[verifier::ext_equal]
pub struct SpecReceptor {
    pub rfc: Seq<char>,
    pub nombre: Seq<char>,
    pub uso_cfdi: Seq<char>,
    pub domicilio_fiscal: Seq<char>,
    pub regimen_fiscal: Seq<char>,
}

impl SpecReceptor {
    /// The all-empty recipient.
    pub open spec fn empty() -> Self {
        SpecReceptor {
            rfc: Seq::empty(),
            nombre: Seq::empty(),
            uso_cfdi: Seq::empty(),
            domicilio_fiscal: Seq::empty(),
            regimen_fiscal: Seq::empty(),
        }
    }
}

/// The recipient of the invoice.
#[derive(Debug, PartialEq)]
pub struct Receptor {
    pub rfc: String,
    pub nombre: String,
    pub uso_cfdi: String,
    pub domicilio_fiscal: String,
    pub regimen_fiscal: String,
}

impl DeepView for Receptor {
    type V = SpecReceptor;

    open spec fn deep_view(&self) -> SpecReceptor {
        SpecReceptor {
            rfc: self.rfc@,
            nombre: self.nombre@,
            uso_cfdi: self.uso_cfdi@,
            domicilio_fiscal: self.domicilio_fiscal@,
            regimen_fiscal: self.regimen_fiscal@,
        }
    }
}

impl Default for Receptor {
    fn default() -> (r: Self)
        ensures
            r.deep_view() == SpecReceptor::empty(),
    {
        let r = Receptor {
            rfc: String::new(),
            nombre: String::new(),
            uso_cfdi: String::new(),
            domicilio_fiscal: String::new(),
            regimen_fiscal: String::new(),
        };
        proof {
            assert(r.deep_view() =~= SpecReceptor::empty());
        }
        r
    }
}

/// Ghost counterpart of [`Concepto`].
#[verifier::ext_equal]
pub struct SpecConcepto {
    pub objeto_imp: Seq<char>,
    pub valor_unitario: Seq<char>,
    pub importe: Seq<char>,
    pub clave_prod_serv: Seq<char>,
    pub descripcion: Seq<char>,
    pub cantidad: Seq<char>,
    pub clave_unidad: Seq<char>,
    pub impuestos: SpecTraslado,
}

impl SpecConcepto {
    /// The all-empty line item.
    pub open spec fn empty() -> Self {
        SpecConcepto {
            objeto_imp: Seq::empty(),
            valor_unitario: Seq::empty(),
            importe: Seq::empty(),
            clave_prod_serv: Seq::empty(),
            descripcion: Seq::empty(),
            cantidad: Seq::empty(),
            clave_unidad: Seq::empty(),
            impuestos: SpecTraslado::empty(),
        }
    }
}

/// One line item. It owns at most one transfer-tax detail; when the source
/// document carries several, the last one seen wins (`impuestos` stays
/// all-empty when there is none).
#[derive(Debug, PartialEq)]
pub struct Concepto {
    pub objeto_imp: String,
    pub valor_unitario: String,
    pub importe: String,
    pub clave_prod_serv: String,
    pub descripcion: String,
    pub cantidad: String,
    pub clave_unidad: String,
    pub impuestos: Traslado,
}

impl DeepView for Concepto {
    type V = SpecConcepto;

    open spec fn deep_view(&self) -> SpecConcepto {
        SpecConcepto {
            objeto_imp: self.objeto_imp@,
            valor_unitario: self.valor_unitario@,
            importe: self.importe@,
            clave_prod_serv: self.clave_prod_serv@,
            descripcion: self.descripcion@,
            cantidad: self.cantidad@,
            clave_unidad: self.clave_unidad@,
            impuestos: self.impuestos.deep_view(),
        }
    }
}

impl Default for Concepto {
    fn default() -> (r: Self)
        ensures
            r.deep_view() == SpecConcepto::empty(),
    {
        let r = Concepto {
            objeto_imp: String::new(),
            valor_unitario: String::new(),
            importe: String::new(),
            clave_prod_serv: String::new(),
            descripcion: String::new(),
            cantidad: String::new(),
            clave_unidad: String::new(),
            impuestos: Traslado::default(),
        };
        proof {
            assert(r.deep_view() =~= SpecConcepto::empty());
        }
        r
    }
}

/// Ghost counterpart of [`Impuestos`].
#[verifier::ext_equal]
pub struct SpecImpuestos {
    pub total_impuestos_trasladados: Seq<char>,
    pub traslados: Seq<SpecTraslado>,
}

impl SpecImpuestos {
    /// The all-empty document-level tax summary.
    pub open spec fn empty() -> Self {
        SpecImpuestos { total_impuestos_trasladados: Seq::empty(), traslados: Seq::empty() }
    }
}

/// The document-level tax summary. Unlike a line item, it accumulates all of
/// its transfer-tax entries in document order.
#[derive(Debug, PartialEq)]
pub struct Impuestos {
    pub total_impuestos_trasladados: String,
    pub traslados: Vec<Traslado>,
}

impl DeepView for Impuestos {
    type V = SpecImpuestos;

    open spec fn deep_view(&self) -> SpecImpuestos {
        SpecImpuestos {
            total_impuestos_trasladados: self.total_impuestos_trasladados@,
            traslados: self.traslados.deep_view(),
        }
    }
}

impl Default for Impuestos {
    fn default() -> (r: Self)
        ensures
            r.deep_view() == SpecImpuestos::empty(),
    {
        let r = Impuestos { total_impuestos_trasladados: String::new(), traslados: Vec::new() };
        proof {
            assert(r.deep_view() =~= SpecImpuestos::empty());
        }
        r
    }
}

/// Ghost counterpart of [`TimbreFiscalDigital`].
#[verifier::ext_equal]
pub struct SpecTimbre {
    pub version: Seq<char>,
    pub uuid: Seq<char>,
    pub fecha_timbrado: Seq<char>,
    pub rfc_prov_certif: Seq<char>,
    pub sello_cfd: Seq<char>,
    pub no_certificado_sat: Seq<char>,
    pub sello_sat: Seq<char>,
}

impl SpecTimbre {
    /// The all-empty digital stamp, used when a document carries no
    /// certification complement.
    pub open spec fn empty() -> Self {
        SpecTimbre {
            version: Seq::empty(),
            uuid: Seq::empty(),
            fecha_timbrado: Seq::empty(),
            rfc_prov_certif: Seq::empty(),
            sello_cfd: Seq::empty(),
            no_certificado_sat: Seq::empty(),
            sello_sat: Seq::empty(),
        }
    }
}

/// The digital-stamp certification block. Present only when the document
/// carries a certification complement; all-empty otherwise.
#[derive(Debug, PartialEq)]
pub struct TimbreFiscalDigital {
    pub version: String,
    pub uuid: String,
    pub fecha_timbrado: String,
    pub rfc_prov_certif: String,
    pub sello_cfd: String,
    pub no_certificado_sat: String,
    pub sello_sat: String,
}

impl DeepView for TimbreFiscalDigital {
    type V = SpecTimbre;

    open spec fn deep_view(&self) -> SpecTimbre {
        SpecTimbre {
            version: self.version@,
            uuid: self.uuid@,
            fecha_timbrado: self.fecha_timbrado@,
            rfc_prov_certif: self.rfc_prov_certif@,
            sello_cfd: self.sello_cfd@,
            no_certificado_sat: self.no_certificado_sat@,
            sello_sat: self.sello_sat@,
        }
    }
}

impl Default for TimbreFiscalDigital {
    fn default() -> (r: Self)
        ensures
            r.deep_view() == SpecTimbre::empty(),
    {
        let r = TimbreFiscalDigital {
            version: String::new(),
            uuid: String::new(),
            fecha_timbrado: String::new(),
            rfc_prov_certif: String::new(),
            sello_cfd: String::new(),
            no_certificado_sat: String::new(),
            sello_sat: String::new(),
        };
        proof {
            assert(r.deep_view() =~= SpecTimbre::empty());
        }
        r
    }
}

/// Ghost counterpart of [`Comprobante`].
#[verifier::ext_equal]
pub struct SpecComprobante {
    pub version: Seq<char>,
    pub fecha: Seq<char>,
    pub sello: Seq<char>,
    pub forma_pago: Seq<char>,
    pub no_certificado: Seq<char>,
    pub certificado: Seq<char>,
    pub sub_total: Seq<char>,
    pub total: Seq<char>,
    pub tipo_de_comprobante: Seq<char>,
    pub metodo_pago: Seq<char>,
    pub lugar_expedicion: Seq<char>,
    pub emisor: SpecEmisor,
    pub receptor: SpecReceptor,
    pub conceptos: Seq<SpecConcepto>,
    pub impuestos: SpecImpuestos,
    pub timbre_fiscal_digital: SpecTimbre,
}

impl SpecComprobante {
    /// The all-default record: every field empty, no line items.
    pub open spec fn empty() -> Self {
        SpecComprobante {
            version: Seq::empty(),
            fecha: Seq::empty(),
            sello: Seq::empty(),
            forma_pago: Seq::empty(),
            no_certificado: Seq::empty(),
            certificado: Seq::empty(),
            sub_total: Seq::empty(),
            total: Seq::empty(),
            tipo_de_comprobante: Seq::empty(),
            metodo_pago: Seq::empty(),
            lugar_expedicion: Seq::empty(),
            emisor: SpecEmisor::empty(),
            receptor: SpecReceptor::empty(),
            conceptos: Seq::empty(),
            impuestos: SpecImpuestos::empty(),
            timbre_fiscal_digital: SpecTimbre::empty(),
        }
    }
}

/// The root invoice record: constructed once per source document, immutable
/// after extraction.
#[derive(Debug, PartialEq)]
pub struct Comprobante {
    pub version: String,
    pub fecha: String,
    pub sello: String,
    pub forma_pago: String,
    pub no_certificado: String,
    pub certificado: String,
    pub sub_total: String,
    pub total: String,
    pub tipo_de_comprobante: String,
    pub metodo_pago: String,
    pub lugar_expedicion: String,
    pub emisor: Emisor,
    pub receptor: Receptor,
    pub conceptos: Vec<Concepto>,
    pub impuestos: Impuestos,
    pub timbre_fiscal_digital: TimbreFiscalDigital,
}

impl DeepView for Comprobante {
    type V = SpecComprobante;

    open spec fn deep_view(&self) -> SpecComprobante {
        SpecComprobante {
            version: self.version@,
            fecha: self.fecha@,
            sello: self.sello@,
            forma_pago: self.forma_pago@,
            no_certificado: self.no_certificado@,
            certificado: self.certificado@,
            sub_total: self.sub_total@,
            total: self.total@,
            tipo_de_comprobante: self.tipo_de_comprobante@,
            metodo_pago: self.metodo_pago@,
            lugar_expedicion: self.lugar_expedicion@,
            emisor: self.emisor.deep_view(),
            receptor: self.receptor.deep_view(),
            conceptos: self.conceptos.deep_view(),
            impuestos: self.impuestos.deep_view(),
            timbre_fiscal_digital: self.timbre_fiscal_digital.deep_view(),
        }
    }
}

impl Default for Comprobante {
    fn default() -> (r: Self)
        ensures
            r.deep_view() == SpecComprobante::empty(),
    {
        let r = Comprobante {
            version: String::new(),
            fecha: String::new(),
            sello: String::new(),
            forma_pago: String::new(),
            no_certificado: String::new(),
            certificado: String::new(),
            sub_total: String::new(),
            total: String::new(),
            tipo_de_comprobante: String::new(),
            metodo_pago: String::new(),
            lugar_expedicion: String::new(),
            emisor: Emisor::default(),
            receptor: Receptor::default(),
            conceptos: Vec::new(),
            impuestos: Impuestos::default(),
            timbre_fiscal_digital: TimbreFiscalDigital::default(),
        };
        proof {
            assert(r.deep_view() =~= SpecComprobante::empty());
        }
        r
    }
}

} // verus!
