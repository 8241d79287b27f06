//! Flattens namespaced electronic-invoice documents (CFDI) into fixed-width
//! CSV rows: an XML tree is extracted into a normalized `Comprobante` record,
//! and each record is emitted as one header-block row followed by one detail
//! row per line item, all on a shared 30-column grid.

pub mod error;
pub mod record;
pub mod strutil;
pub mod xml;
pub mod extract;
pub mod flatten;
pub mod batch;

pub use record::Comprobante;
pub use record::Concepto;
pub use record::Emisor;
pub use record::Impuestos;
pub use record::Receptor;
pub use record::TimbreFiscalDigital;
pub use record::Traslado;
