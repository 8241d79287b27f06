//! Per-document processing and batch aggregation.
//!
//! Each document's pipeline — clean, parse, extract, flatten — is
//! independent of every other's. A batch emits one header row, then each
//! document's rows in input order; a document that fails contributes a
//! failure report instead of rows and never disturbs the rest of the
//! batch.

use vstd::prelude::*;
use crate::error::{res_view, InvoiceError, SpecError};
use crate::extract::{
    extract_comprobante, extract_spec, lemma_lenient_err_missing_field, RootPolicy,
};
use crate::flatten::{flatten_record, flatten_spec, header_row};
use crate::record::{Comprobante, SpecComprobante};
use crate::xml::{parse_document, parse_of, spec_clean};

verus! {

/// The outcome of one document's text: the record extracted, under the
/// lenient root policy, from the tree its cleaned text parses to; or the
/// parse error when the cleaned text is not well-formed; or extraction's
/// own error.
pub open spec fn doc_outcome(text: Seq<char>) -> Result<SpecComprobante, SpecError> {
    match parse_of(spec_clean(text)) {
        None => Err(SpecError::Parse),
        Some(t) => extract_spec(t, RootPolicy::Lenient),
    }
}

/// What the per-document pipeline yields for a source identifier and a
/// document's text: the flattening, under that identifier, of the
/// document's extracted record, or the document's error.
pub open spec fn document_spec(source: Seq<char>, text: Seq<char>) -> Result<
    Seq<Seq<char>>,
    SpecError,
> {
    match doc_outcome(text) {
        Ok(rec) => Ok(flatten_spec(source, rec)),
        Err(e) => Err(e),
    }
}

/// An error a single document can come out of the in-memory pipeline with:
/// it failed to parse, or a required attribute was absent.
pub open spec fn is_document_error(e: SpecError) -> bool {
    e == SpecError::Parse || e is MissingField
}

/// Law: the per-document pipeline fails only with a parse or missing-field
/// error; no other kind reaches a batch's failure reports.
pub proof fn lemma_document_err_kind(text: Seq<char>)
    ensures
        doc_outcome(text) is Err ==> is_document_error(doc_outcome(text)->Err_0),
{
    if parse_of(spec_clean(text)) is Some {
        lemma_lenient_err_missing_field(parse_of(spec_clean(text))->Some_0);
    }
}

/// Processes one document's text under the given source identifier: the
/// text is cleaned and parsed, the tree extracted under the lenient root
/// policy, and the record flattened. The result is pinned to
/// [`document_spec`] of the identifier and the text.
pub fn process_document(source: &str, text: &str) -> (r: Result<Vec<String>, InvoiceError>)
    ensures
        res_view(r) == document_spec(source@, text@),
{
    let root = match parse_document(text) {
        Ok(t) => t,
        Err(e) => {
            return Err(e);
        },
    };
    let rec = match extract_comprobante(&root) {
        Ok(c) => c,
        Err(e) => {
            return Err(e);
        },
    };
    let rows = flatten_record(source, &rec);
    proof {
        assert(rows.deep_view() == flatten_spec(source@, rec.deep_view()));
    }
    Ok(rows)
}

/// The rows a run of per-document outcomes contributes after the header
/// row: for each document in order, its flattened rows under its own name
/// when extraction succeeded, nothing when it failed.
pub open spec fn batch_rows(
    names: Seq<Seq<char>>,
    outs: Seq<Result<SpecComprobante, SpecError>>,
) -> Seq<Seq<char>>
    decreases outs.len(),
{
    if outs.len() == 0 {
        Seq::empty()
    } else {
        batch_rows(names.drop_last(), outs.drop_last()) + (match outs.last() {
            Ok(rec) => flatten_spec(names.last(), rec),
            Err(_) => Seq::empty(),
        })
    }
}

/// The failure reports of a run of per-document outcomes: one per failed
/// document, in input order, naming the document and its error.
pub open spec fn batch_failures(
    names: Seq<Seq<char>>,
    outs: Seq<Result<SpecComprobante, SpecError>>,
) -> Seq<(Seq<char>, SpecError)>
    decreases outs.len(),
{
    if outs.len() == 0 {
        Seq::empty()
    } else {
        batch_failures(names.drop_last(), outs.drop_last()) + (match outs.last() {
            Ok(_) => Seq::empty(),
            Err(e) => seq![(names.last(), e)],
        })
    }
}

/// Law: failure isolation — a failed document contributes no rows, so a
/// batch's rows equal those of the batch with the failed document left out
/// entirely, and the other documents' rows are untouched by the failure.
pub proof fn lemma_failed_document_contributes_no_rows(
    names: Seq<Seq<char>>,
    outs: Seq<Result<SpecComprobante, SpecError>>,
    i: int,
)
    requires
        names.len() == outs.len(),
        0 <= i < outs.len(),
        outs[i] is Err,
    ensures
        batch_rows(names, outs) == batch_rows(names.remove(i), outs.remove(i)),
    decreases outs.len(),
{
    if i == outs.len() - 1 {
        assert(names.remove(i) =~= names.drop_last());
        assert(outs.remove(i) =~= outs.drop_last());
    } else {
        lemma_failed_document_contributes_no_rows(names.drop_last(), outs.drop_last(), i);
        assert(names.remove(i).drop_last() =~= names.drop_last().remove(i));
        assert(outs.remove(i).drop_last() =~= outs.drop_last().remove(i));
        assert(names.remove(i).last() == names.last());
        assert(outs.remove(i).last() == outs.last());
        assert(names.remove(i).len() == names.len() - 1);
    }
}

/// What one batch run yields: the aggregated rows, and one failure report
/// per document that could not be processed.
#[derive(Debug, PartialEq)]
pub struct BatchResult {
    /// The header row, then each successful document's rows in input order.
    pub rows: Vec<String>,
    /// The failed documents, in input order, each with its error.
    pub failures: Vec<(String, InvoiceError)>,
}

/// The source identifiers of a batch's documents, in input order.
pub open spec fn doc_names(docs: Seq<(Seq<char>, Seq<char>)>) -> Seq<Seq<char>> {
    docs.map_values(|d: (Seq<char>, Seq<char>)| d.0)
}

/// The per-document outcomes of a batch, in input order: each document's
/// text decides its own outcome.
pub open spec fn batch_outcomes(docs: Seq<(Seq<char>, Seq<char>)>) -> Seq<
    Result<SpecComprobante, SpecError>,
> {
    docs.map_values(|d: (Seq<char>, Seq<char>)| doc_outcome(d.1))
}

/// Processes a batch of documents, each given as a source identifier and
/// its text. The output is pinned to the documents' own outcomes: exactly
/// one header row, then each document's rows in input order
/// ([`batch_rows`]); a document that fails is reported in `failures`
/// ([`batch_failures`]) and contributes no rows, leaving every other
/// document's rows untouched.
pub fn process_batch(docs: &Vec<(String, String)>) -> (r: BatchResult)
    ensures
        r.rows.deep_view() == seq![header_row()] + batch_rows(
            doc_names(docs.deep_view()),
            batch_outcomes(docs.deep_view()),
        ),
        r.failures.deep_view() == batch_failures(
            doc_names(docs.deep_view()),
            batch_outcomes(docs.deep_view()),
        ),
{
    let ghost names = doc_names(docs.deep_view());
    let ghost outs = batch_outcomes(docs.deep_view());
    let mut rows: Vec<String> = Vec::new();
    let mut failures: Vec<(String, InvoiceError)> = Vec::new();
    rows.push(Comprobante::get_headers());
    proof {
        assert(rows.deep_view() =~= seq![header_row()] + batch_rows(names.take(0), outs.take(0)));
        assert(failures.deep_view() =~= batch_failures(names.take(0), outs.take(0)));
    }
    let mut i: usize = 0;
    while i < docs.len()
        invariant
            i <= docs@.len(),
            names == doc_names(docs.deep_view()),
            outs == batch_outcomes(docs.deep_view()),
            names.len() == docs@.len(),
            outs.len() == docs@.len(),
            rows.deep_view() == seq![header_row()] + batch_rows(
                names.take(i as int),
                outs.take(i as int),
            ),
            failures.deep_view() == batch_failures(names.take(i as int), outs.take(i as int)),
        decreases docs@.len() - i,
    {
        let doc = &docs[i];
        let ghost prev_rows = rows.deep_view();
        let ghost prev_failures = failures.deep_view();
        proof {
            assert(names.take(i + 1).drop_last() =~= names.take(i as int));
            assert(outs.take(i + 1).drop_last() =~= outs.take(i as int));
            assert(docs.deep_view()[i as int] == (doc.0@, doc.1@));
            assert(names.take(i + 1).last() == doc.0@);
            assert(outs.take(i + 1).last() == doc_outcome(doc.1@));
        }
        match process_document(doc.0.as_str(), doc.1.as_str()) {
            Ok(mut new_rows) => {
                let ghost new_dv = new_rows.deep_view();
                rows.append(&mut new_rows);
                proof {
                    assert(doc_outcome(doc.1@) matches Ok(rec) && new_dv == flatten_spec(
                        doc.0@,
                        rec,
                    ));
                    assert(rows.deep_view() =~= prev_rows + new_dv);
                    assert(rows.deep_view() =~= seq![header_row()] + batch_rows(
                        names.take(i + 1),
                        outs.take(i + 1),
                    ));
                    assert(failures.deep_view() =~= batch_failures(
                        names.take(i + 1),
                        outs.take(i + 1),
                    ));
                }
            },
            Err(e) => {
                let ghost ev = e.deep_view();
                failures.push((doc.0.clone(), e));
                proof {
                    assert(doc_outcome(doc.1@) == Err::<SpecComprobante, SpecError>(ev));
                    assert(rows.deep_view() =~= seq![header_row()] + batch_rows(
                        names.take(i + 1),
                        outs.take(i + 1),
                    ));
                    assert(failures.deep_view() =~= prev_failures + seq![(doc.0@, ev)]);
                    assert(failures.deep_view() =~= batch_failures(
                        names.take(i + 1),
                        outs.take(i + 1),
                    ));
                }
            },
        }
        i += 1;
    }
    proof {
        assert(names.take(docs@.len() as int) =~= names);
        assert(outs.take(docs@.len() as int) =~= outs);
    }
    BatchResult { rows, failures }
}

} // verus!
