//! The compiled validator handle and its validation outcomes: a boolean
//! fast path, and a detailed report whose error records carry the failing
//! instance location and the schema location that rejected it.

use vstd::prelude::*;

use crate::engine::{
    validator_accepts, validator_error_seq, validator_is_valid, validator_iter_errors,
    CompiledGraph,
};
use crate::json::{parse_bytes, parse_text, parsed_bytes_document, parsed_text_document};

verus! {

/// One keyword failure: a readable message, the JSON-Pointer-style path to
/// the offending value in the instance, and the analogous path to the
/// rejecting keyword in the schema.
pub struct AjvError {
    pub message: String,
    pub instance_path: String,
    pub schema_path: String,
}

/// The mathematical content of an error record.
pub struct ErrorModel {
    pub message: Seq<char>,
    pub instance_path: Seq<char>,
    pub schema_path: Seq<char>,
}

impl View for AjvError {
    type V = ErrorModel;

    open spec fn view(&self) -> ErrorModel {
        ErrorModel {
            message: self.message@,
            instance_path: self.instance_path@,
            schema_path: self.schema_path@,
        }
    }
}

/// Every record locates its subject with JSON-Pointer-style paths — empty
/// at the document root, otherwise beginning with a slash — and carries a
/// non-empty message.
pub open spec fn well_formed_records(errs: Seq<AjvError>) -> bool {
    forall|k: int|
        0 <= k < errs.len() ==> ((#[trigger] errs[k]).instance_path@.len() == 0
            || errs[k].instance_path@[0] == '/') && (errs[k].schema_path@.len() == 0
            || errs[k].schema_path@[0] == '/') && errs[k].message@.len() > 0
}

/// A validation outcome: `valid` with no payload, or invalid with the
/// complete ordered sequence of error records.
pub struct ValidationResult {
    pub valid: bool,
    pub errors: Option<Vec<AjvError>>,
}

/// The instance text or buffer was not valid JSON; validation never ran.
#[derive(Debug)]
pub struct InvalidJson {
    pub message: String,
}

/// A compiled validator: immutable after compilation, shareable, and
/// reusable for any number of validations.
pub struct NapiValidator {
    graph: CompiledGraph,
}

impl View for NapiValidator {
    type V = CompiledGraph;

    closed spec fn view(&self) -> CompiledGraph {
        self.graph
    }
}

impl NapiValidator {
    /// Wrap a freshly compiled graph.
    pub(crate) fn from_graph(graph: CompiledGraph) -> (r: NapiValidator)
        ensures
            r@ == graph,
    {
        NapiValidator { graph }
    }

    /// The boolean fast path: whether the instance satisfies the schema.
    /// No error records are built.
    pub fn is_valid(&self, data: &serde_json::Value) -> (r: bool)
        ensures
            r == validator_accepts(self@, *data),
    {
        validator_is_valid(&self.graph, data)
    }

    /// Shared body of the detailed checks: the boolean verdict, and on
    /// failure the complete ordered error report.
    fn validate_impl(&self, data: &serde_json::Value) -> (r: ValidationResult)
        ensures
            r.valid == validator_accepts(self@, *data),
            r.valid <==> r.errors is None,
            r.errors matches Some(errs) ==> errs@.map_values(|e: AjvError| e@)
                == validator_error_seq(self@, *data) && errs@.len() > 0 && well_formed_records(
                errs@,
            ),
    {
        if validator_is_valid(&self.graph, data) {
            ValidationResult { valid: true, errors: None }
        } else {
            let errors = validator_iter_errors(&self.graph, data);
            ValidationResult { valid: false, errors: Some(errors) }
        }
    }

    /// The detailed check of an already-parsed instance. Agrees with
    /// `is_valid` on the verdict; on failure the report holds the complete
    /// ordered error records, never zero of them.
    pub fn validate(&self, data: serde_json::Value) -> (r: ValidationResult)
        ensures
            r.valid == validator_accepts(self@, data),
            r.valid <==> r.errors is None,
            r.errors matches Some(errs) ==> errs@.map_values(|e: AjvError| e@)
                == validator_error_seq(self@, data) && errs@.len() > 0 && well_formed_records(
                errs@,
            ),
    {
        self.validate_impl(&data)
    }

    /// The detailed check of an instance given as JSON text. Fails exactly
    /// when the text is not valid JSON; otherwise reports on the document
    /// the text parses to.
    pub fn validate_string(&self, data_str: String) -> (r: Result<ValidationResult, InvalidJson>)
        ensures
            r is Ok <==> parsed_text_document(data_str@) is Some,
            r matches Ok(vr) ==> parsed_text_document(data_str@) matches Some(doc) && {
                &&& vr.valid == validator_accepts(self@, doc)
                &&& vr.valid <==> vr.errors is None
                &&& (vr.errors matches Some(errs) ==> errs@.map_values(|e: AjvError| e@)
                    == validator_error_seq(self@, doc) && errs@.len() > 0 && well_formed_records(
                    errs@,
                ))
            },
    {
        match parse_text(data_str.as_str()) {
            Ok(doc) => Ok(self.validate_impl(&doc)),
            Err(message) => Err(InvalidJson { message }),
        }
    }

    /// The detailed check of an instance given as a JSON byte buffer. Fails
    /// exactly when the bytes are not valid JSON; otherwise reports on the
    /// document the bytes parse to.
    pub fn validate_buffer(&self, buffer: Vec<u8>) -> (r: Result<ValidationResult, InvalidJson>)
        ensures
            r is Ok <==> parsed_bytes_document(buffer@) is Some,
            r matches Ok(vr) ==> parsed_bytes_document(buffer@) matches Some(doc) && {
                &&& vr.valid == validator_accepts(self@, doc)
                &&& vr.valid <==> vr.errors is None
                &&& (vr.errors matches Some(errs) ==> errs@.map_values(|e: AjvError| e@)
                    == validator_error_seq(self@, doc) && errs@.len() > 0 && well_formed_records(
                    errs@,
                ))
            },
    {
        match parse_bytes(buffer) {
            Ok(doc) => Ok(self.validate_impl(&doc)),
            Err(message) => Err(InvalidJson { message }),
        }
    }

    /// The boolean fast path for a JSON byte buffer. Fails exactly when the
    /// bytes are not valid JSON; agrees with the detailed check on the
    /// verdict.
    pub fn is_valid_buffer(&self, buffer: Vec<u8>) -> (r: Result<bool, InvalidJson>)
        ensures
            r is Ok <==> parsed_bytes_document(buffer@) is Some,
            r matches Ok(b) ==> parsed_bytes_document(buffer@) matches Some(doc) && b
                == validator_accepts(self@, doc),
    {
        match parse_bytes(buffer) {
            Ok(doc) => Ok(validator_is_valid(&self.graph, &doc)),
            Err(message) => Err(InvalidJson { message }),
        }
    }

    /// The boolean fast path for JSON text. Fails exactly when the text is
    /// not valid JSON; agrees with the detailed check on the verdict.
    pub fn is_valid_string(&self, data_str: String) -> (r: Result<bool, InvalidJson>)
        ensures
            r is Ok <==> parsed_text_document(data_str@) is Some,
            r matches Ok(b) ==> parsed_text_document(data_str@) matches Some(doc) && b
                == validator_accepts(self@, doc),
    {
        match parse_text(data_str.as_str()) {
            Ok(doc) => Ok(validator_is_valid(&self.graph, &doc)),
            Err(message) => Err(InvalidJson { message }),
        }
    }
}

} // verus!
