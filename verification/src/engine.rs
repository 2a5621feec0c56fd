//! Trusted boundary to the jsonschema engine: the compiled validator type,
//! the resource registry that reference resolution draws from during
//! compilation, and the build step itself.

use vstd::prelude::*;

verus! {

/// Relies on jsonschema::Validator, the compiled, immutable validation
/// graph. It is held opaquely in a struct of this crate's own because its
/// type cannot be declared here: its generic parameter is bound by an
/// outside trait.
#[verifier::external_body]
pub struct CompiledGraph {
    inner: jsonschema::Validator,
}

/// Relies on jsonschema::Draft, the engine's own draft enumeration.
#[verifier::external_type_specification]
#[verifier::external_body]
pub struct ExDraft(jsonschema::Draft);

/// Relies on jsonschema::RegistryBuilder, the builder of a resource
/// registry.
#[verifier::external_type_specification]
#[verifier::external_body]
pub struct ExRegistryBuilder<'a>(jsonschema::RegistryBuilder<'a>);

/// Relies on jsonschema::Registry, a prepared set of schema resources that
/// reference resolution draws from.
#[verifier::external_type_specification]
#[verifier::external_body]
pub struct ExRegistry<'a>(jsonschema::Registry<'a>);

/// Why a build step failed: a reference to a resource that was not
/// registered (carrying its URI), or any other defect in the schema.
pub(crate) enum BuildFailure {
    Unresolved(String),
    Rejected(String),
}

/// What preparing a registry yields, as a function of the recording
/// history alone.
pub enum PrepareModel {
    /// The resources indexed without a failure.
    Prepared,
    /// A recorded resource references a resource that is not recorded.
    Unresolved,
    /// Any other defect in the recorded resources.
    Rejected,
}

/// What one build step yields, as a function of schema, draft and the
/// recording history alone.
pub enum BuildOutcomeModel {
    /// The compiled graph.
    Built(CompiledGraph),
    /// The schema references a resource that is not recorded.
    Unresolved,
    /// Any other structural defect.
    Rejected,
}

/// No resources at all: the recording history of an empty builder.
pub open spec fn no_resources() -> Seq<(Seq<char>, serde_json::Value)> {
    Seq::empty()
}

/// The recording history of a registry builder: each recorded resource in
/// order, under the exact string it was handed with. The engine normalizes
/// URIs internally, so the history, not a string-keyed mapping, is what the
/// prepared registry is a function of.
pub uninterp spec fn builder_record(b: jsonschema::RegistryBuilder<'static>) -> Seq<
    (Seq<char>, serde_json::Value),
>;

/// The recording history a prepared registry was prepared from.
pub uninterp spec fn registry_record(r: jsonschema::Registry<'static>) -> Seq<
    (Seq<char>, serde_json::Value),
>;

/// Whether a string is accepted as a resource URI when recording it; a
/// function of the string alone.
pub uninterp spec fn uri_recordable(u: Seq<char>) -> bool;

/// What preparing a registry over the given recording history yields;
/// preparation fetches nothing and reads no outside state. Which of several
/// missing references a failure names is not pinned: the engine walks its
/// internal sets in an order seeded per process.
pub uninterp spec fn prepare_outcome(record: Seq<(Seq<char>, serde_json::Value)>) -> PrepareModel;

/// The external references that preparing the recorded resources leaves
/// unresolved; a function of the recording history.
pub uninterp spec fn missing_refs(record: Seq<(Seq<char>, serde_json::Value)>) -> Set<Seq<char>>;

/// What building a schema against the given draft and recording history
/// yields; the build fetches nothing and reads no outside state. As with
/// preparation, which missing reference a failure names is not pinned.
pub uninterp spec fn build_outcome(
    schema: serde_json::Value,
    draft: Option<jsonschema::Draft>,
    record: Seq<(Seq<char>, serde_json::Value)>,
) -> BuildOutcomeModel;

/// The external references that building the schema leaves unresolved; a
/// function of schema, draft and the recording history.
pub uninterp spec fn build_missing_refs(
    schema: serde_json::Value,
    draft: Option<jsonschema::Draft>,
    record: Seq<(Seq<char>, serde_json::Value)>,
) -> Set<Seq<char>>;

/// The engine's draft value standing for each supported revision.
pub uninterp spec fn upstream_draft(d: crate::draft::DraftVersion) -> jsonschema::Draft;

/// The draft a hint pins the build to: the upstream value of the recognized
/// draft, nothing for an absent or unrecognized hint.
pub open spec fn selected_upstream_draft(hint: Option<String>) -> Option<jsonschema::Draft> {
    match crate::draft::spec_selected_draft(hint) {
        Some(d) => Some(upstream_draft(d)),
        None => None,
    }
}

/// Relies on jsonschema::Draft naming the five supported revisions; the
/// variant-to-variant map is pure, so its result stands under a name.
#[verifier::external_body]
pub(crate) fn draft_to_upstream(d: crate::draft::DraftVersion) -> (r: jsonschema::Draft)
    ensures
        r == upstream_draft(d),
{
    match d {
        crate::draft::DraftVersion::Draft4 => jsonschema::Draft::Draft4,
        crate::draft::DraftVersion::Draft6 => jsonschema::Draft::Draft6,
        crate::draft::DraftVersion::Draft7 => jsonschema::Draft::Draft7,
        crate::draft::DraftVersion::Draft201909 => jsonschema::Draft::Draft201909,
        crate::draft::DraftVersion::Draft202012 => jsonschema::Draft::Draft202012,
    }
}

/// Relies on jsonschema::Registry::new returning an empty resource-registry
/// builder.
#[verifier::external_body]
pub(crate) fn registry_builder_new() -> (r: jsonschema::RegistryBuilder<'static>)
    ensures
        builder_record(r) == no_resources(),
{
    jsonschema::Registry::new()
}

/// Relies on RegistryBuilder::add: it records `doc` as the resource at
/// `uri`, failing exactly when the URI string is not accepted, and on
/// nothing else.
#[verifier::external_body]
pub(crate) fn registry_builder_add(
    b: jsonschema::RegistryBuilder<'static>,
    uri: &String,
    doc: &serde_json::Value,
) -> (r: Result<jsonschema::RegistryBuilder<'static>, BuildFailure>)
    ensures
        r is Ok <==> uri_recordable(uri@),
        r matches Ok(next) ==> builder_record(next) == builder_record(b).push((uri@, *doc)),
        r matches Err(f) ==> f is Rejected,
{
    match b.add(uri, jsonschema::Resource::from_contents(doc.clone())) {
        Ok(next) => Ok(next),
        Err(e) => Err(BuildFailure::Rejected(e.to_string())),
    }
}

/// Relies on RegistryBuilder::prepare: it indexes the recorded resources,
/// fetching nothing itself, so a reference from one recorded resource to an
/// unrecorded one fails, naming one of the missing resources; the outcome
/// is a function of the recording history.
#[verifier::external_body]
pub(crate) fn registry_builder_prepare(b: jsonschema::RegistryBuilder<'static>) -> (r: Result<
    jsonschema::Registry<'static>,
    BuildFailure,
>)
    ensures
        ({
            let out = prepare_outcome(builder_record(b));
            match r {
                Ok(reg) => out is Prepared && registry_record(reg) == builder_record(b),
                Err(BuildFailure::Unresolved(u)) => out is Unresolved && missing_refs(
                    builder_record(b),
                ).contains(u@),
                Err(BuildFailure::Rejected(_)) => out is Rejected,
            }
        }),
{
    match b.prepare() {
        Ok(r) => Ok(r),
        Err(jsonschema::ReferencingError::Unretrievable { uri, .. }) => Err(
            BuildFailure::Unresolved(uri),
        ),
        Err(e) => Err(BuildFailure::Rejected(e.to_string())),
    }
}

/// Relies on jsonschema's ValidationOptions: `build` compiles `schema`
/// against the resources in `registry`, resolving every reference eagerly,
/// with format validation enforced unconditionally and keyword semantics
/// pinned to `draft`. The options are set to work offline, so nothing is
/// fetched from the network or from disk: a reference to an unregistered
/// resource fails, naming one of the missing resources, and the outcome is
/// a function of schema, draft and the registry's recording history.
#[verifier::external_body]
pub(crate) fn build_pinned(
    schema: &serde_json::Value,
    draft: jsonschema::Draft,
    registry: &jsonschema::Registry<'static>,
) -> (r: Result<CompiledGraph, BuildFailure>)
    ensures
        ({
            let out = build_outcome(*schema, Some(draft), registry_record(*registry));
            match r {
                Ok(g) => out == BuildOutcomeModel::Built(g),
                Err(BuildFailure::Unresolved(u)) => out is Unresolved && build_missing_refs(
                    *schema,
                    Some(draft),
                    registry_record(*registry),
                ).contains(u@),
                Err(BuildFailure::Rejected(_)) => out is Rejected,
            }
        }),
{
    let options = jsonschema::options().offline().with_registry(registry).should_validate_formats(
        true,
    ).with_draft(draft);
    match options.build(schema) {
        Ok(v) => Ok(CompiledGraph { inner: v }),
        Err(e) => match e.kind() {
            jsonschema::error::ValidationErrorKind::Referencing(
                jsonschema::ReferencingError::Unretrievable { uri, .. },
            ) => Err(BuildFailure::Unresolved(uri.clone())),
            _ => Err(BuildFailure::Rejected(e.to_string())),
        },
    }
}

/// Relies on jsonschema's ValidationOptions as `build_pinned` does, also
/// offline, with no draft pinned: keyword semantics are auto-detected from
/// the schema's own meta-schema reference, defaulting to the newest
/// supported draft.
#[verifier::external_body]
pub(crate) fn build_detected(
    schema: &serde_json::Value,
    registry: &jsonschema::Registry<'static>,
) -> (r: Result<CompiledGraph, BuildFailure>)
    ensures
        ({
            let out = build_outcome(*schema, None, registry_record(*registry));
            match r {
                Ok(g) => out == BuildOutcomeModel::Built(g),
                Err(BuildFailure::Unresolved(u)) => out is Unresolved && build_missing_refs(
                    *schema,
                    None,
                    registry_record(*registry),
                ).contains(u@),
                Err(BuildFailure::Rejected(_)) => out is Rejected,
            }
        }),
{
    let options = jsonschema::options().offline().with_registry(registry).should_validate_formats(
        true,
    );
    match options.build(schema) {
        Ok(v) => Ok(CompiledGraph { inner: v }),
        Err(e) => match e.kind() {
            jsonschema::error::ValidationErrorKind::Referencing(
                jsonschema::ReferencingError::Unretrievable { uri, .. },
            ) => Err(BuildFailure::Unresolved(uri.clone())),
            _ => Err(BuildFailure::Rejected(e.to_string())),
        },
    }
}

/// Whether the compiled validator accepts the instance; a function of the
/// two alone, since validation reads no outside state.
pub uninterp spec fn validator_accepts(v: CompiledGraph, instance: serde_json::Value) -> bool;

/// Relies on jsonschema::Validator::is_valid, the boolean fast path: it
/// short-circuits on the first failure and builds no error records.
#[verifier::external_body]
pub(crate) fn validator_is_valid(v: &CompiledGraph, instance: &serde_json::Value) -> (r: bool)
    ensures
        r == validator_accepts(*v, *instance),
{
    v.inner.is_valid(instance)
}

/// The ordered sequence of keyword-failure records that detailed validation
/// reports for the instance; a function of the two alone, since validation
/// reads no outside state.
pub uninterp spec fn validator_error_seq(v: CompiledGraph, instance: serde_json::Value) -> Seq<
    crate::validator::ErrorModel,
>;

/// Relies on jsonschema::Validator::iter_errors: it yields the complete,
/// ordered keyword failures of the instance, each carrying its instance
/// location, its schema location and a readable, non-empty message, and it
/// yields none exactly when the instance is valid. Each location is a JSON
/// Pointer: empty at the document root, otherwise beginning with a slash.
#[verifier::external_body]
pub(crate) fn validator_iter_errors(v: &CompiledGraph, instance: &serde_json::Value) -> (r: Vec<
    crate::validator::AjvError,
>)
    ensures
        r@.map_values(|e: crate::validator::AjvError| e@) == validator_error_seq(*v, *instance),
        (r@.len() == 0) <==> validator_accepts(*v, *instance),
        forall|k: int|
            0 <= k < r@.len() ==> ((#[trigger] r@[k]).instance_path@.len() == 0
                || r@[k].instance_path@[0] == '/') && (r@[k].schema_path@.len() == 0
                || r@[k].schema_path@[0] == '/') && r@[k].message@.len() > 0,
{
    v.inner.iter_errors(instance).map(|e| crate::validator::AjvError {
        message: e.to_string(),
        instance_path: e.instance_path().to_string(),
        schema_path: e.schema_path().to_string(),
    }).collect()
}

} // verus!
