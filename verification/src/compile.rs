//! Compilation: a schema document, a draft hint and the registry's
//! point-in-time view are turned into a compiled validator. Every reference
//! is resolved eagerly: whenever the build step names a resource it could
//! not reach, that URI is resolved through the registry's lenient resolver,
//! the document is recorded among the build's resources, and the build is
//! retried. Which of several missing references the engine names first is
//! its own choice, so `compile_can_yield` states the closure as a relation,
//! and `compile` returns one of the outcomes it admits.

use vstd::prelude::*;

use crate::draft::select_draft;
use crate::engine::{
    build_detected, build_missing_refs, build_outcome, build_pinned, builder_record,
    draft_to_upstream, missing_refs, no_resources, prepare_outcome, registry_builder_add,
    registry_builder_new, registry_builder_prepare, selected_upstream_draft,
    uri_recordable, BuildFailure, BuildOutcomeModel, CompiledGraph, PrepareModel,
};
use crate::registry::{resolve_spec, Ajv};
use crate::validator::NapiValidator;

verus! {

/// Why a compilation failed.
#[derive(Debug)]
pub enum CompileError {
    /// A reference could not be resolved through any of the resolver's
    /// attempts; carries the URI as the build step reported it.
    SchemaNotFound { uri: String },
    /// Any other structural defect that prevents an executable graph from
    /// being built; carries a readable cause.
    InvalidSchema { reason: String },
}

/// The recording history that a gathered list of resources denotes: each
/// pair as the exact string it will be recorded under, in order.
pub open spec fn record_of(s: Seq<(String, serde_json::Value)>) -> Seq<
    (Seq<char>, serde_json::Value),
> {
    s.map_values(|p: (String, serde_json::Value)| (p.0@, p.1))
}

/// What one gathering-and-building step yields over the resources gathered
/// so far: recording fails on a URI string that is not accepted; otherwise
/// the resources are prepared as a registry, and the schema is built
/// against it.
pub open spec fn step_outcome(
    schema: serde_json::Value,
    draft: Option<jsonschema::Draft>,
    record: Seq<(Seq<char>, serde_json::Value)>,
) -> BuildOutcomeModel {
    if exists|i: int| 0 <= i < record.len() && !uri_recordable(record[i].0) {
        BuildOutcomeModel::Rejected
    } else {
        match prepare_outcome(record) {
            PrepareModel::Prepared => build_outcome(schema, draft, record),
            PrepareModel::Unresolved => BuildOutcomeModel::Unresolved,
            PrepareModel::Rejected => BuildOutcomeModel::Rejected,
        }
    }
}

/// The missing references a failed step may name: those of preparation when
/// it failed, those of the build otherwise.
pub open spec fn step_missing(
    schema: serde_json::Value,
    draft: Option<jsonschema::Draft>,
    record: Seq<(Seq<char>, serde_json::Value)>,
) -> Set<Seq<char>> {
    if prepare_outcome(record) is Unresolved {
        missing_refs(record)
    } else {
        build_missing_refs(schema, draft, record)
    }
}

/// What compilation yields: the graph of a successful build over the
/// finally gathered resources, the URI of a reference on which every
/// resolver attempt fails, or a failure.
pub enum CompileModel {
    Compiled(CompiledGraph),
    NotFound(Seq<char>),
    Failed,
}

/// The eager reference-resolution closure, as a relation: build over the
/// gathered resources; when the step names some missing reference not yet
/// gathered, resolve it against the registry's mapping, gather the
/// document, and build again. The choice among several missing references
/// is the engine's, so an outcome is admitted when some choice leads to it.
pub open spec fn compile_can_yield(
    schema: serde_json::Value,
    draft: Option<jsonschema::Draft>,
    schemas: Map<Seq<char>, serde_json::Value>,
    record: Seq<(Seq<char>, serde_json::Value)>,
    fuel: nat,
    outcome: CompileModel,
) -> bool
    decreases fuel,
{
    if fuel == 0 {
        outcome == CompileModel::Failed
    } else {
        match step_outcome(schema, draft, record) {
            BuildOutcomeModel::Built(g) => outcome == CompileModel::Compiled(g),
            BuildOutcomeModel::Rejected => outcome == CompileModel::Failed,
            BuildOutcomeModel::Unresolved => exists|u: Seq<char>|
                #[trigger] step_missing(schema, draft, record).contains(u) && {
                    if exists|i: int| 0 <= i < record.len() && record[i].0 == u {
                        outcome == CompileModel::Failed
                    } else {
                        match resolve_spec(schemas, u) {
                            Option::None => outcome == CompileModel::NotFound(u),
                            Option::Some(doc) => compile_can_yield(
                                schema,
                                draft,
                                schemas,
                                record.push((u, doc)),
                                (fuel - 1) as nat,
                                outcome,
                            ),
                        }
                    }
                },
        }
    }
}

/// Whether one of the gathered resources is recorded under `key`.
fn resources_contain(resources: &Vec<(String, serde_json::Value)>, key: &str) -> (r: bool)
    ensures
        r == exists|i: int| 0 <= i < resources@.len() && resources@[i].0@ == key@,
{
    let mut i: usize = 0;
    while i < resources.len()
        invariant
            i <= resources@.len(),
            forall|j: int| 0 <= j < i ==> resources@[j].0@ != key@,
        decreases resources@.len() - i,
    {
        if crate::text::str_eq(resources[i].0.as_str(), key) {
            return true;
        }
        i += 1;
    }
    false
}

/// One build attempt over the resources gathered so far; returns what the
/// named step outcome yields on their recording history, a missing
/// reference being one of the step's own.
fn build_once(
    schema: &serde_json::Value,
    draft: Option<jsonschema::Draft>,
    resources: &Vec<(String, serde_json::Value)>,
) -> (r: Result<CompiledGraph, BuildFailure>)
    ensures
        ({
            let out = step_outcome(*schema, draft, record_of(resources@));
            match r {
                Ok(g) => out == BuildOutcomeModel::Built(g),
                Err(BuildFailure::Unresolved(u)) => out is Unresolved && step_missing(
                    *schema,
                    draft,
                    record_of(resources@),
                ).contains(u@),
                Err(BuildFailure::Rejected(_)) => out is Rejected,
            }
        }),
{
    let mut builder = registry_builder_new();
    let mut i: usize = 0;
    while i < resources.len()
        invariant
            i <= resources@.len(),
            builder_record(builder) == record_of(resources@.take(i as int)),
            forall|j: int| 0 <= j < i ==> uri_recordable(resources@[j].0@),
        decreases resources@.len() - i,
    {
        match registry_builder_add(builder, &resources[i].0, &resources[i].1) {
            Ok(next) => {
                proof {
                    assert(record_of(resources@.take(i as int + 1)) =~= record_of(
                        resources@.take(i as int),
                    ).push((resources@[i as int].0@, resources@[i as int].1)));
                }
                builder = next;
            },
            Err(failure) => {
                proof {
                    assert(record_of(resources@)[i as int].0 == resources@[i as int].0@);
                }
                return Err(failure);
            },
        }
        i += 1;
    }
    proof {
        assert(record_of(resources@.take(resources@.len() as int)) =~= record_of(resources@));
        assert(forall|j: int|
            0 <= j < record_of(resources@).len() ==> uri_recordable(
                #[trigger] record_of(resources@)[j].0,
            ));
    }
    let registry = match registry_builder_prepare(builder) {
        Ok(prepared) => prepared,
        Err(failure) => {
            return Err(failure);
        },
    };
    match draft {
        Some(d) => build_pinned(schema, d, &registry),
        None => build_detected(schema, &registry),
    }
}

impl Ajv {
    /// Compile `schema` into a reusable validator, reading the registry's
    /// current mapping. The draft hint is applied exactly as `select_draft`
    /// says: a recognized canonical URI pins keyword semantics, anything
    /// else selects nothing. The result is an outcome the eager
    /// reference-resolution closure over the registry's mapping admits: the
    /// compiled graph when the build goes through, `SchemaNotFound` with
    /// the URI of a reference on which every resolver attempt fails, and
    /// `InvalidSchema` otherwise. Compilation never mutates the registry.
    pub fn compile(&self, schema: serde_json::Value, draft_uri: Option<String>) -> (r: Result<
        NapiValidator,
        CompileError,
    >)
        requires
            self.wf(),
        ensures
            ({
                let outcome = match r {
                    Ok(validator) => CompileModel::Compiled(validator@),
                    Err(CompileError::SchemaNotFound { uri }) => CompileModel::NotFound(uri@),
                    Err(CompileError::InvalidSchema { .. }) => CompileModel::Failed,
                };
                compile_can_yield(
                    schema,
                    selected_upstream_draft(draft_uri),
                    self.schemas(),
                    no_resources(),
                    usize::MAX as nat,
                    outcome,
                )
            }),
            r matches Err(CompileError::SchemaNotFound { uri }) ==> resolve_spec(
                self.schemas(),
                uri@,
            ) is None,
    {
        let draft = match select_draft(&draft_uri) {
            Some(d) => Some(draft_to_upstream(d)),
            None => None,
        };
        assert(draft == selected_upstream_draft(draft_uri));
        let mut resources: Vec<(String, serde_json::Value)> = Vec::new();
        let mut fuel: usize = usize::MAX;
        proof {
            assert(record_of(resources@) =~= no_resources());
        }
        loop
            invariant
                self.wf(),
                draft == selected_upstream_draft(draft_uri),
                forall|outcome: CompileModel|
                    compile_can_yield(
                        schema,
                        draft,
                        self.schemas(),
                        record_of(resources@),
                        fuel as nat,
                        outcome,
                    ) ==> compile_can_yield(
                        schema,
                        draft,
                        self.schemas(),
                        no_resources(),
                        usize::MAX as nat,
                        outcome,
                    ),
            decreases fuel,
        {
            if fuel == 0 {
                return Err(
                    CompileError::InvalidSchema {
                        reason: "reference resolution did not progress".to_string(),
                    },
                );
            }
            match build_once(&schema, draft, &resources) {
                Ok(graph) => {
                    assert(compile_can_yield(
                        schema,
                        draft,
                        self.schemas(),
                        record_of(resources@),
                        fuel as nat,
                        CompileModel::Compiled(graph),
                    ));
                    return Ok(NapiValidator::from_graph(graph));
                },
                Err(BuildFailure::Rejected(reason)) => {
                    assert(compile_can_yield(
                        schema,
                        draft,
                        self.schemas(),
                        record_of(resources@),
                        fuel as nat,
                        CompileModel::Failed,
                    ));
                    return Err(CompileError::InvalidSchema { reason });
                },
                Err(BuildFailure::Unresolved(uri)) => {
                    if resources_contain(&resources, uri.as_str()) {
                        proof {
                            let j = choose|j: int|
                                0 <= j < resources@.len() && resources@[j].0@ == uri@;
                            assert(record_of(resources@)[j].0 == uri@);
                            assert(compile_can_yield(
                                schema,
                                draft,
                                self.schemas(),
                                record_of(resources@),
                                fuel as nat,
                                CompileModel::Failed,
                            ));
                        }
                        return Err(
                            CompileError::InvalidSchema {
                                reason: "reference resolution did not progress".to_string(),
                            },
                        );
                    }
                    proof {
                        assert(forall|j: int|
                            0 <= j < record_of(resources@).len() ==> (
                            #[trigger] record_of(resources@)[j]).0 != uri@);
                    }
                    match self.resolve(uri.as_str()) {
                        Ok(doc) => {
                            let ghost u_view = uri@;
                            let ghost d_val = doc;
                            let ghost prev = resources@;
                            let ghost f0 = fuel as nat;
                            resources.push((uri, doc));
                            fuel = fuel - 1;
                            proof {
                                assert(record_of(resources@) =~= record_of(prev).push(
                                    (u_view, d_val),
                                ));
                                assert forall|outcome: CompileModel|
                                    compile_can_yield(
                                        schema,
                                        draft,
                                        self.schemas(),
                                        record_of(resources@),
                                        fuel as nat,
                                        outcome,
                                    ) implies compile_can_yield(
                                    schema,
                                    draft,
                                    self.schemas(),
                                    no_resources(),
                                    usize::MAX as nat,
                                    outcome,
                                ) by {
                                    assert(compile_can_yield(
                                        schema,
                                        draft,
                                        self.schemas(),
                                        record_of(prev),
                                        f0,
                                        outcome,
                                    ));
                                }
                            }
                        },
                        Err(_) => {
                            assert(compile_can_yield(
                                schema,
                                draft,
                                self.schemas(),
                                record_of(resources@),
                                fuel as nat,
                                CompileModel::NotFound(uri@),
                            ));
                            return Err(CompileError::SchemaNotFound { uri });
                        },
                    }
                },
            }
        }
    }
}

} // verus!
