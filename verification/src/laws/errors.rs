//! What errors say, and what the schema of definitions asks for.
use vstd::prelude::*;
use crate::adapter::AdapterError;
use crate::bitmap::{enforce_visual_search_budget, BmpImage, SearchArea};
use crate::describe::format_accessibility_path;
use crate::interpolate::{Failure, VariableResolutionError};
use crate::run::{FailureKind, RunError, RunErrorKind};
use crate::schema::{
    at, automation_definition_schema, constraints, field_path, schema_states_constraints,
    takes_constraints,
};
use crate::text::{decimal, joined};
use crate::validate::ValidationError;
use crate::value::{Json, NumberView, Tree};

verus! {

/// Each kind of error is made with its kind and its message, and with nothing else.
pub proof fn errors_have_their_kind(
    message: String,
    new: AdapterError,
    unsupported: AdapterError,
    assertion: AdapterError,
    timeout: AdapterError,
    cancelled: AdapterError,
)
    requires
        call_ensures(AdapterError::new, (message,), new),
        call_ensures(AdapterError::unsupported, (message,), unsupported),
        call_ensures(AdapterError::assertion, (message,), assertion),
        call_ensures(AdapterError::timeout, (), timeout),
        call_ensures(AdapterError::cancelled, (), cancelled),
    ensures
        new@.kind == RunErrorKind::Adapter && new@.message == message@,
        unsupported@.kind == RunErrorKind::Unsupported && unsupported@.message == message@,
        assertion@.kind == RunErrorKind::Assertion && assertion@.message == message@,
        timeout@.kind == RunErrorKind::Timeout && timeout@.message == "step timed out"@,
        cancelled@.kind == RunErrorKind::Cancelled && cancelled@.message == "run cancelled"@,
        new@.diagnostics is None && new@.failure_kind is None,
        unsupported@.diagnostics is None && unsupported@.failure_kind is None,
        timeout@.diagnostics is None && timeout@.failure_kind is None,
        cancelled@.diagnostics is None && cancelled@.failure_kind is None,
{
}

/// What is added to an error is there, and what was there stays; and a run reports all of it, with
/// the step.
pub proof fn errors_keep_what_they_say(
    e: AdapterError,
    source: String,
    kind: FailureKind,
    step: String,
    sourced: AdapterError,
    marked: AdapterError,
    told: RunError,
)
    requires
        call_ensures(AdapterError::with_source, (e, source), sourced),
        call_ensures(AdapterError::with_failure_kind, (e, kind), marked),
        call_ensures(AdapterError::into_run_error, (e, step), told),
    ensures
        sourced@.diagnostics == Some(source@) && sourced@.message == e@.message && sourced@.kind
            == e@.kind && sourced@.failure_kind == e@.failure_kind,
        marked@.failure_kind == Some(kind) && marked@.message == e@.message && marked@.kind
            == e@.kind && marked@.diagnostics == e@.diagnostics,
        told.message@ == e@.message && told.kind == e@.kind && told.failure_kind
            == e@.failure_kind,
        told.step_id is Some && told.step_id->0@ == step@,
        told@.source == e@.diagnostics,
{
}

/// A search for a picture is made where it compares no more than fifty million pixels: as many as
/// there are positions, times the pixels of the picture.
pub proof fn searches_for_pictures_are_bounded(
    area: SearchArea,
    template: &BmpImage,
    r: Result<(), AdapterError>,
)
    requires
        0 <= area.left <= area.right < i32::MAX,
        0 <= area.top <= area.bottom < i32::MAX,
        template.width > 0,
        template.height > 0,
        call_ensures(enforce_visual_search_budget, (area, template), r),
    ensures
        ({
            let positions = (area.right - area.left + 1) * (area.bottom - area.top + 1);
            r is Ok <==> positions * (template.width * template.height) <= 50_000_000
        }),
        r is Err ==> r->Err_0@.kind == RunErrorKind::Unsupported,
{
}

/// A path is written as its indexes, with commas between them, in square brackets.
pub proof fn paths_are_written_index_by_index(path: &Vec<u32>, r: String, indexes: Seq<Seq<char>>)
    requires
        call_ensures(format_accessibility_path, (path,), r),
        indexes.len() == path@.len(),
        forall|i: int| 0 <= i < path@.len() ==> #[trigger] indexes[i] == decimal(path@[i] as nat),
    ensures
        r@ == seq!['['] + joined(indexes, seq![',']) + seq![']'],
{
    reveal_strlit("[");
    reveal_strlit("]");
    reveal_strlit(",");
    assert("["@ =~= seq!['[']);
    assert("]"@ =~= seq![']']);
    assert(","@ =~= seq![',']);
    assert(indexes =~= path@.map_values(|n: u32| decimal(n as nat)));
}

/// Whether a schema says this of a field of a type.
pub open spec fn states(
    schema: Tree,
    name: Seq<char>,
    field: Seq<char>,
    word: Seq<char>,
    value: Tree,
) -> bool {
    at(schema, seq!["$defs"@, name, "properties"@, field, word]) == Some(value)
}

/// The schema of definitions asks for the version that is read, for at least one step, for
/// identifiers that begin with a letter or a digit and hold nothing but letters, digits, dots,
/// underscores and hyphens, and for no zero where one is the least.
pub proof fn the_schema_asks_for_what_is_valid(generated: Json, r: Json)
    requires
        takes_constraints(generated@),
        call_ensures(automation_definition_schema, (generated,), r),
    ensures
        ({
            let one = Tree::Number(NumberView::PosInt(1));
            let name = Tree::Text("^[A-Za-z0-9][A-Za-z0-9._-]*$"@);
            &&& states(r@, "AutomationDefinition"@, "schemaVersion"@, "const"@, one)
            &&& states(r@, "AutomationDefinition"@, "steps"@, "minItems"@, one)
            &&& states(r@, "AutomationDefinition"@, "id"@, "pattern"@, name)
            &&& states(r@, "Step"@, "id"@, "pattern"@, name)
            &&& states(r@, "DurationSpec"@, "millis"@, "minimum"@, one)
            &&& states(r@, "ImageTarget"@, "confidence"@, "minimum"@, one)
            &&& states(r@, "ImageRegion"@, "width"@, "minimum"@, one)
            &&& states(r@, "ImageRegion"@, "height"@, "minimum"@, one)
        }),
{
    let all = constraints();
    schema_states_constraints(generated@, all.len(), field_path(""@, ""@, ""@));
    assert(all.len() == 8);
    assert(at(r@, all[0].0) == Some(all[0].1));
    assert(at(r@, all[1].0) == Some(all[1].1));
    assert(at(r@, all[2].0) == Some(all[2].1));
    assert(at(r@, all[3].0) == Some(all[3].1));
    assert(at(r@, all[4].0) == Some(all[4].1));
    assert(at(r@, all[5].0) == Some(all[5].1));
    assert(at(r@, all[6].0) == Some(all[6].1));
    assert(at(r@, all[7].0) == Some(all[7].1));
}

/// The words for what is wrong with a definition name what it is about: the field, the step, the
/// variable, or the version that was found and the one that was expected.
pub proof fn problems_are_told_in_words(e: &ValidationError, r: String)
    requires
        call_ensures(ValidationError::message, (e,), r),
    ensures
        match *e {
            ValidationError::MissingField(field) => r@ == field@ + " is required"@,
            ValidationError::BlankField(field) => r@ == field@
                + " must not be blank when present"@,
            ValidationError::InvalidIdentifier { field } => r@ == field@
                + " must be a non-empty identifier"@,
            ValidationError::UnsupportedSchemaVersion { expected, actual } => r@
                == "schema version "@ + decimal(actual as nat) + " is not supported; expected "@
                + decimal(expected as nat),
            ValidationError::NoSteps => r@ == "automation must contain at least one step"@,
            ValidationError::DuplicateStepId(id) => r@ == "duplicate step id `"@ + id@ + "`"@,
            ValidationError::InvalidDuration(field) => r@ == field@
                + " must be greater than zero"@,
            ValidationError::InvalidRetryPolicy => r@
                == "retry max_attempts must be greater than zero"@,
            ValidationError::RequiredVariableHasDefault(name) => r@ == "required variable `"@
                + name@ + "` cannot also define a default"@,
            ValidationError::EmptyTarget => r@ == "target must include at least one selector"@,
            _ => true,
        },
{
}

/// The words for what keeps a run from being resolved name the variable.
pub proof fn failures_are_told_in_words(e: &VariableResolutionError, r: String)
    requires
        call_ensures(VariableResolutionError::message, (e,), r),
    ensures
        match e@ {
            Failure::UndeclaredVariable(name) => r@ == "run config provided undeclared variable `"@
                + name + "`"@,
            Failure::MissingRequiredVariable(name) => r@ == "required variable `"@ + name
                + "` has no value"@,
            Failure::MissingVariableValue(name) => r@ == "variable `"@ + name + "` has no value"@,
            Failure::UnknownVariable(name) => r@ == "unknown variable `"@ + name + "`"@,
            Failure::CircularReference(name) => r@ == "variable reference `"@ + name
                + "` is circular"@,
            Failure::MalformedInterpolation => r@ == "variable interpolation is malformed"@,
            _ => true,
        },
{
}

} // verus!
