//! Definitions as documents.
use vstd::prelude::*;
use crate::codec::readers::{
    opt_text_at, read_opt_text_at, read_req_text_at, read_req_u32_at, req_text_at, req_u32_at,
};
use crate::codec::step::{decode_steps, encode_steps, steps_of, steps_round_trip, steps_tree};
use crate::codec::variable::{
    decode_metadata, decode_variables, encode_metadata_field, encode_variables_field,
    metadata_field, metadata_of, metadata_round_trip, variables_field, variables_of,
    variables_round_trip,
};
use crate::collections::{ascending, entry_views, lookup, TextMap};
use crate::definition::{
    AutomationDefinition, AutomationDefinitionView, CURRENT_SCHEMA_VERSION, Step, StepView,
    VariableDefinition, VariableDefinitionView,
};
use crate::fields::{
    add_field, decode_u32, defaulted, encode_opt_text, encode_text, encode_u64, group_fields,
    keys_among, keys_in, named, no_fields, opt_text_tree, required, u32_of, unsigned, with,
};
use crate::validate::{definition_problem, Problem, ValidationError};
use crate::value::{entry_trees, find_entry, json_of_text, object_tree, parse_json, Json, Tree};
use crate::views::{opt_view, views};

verus! {

pub open spec fn req_steps_at(
    entries: Seq<(Seq<char>, Tree)>,
    key: Seq<char>,
) -> Option<Seq<StepView>> {
    required(entries, key, |t: Tree| steps_of(t))
}

fn read_req_steps_at(entries: &Vec<(String, Json)>, key: &str) -> (r: Option<Vec<Step>>)
    ensures
        match r {
            Some(x) => req_steps_at(entry_trees(entries@), key@) == Some(views(x@)),
            None => req_steps_at(entry_trees(entries@), key@) is None,
        },
{
    match find_entry(entries, key) {
        None => None,
        Some(value) => decode_steps(value),
    }
}

pub open spec fn def_metadata_at(
    entries: Seq<(Seq<char>, Tree)>,
    key: Seq<char>,
) -> Option<Seq<(Seq<char>, Tree)>> {
    defaulted(entries, key, |t: Tree| metadata_of(t), Seq::empty())
}

fn read_def_metadata_at(entries: &Vec<(String, Json)>, key: &str) -> (r: Option<TextMap<Json>>)
    ensures
        match r {
            Some(x) => def_metadata_at(entry_trees(entries@), key@) == Some(entry_views(x@)),
            None => def_metadata_at(entry_trees(entries@), key@) is None,
        },
{
    match find_entry(entries, key) {
        None => {
            let none: TextMap<Json> = TextMap::new();
            assert(entry_views(none@) =~= Seq::empty());
            Some(none)
        },
        Some(value) => decode_metadata(value),
    }
}

pub open spec fn def_variables_at(
    entries: Seq<(Seq<char>, Tree)>,
    key: Seq<char>,
) -> Option<Seq<(Seq<char>, VariableDefinitionView)>> {
    defaulted(entries, key, |t: Tree| variables_of(t), Seq::empty())
}

fn read_def_variables_at(
    entries: &Vec<(String, Json)>,
    key: &str,
) -> (r: Option<TextMap<VariableDefinition>>)
    ensures
        match r {
            Some(x) => def_variables_at(entry_trees(entries@), key@) == Some(entry_views(x@)),
            None => def_variables_at(entry_trees(entries@), key@) is None,
        },
{
    match find_entry(entries, key) {
        None => {
            let none: TextMap<VariableDefinition> = TextMap::new();
            assert(entry_views(none@) =~= Seq::empty());
            Some(none)
        },
        Some(value) => decode_variables(value),
    }
}

pub open spec fn definition_keys() -> Seq<&'static str> {
    seq!["description", "id", "metadata", "schemaVersion", "steps", "title", "variables", "version"]
}

#[verifier::opaque]
pub open spec fn definition_tree(v: AutomationDefinitionView) -> Tree {
    let entries: Seq<(Seq<char>, Tree)> = Seq::empty();
    let entries = with(entries, "description"@, opt_text_tree(v.description));
    let entries = with(entries, "id"@, Some(Tree::Text(v.id)));
    let entries = with(entries, "metadata"@, metadata_field(v.metadata));
    let entries = with(entries, "schemaVersion"@, Some(unsigned(v.schema_version as u64)));
    let entries = with(entries, "steps"@, Some(steps_tree(v.steps)));
    let entries = with(entries, "title"@, Some(Tree::Text(v.title)));
    let entries = with(entries, "variables"@, variables_field(v.variables));
    let entries = with(entries, "version"@, opt_text_tree(v.version));
    Tree::Object(entries)
}

#[verifier::opaque]
pub open spec fn definition_of(tree: Tree) -> Option<AutomationDefinitionView> {
    match tree {
        Tree::Object(entries) => {
            let description = opt_text_at(entries, "description"@);
            let id = req_text_at(entries, "id"@);
            let metadata = def_metadata_at(entries, "metadata"@);
            let schema_version = req_u32_at(entries, "schemaVersion"@);
            let steps = req_steps_at(entries, "steps"@);
            let title = req_text_at(entries, "title"@);
            let variables = def_variables_at(entries, "variables"@);
            let version = opt_text_at(entries, "version"@);
            if keys_in(entries, definition_keys()) && description is Some && id is Some
                && metadata is Some && schema_version is Some && steps is Some && title is Some
                && variables is Some && version is Some {
                Some(
                    AutomationDefinitionView {
                        description: description->0,
                        id: id->0,
                        metadata: metadata->0,
                        schema_version: schema_version->0,
                        steps: steps->0,
                        title: title->0,
                        variables: variables->0,
                        version: version->0,
                    },
                )
            } else {
                None
            }
        },
        _ => None,
    }
}

/// Each field is found under its key.
proof fn definition_entries(
    v0: Option<Tree>,
    v1: Option<Tree>,
    v2: Option<Tree>,
    v3: Option<Tree>,
    v4: Option<Tree>,
    v5: Option<Tree>,
    v6: Option<Tree>,
    v7: Option<Tree>,
)
    ensures
        ({
            let entries: Seq<(Seq<char>, Tree)> = Seq::empty();
            let entries = with(entries, "description"@, v0);
            let entries = with(entries, "id"@, v1);
            let entries = with(entries, "metadata"@, v2);
            let entries = with(entries, "schemaVersion"@, v3);
            let entries = with(entries, "steps"@, v4);
            let entries = with(entries, "title"@, v5);
            let entries = with(entries, "variables"@, v6);
            let entries = with(entries, "version"@, v7);
            &&& keys_in(entries, definition_keys())
            &&& lookup(entries, "description"@) == v0
            &&& lookup(entries, "id"@) == v1
            &&& lookup(entries, "metadata"@) == v2
            &&& lookup(entries, "schemaVersion"@) == v3
            &&& lookup(entries, "steps"@) == v4
            &&& lookup(entries, "title"@) == v5
            &&& lookup(entries, "variables"@) == v6
            &&& lookup(entries, "version"@) == v7
        }),
{
    broadcast use group_fields;

    reveal_strlit("description");
    reveal_strlit("id");
    reveal_strlit("metadata");
    reveal_strlit("schemaVersion");
    reveal_strlit("steps");
    reveal_strlit("title");
    reveal_strlit("variables");
    reveal_strlit("version");
    assert("description"@.len() == 11);
    assert("id"@.len() == 2);
    assert("metadata"@.len() == 8);
    assert("schemaVersion"@.len() == 13);
    assert("steps"@.len() == 5);
    assert("title"@.len() == 5);
    assert("variables"@.len() == 9);
    assert("version"@.len() == 7);
    assert("steps"@[0] != "title"@[0]);
    assert(definition_keys()[0]@ == "description"@);
    assert(definition_keys()[1]@ == "id"@);
    assert(definition_keys()[2]@ == "metadata"@);
    assert(definition_keys()[3]@ == "schemaVersion"@);
    assert(definition_keys()[4]@ == "steps"@);
    assert(definition_keys()[5]@ == "title"@);
    assert(definition_keys()[6]@ == "variables"@);
    assert(definition_keys()[7]@ == "version"@);
}

/// A definition that is written and read back is the same definition.
pub proof fn definition_round_trip(v: AutomationDefinitionView)
    requires
        ascending(v.variables),
        ascending(v.metadata),
    ensures
        definition_of(definition_tree(v)) == Some(v),
{
    reveal(definition_tree);
    reveal(definition_of);
    let entries = definition_tree(v)->Object_0;
    definition_entries(
        opt_text_tree(v.description),
        Some(Tree::Text(v.id)),
        metadata_field(v.metadata),
        Some(unsigned(v.schema_version as u64)),
        Some(steps_tree(v.steps)),
        Some(Tree::Text(v.title)),
        variables_field(v.variables),
        opt_text_tree(v.version),
    );
    assert(opt_text_at(entries, "description"@) == Some(v.description));
    assert(req_text_at(entries, "id"@) == Some(v.id));
    metadata_round_trip(v.metadata);
    if v.metadata.len() == 0 {
        assert(v.metadata =~= Seq::empty());
    }
    assert(def_metadata_at(entries, "metadata"@) == Some(v.metadata));
    assert(req_u32_at(entries, "schemaVersion"@) == Some(v.schema_version));
    steps_round_trip(v.steps);
    assert(req_steps_at(entries, "steps"@) == Some(v.steps));
    assert(req_text_at(entries, "title"@) == Some(v.title));
    variables_round_trip(v.variables);
    if v.variables.len() == 0 {
        assert(v.variables =~= Seq::empty());
    }
    assert(def_variables_at(entries, "variables"@) == Some(v.variables));
    assert(opt_text_at(entries, "version"@) == Some(v.version));
}

pub fn encode_definition(v: &AutomationDefinition) -> (r: Json)
    ensures
        r@ == definition_tree(v@),
{
    broadcast use object_tree;

    proof {
        reveal(definition_tree);
    }
    let mut entries = no_fields();
    add_field(&mut entries, "description", encode_opt_text(&v.description));
    add_field(&mut entries, "id", Some(encode_text(v.id.as_str())));
    add_field(&mut entries, "metadata", encode_metadata_field(&v.metadata));
    add_field(&mut entries, "schemaVersion", Some(encode_u64(v.schema_version as u64)));
    add_field(&mut entries, "steps", Some(encode_steps(&v.steps)));
    add_field(&mut entries, "title", Some(encode_text(v.title.as_str())));
    add_field(&mut entries, "variables", encode_variables_field(&v.variables));
    add_field(&mut entries, "version", encode_opt_text(&v.version));
    Json::Object(entries)
}

pub fn decode_definition(value: &Json) -> (r: Option<AutomationDefinition>)
    ensures
        opt_view(r) == definition_of(value@),
{
    broadcast use object_tree;

    proof {
        reveal(definition_of);
    }
    let entries = match value {
        Json::Object(entries) => entries,
        _ => {
            return None;
        },
    };
    let keys = [
        "description",
        "id",
        "metadata",
        "schemaVersion",
        "steps",
        "title",
        "variables",
        "version",
    ];
    assert(keys@ =~= definition_keys());
    if !keys_among(entries, &keys) {
        return None;
    }
    let description = read_opt_text_at(entries, "description")?;
    let id = read_req_text_at(entries, "id")?;
    let metadata = read_def_metadata_at(entries, "metadata")?;
    let schema_version = read_req_u32_at(entries, "schemaVersion")?;
    let steps = read_req_steps_at(entries, "steps")?;
    let title = read_req_text_at(entries, "title")?;
    let variables = read_def_variables_at(entries, "variables")?;
    let version = read_opt_text_at(entries, "version")?;
    Some(
        AutomationDefinition {
            description,
            id,
            metadata,
            schema_version,
            steps,
            title,
            variables,
            version,
        },
    )
}

/// Why a text is not a definition.
#[derive(Debug)]
pub enum DefinitionParseError {
    /// The text is not JSON, or not JSON of the shape of a definition.
    Json(String),
    MissingSchemaVersion,
    UnsupportedSchemaVersion { expected: u32, actual: u32 },
    Validation(ValidationError),
}

/// What a [`DefinitionParseError`] stands for.
pub enum ParseFailure {
    Json(Seq<char>),
    MissingSchemaVersion,
    UnsupportedSchemaVersion { expected: u32, actual: u32 },
    Validation(Problem),
}

impl View for DefinitionParseError {
    type V = ParseFailure;

    open spec fn view(&self) -> ParseFailure {
        match *self {
            DefinitionParseError::Json(message) => ParseFailure::Json(message@),
            DefinitionParseError::MissingSchemaVersion => ParseFailure::MissingSchemaVersion,
            DefinitionParseError::UnsupportedSchemaVersion {
                expected,
                actual,
            } => ParseFailure::UnsupportedSchemaVersion { expected, actual },
            DefinitionParseError::Validation(e) => ParseFailure::Validation(e@),
        }
    }
}

/// The schema version that a document declares.
pub open spec fn declared_version(tree: Tree) -> Option<u32> {
    match tree {
        Tree::Object(entries) => match lookup(entries, "schemaVersion"@) {
            Some(version) => u32_of(version),
            None => None,
        },
        _ => None,
    }
}

/// The definition that a document holds. The schema version is looked at before anything else, and
/// the definition is validated once it has been read.
pub open spec fn definition_in(tree: Tree) -> Result<AutomationDefinitionView, ParseFailure> {
    match declared_version(tree) {
        None => Err(ParseFailure::MissingSchemaVersion),
        Some(version) => if version != CURRENT_SCHEMA_VERSION {
            Err(
                ParseFailure::UnsupportedSchemaVersion {
                    expected: CURRENT_SCHEMA_VERSION,
                    actual: version,
                },
            )
        } else {
            match definition_of(tree) {
                None => Err(ParseFailure::Json("the document is not shaped like a definition"@)),
                Some(definition) => match definition_problem(definition) {
                    Some(problem) => Err(ParseFailure::Validation(problem)),
                    None => Ok(definition),
                },
            }
        },
    }
}

/// A valid definition is read back from the document that it is written to.
pub proof fn valid_definition_is_read_back(d: AutomationDefinitionView)
    requires
        ascending(d.variables),
        ascending(d.metadata),
        definition_problem(d) is None,
    ensures
        definition_in(definition_tree(d)) == Ok::<AutomationDefinitionView, ParseFailure>(d),
{
    definition_round_trip(d);
    crate::validate::valid_definition(d);
    definition_version_is_declared(d);
}

proof fn definition_version_is_declared(d: AutomationDefinitionView)
    ensures
        declared_version(definition_tree(d)) == Some(d.schema_version),
{
    reveal(definition_tree);
    definition_entries(
        opt_text_tree(d.description),
        Some(Tree::Text(d.id)),
        metadata_field(d.metadata),
        Some(unsigned(d.schema_version as u64)),
        Some(steps_tree(d.steps)),
        Some(Tree::Text(d.title)),
        variables_field(d.variables),
        opt_text_tree(d.version),
    );
}

/// The maps of a definition are found under their keys.
pub(crate) proof fn definition_maps_are_found(d: AutomationDefinitionView)
    ensures
        definition_tree(d) is Object,
        lookup(definition_tree(d)->Object_0, "metadata"@) == metadata_field(d.metadata),
        lookup(definition_tree(d)->Object_0, "variables"@) == variables_field(d.variables),
{
    reveal(definition_tree);
    definition_entries(
        opt_text_tree(d.description),
        Some(Tree::Text(d.id)),
        metadata_field(d.metadata),
        Some(unsigned(d.schema_version as u64)),
        Some(steps_tree(d.steps)),
        Some(Tree::Text(d.title)),
        variables_field(d.variables),
        opt_text_tree(d.version),
    );
}

/// A document with a field that a definition does not have is refused.
pub proof fn unknown_field_is_refused(entries: Seq<(Seq<char>, Tree)>, i: int)
    requires
        0 <= i < entries.len(),
        !named(definition_keys(), entries[i].0),
    ensures
        definition_in(Tree::Object(entries)) is Err,
{
    reveal(definition_of);
}

/// Reads the definition that a document holds.
pub fn definition_from_json(document: &Json) -> (r: Result<AutomationDefinition, DefinitionParseError>)
    ensures
        match r {
            Ok(definition) => definition_in(document@) == Ok::<
                AutomationDefinitionView,
                ParseFailure,
            >(definition@),
            Err(e) => definition_in(document@) == Err::<AutomationDefinitionView, ParseFailure>(
                e@,
            ),
        },
{
    let version = match document.get("schemaVersion") {
        Some(value) => decode_u32(value),
        None => None,
    };
    let version: u32 = match version {
        Some(version) => version,
        None => {
            return Err(DefinitionParseError::MissingSchemaVersion);
        },
    };
    if version != CURRENT_SCHEMA_VERSION {
        return Err(
            DefinitionParseError::UnsupportedSchemaVersion {
                expected: CURRENT_SCHEMA_VERSION,
                actual: version,
            },
        );
    }
    let definition = match decode_definition(document) {
        Some(definition) => definition,
        None => {
            return Err(
                DefinitionParseError::Json(
                    "the document is not shaped like a definition".to_owned(),
                ),
            );
        },
    };
    match definition.validate() {
        Ok(_) => Ok(definition),
        Err(e) => Err(DefinitionParseError::Validation(e)),
    }
}

/// What a JSON text that is a definition reads as.
pub open spec fn definition_in_text(text: Seq<char>) -> Result<
    AutomationDefinitionView,
    ParseFailure,
> {
    match json_of_text(text) {
        Ok(tree) => definition_in(tree),
        Err(message) => Err(ParseFailure::Json(message)),
    }
}

/// Reads a definition from JSON text.
pub fn parse_definition_json(input: &str) -> (r: Result<AutomationDefinition, DefinitionParseError>)
    ensures
        match r {
            Ok(definition) => definition_in_text(input@) == Ok::<
                AutomationDefinitionView,
                ParseFailure,
            >(definition@),
            Err(e) => definition_in_text(input@) == Err::<AutomationDefinitionView, ParseFailure>(
                e@,
            ),
        },
{
    match parse_json(input) {
        Ok(document) => definition_from_json(&document),
        Err(message) => Err(DefinitionParseError::Json(message)),
    }
}

/// A document that declares no schema version, or another one, is refused, whatever else it holds.
pub proof fn other_versions_are_refused(tree: Tree)
    requires
        declared_version(tree) != Some(CURRENT_SCHEMA_VERSION),
    ensures
        match declared_version(tree) {
            None => definition_in(tree) == Err::<AutomationDefinitionView, ParseFailure>(
                ParseFailure::MissingSchemaVersion,
            ),
            Some(version) => definition_in(tree) == Err::<AutomationDefinitionView, ParseFailure>(
                ParseFailure::UnsupportedSchemaVersion {
                    expected: CURRENT_SCHEMA_VERSION,
                    actual: version,
                },
            ),
        },
{
}

/// Whatever is read is valid.
pub proof fn read_definitions_are_valid(tree: Tree)
    requires
        definition_in(tree) is Ok,
    ensures
        definition_problem(definition_in(tree)->Ok_0) is None,
        declared_version(tree) == Some(CURRENT_SCHEMA_VERSION),
{
}

} // verus!
