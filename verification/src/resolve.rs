//! The values of the variables of a run.
use vstd::prelude::*;
use crate::codec::step::{decode_step, encode_step, step_of, step_tree};
use crate::codec::variable::put_views;
use crate::collections::{
    ascending, entry_views, lookup, lookup_at, lookup_none, lookup_push, lookup_some, put,
    put_ascending, put_lookup, TextMap,
};
use crate::definition::{
    AutomationDefinition, AutomationDefinitionView, Step, StepView, VariableDefinition,
    VariableDefinitionView, VariableSource, VariableSourceView,
};
use crate::interpolate::{
    collect_interpolation_references, entry_references, first_reference, interpolated,
    interpolated_entries, interpolated_items, interpolated_text, item_references, next_reference,
    references, scalar_text, scalar_to_string, text_references, value_depends_on_references,
    Failure, Found, Lookup, Reference, SecretFailure, SecretResolutionError,
    VariableResolutionError,
};
use crate::run::{RunConfig, RunConfigView};
use crate::text::{
    before, before_irreflexive, from_chars, opt_text, owned, same_text, texts, to_chars,
};
use crate::validate::{accepts, definition_problem};
use crate::value::{array_tree, entry_trees, object_tree, trees, Json, Tree};
use crate::views::{opt_view, views};

verus! {

/// Where a run gets its secrets from.
pub trait SecretResolver {
    fn resolve_secret(&self, reference: &str) -> (r: Result<Json, SecretResolutionError>);
}

/// A resolver that has no secrets.
#[derive(Debug)]
pub struct NoSecrets;

impl Default for NoSecrets {
    fn default() -> (r: Self) {
        NoSecrets
    }
}

impl SecretResolver for NoSecrets {
    fn resolve_secret(&self, reference: &str) -> (r: Result<Json, SecretResolutionError>)
        ensures
            r matches Err(e) && e@ == (SecretFailure::Unavailable { reference: reference@ }),
    {
        Err(SecretResolutionError::Unavailable { reference: owned(reference) })
    }
}

fn copy_secret_error(e: &SecretResolutionError) -> (r: SecretResolutionError)
    ensures
        r@ == e@,
{
    match e {
        SecretResolutionError::Unavailable { reference } => SecretResolutionError::Unavailable {
            reference: reference.clone(),
        },
        SecretResolutionError::Failed { reference } => SecretResolutionError::Failed {
            reference: reference.clone(),
        },
    }
}

/// What a resolver answered.
pub enum SecretAnswer {
    Given(Json),
    Refused(SecretResolutionError),
}

impl View for SecretAnswer {
    type V = Result<Tree, SecretFailure>;

    open spec fn view(&self) -> Result<Tree, SecretFailure> {
        match *self {
            SecretAnswer::Given(value) => Ok(value@),
            SecretAnswer::Refused(e) => Err(e@),
        }
    }
}

/// Why variables could not be resolved: for good, or until somebody is asked for a secret.
enum Stop {
    Failed(VariableResolutionError),
    Unasked { name: String, reference: String },
}

impl View for Stop {
    type V = Failure;

    closed spec fn view(&self) -> Failure {
        match *self {
            Stop::Failed(e) => e@,
            Stop::Unasked { name, reference } => Failure::Unasked {
                name: name@,
                reference: reference@,
            },
        }
    }
}

/// A variable of a run: its value, and whether the value is to be kept secret.
pub struct ResolvedVariable {
    value: Json,
    secret: bool,
}

/// What a [`ResolvedVariable`] stands for.
pub struct Resolved {
    pub value: Tree,
    pub secret: bool,
}

impl View for ResolvedVariable {
    type V = Resolved;

    closed spec fn view(&self) -> Resolved {
        Resolved { value: self.value@, secret: self.secret }
    }
}

/// What is shown in place of a secret.
pub open spec fn redacted(variable: Resolved) -> Tree {
    if variable.secret {
        Tree::Text("[REDACTED]"@)
    } else {
        variable.value
    }
}

impl ResolvedVariable {
    pub fn value(&self) -> (r: &Json)
        ensures
            r@ == self@.value,
    {
        &self.value
    }

    pub fn is_secret(&self) -> (r: bool)
        ensures
            r == self@.secret,
    {
        self.secret
    }

    /// The value, or a placeholder where the value is secret.
    pub fn redacted_value(&self) -> (r: Json)
        ensures
            r@ == redacted(self@),
    {
        if self.secret {
            Json::String(owned("[REDACTED]"))
        } else {
            self.value.clone()
        }
    }
}

/// What the values of variables are made from.
pub struct Sources {
    pub definitions: Seq<(Seq<char>, VariableDefinitionView)>,
    pub overrides: Seq<(Seq<char>, Tree)>,
    /// What was answered where the default of a variable is a secret.
    pub secrets: Seq<(Seq<char>, Result<Tree, SecretFailure>)>,
}

/// The value of a variable before its references are replaced, and whether it is itself a secret.
/// A value of the run comes before the default; it stays secret where the default is a secret.
pub open spec fn raw_value(s: Sources, name: Seq<char>, definition: VariableDefinitionView) -> Result<
    (Tree, bool),
    Failure,
> {
    match lookup(s.overrides, name) {
        Some(value) => Ok(
            (value, definition.default matches Some(VariableSourceView::SecretReference { .. })),
        ),
        None => match definition.default {
            Some(VariableSourceView::Literal { value }) => Ok((value, false)),
            Some(VariableSourceView::SecretReference { reference }) => match lookup(
                s.secrets,
                name,
            ) {
                Some(Ok(value)) => Ok((value, true)),
                Some(Err(e)) => Err(Failure::Secret(e)),
                None => Err(Failure::Unasked { name, reference }),
            },
            None => if definition.required {
                Err(Failure::MissingRequiredVariable(name))
            } else {
                Err(Failure::MissingVariableValue(name))
            },
        },
    }
}

spec fn room(s: Sources, path: Seq<Seq<char>>) -> int {
    s.definitions.len() + 1 - path.len()
}

/// What a variable stands for while the variables of `path` are being resolved: its raw value with
/// every reference replaced by what that variable stands for. It is secret where its raw value is,
/// or where it refers to a variable that is secret. A variable that leads back to itself stands
/// for nothing.
pub open spec fn resolution(s: Sources, path: Seq<Seq<char>>, name: Seq<char>) -> Result<
    Resolved,
    Failure,
>
    decreases s.definitions.len() + 1 - path.len(), 0nat, 0nat,
{
    if path.contains(name) || path.len() > s.definitions.len() {
        Err(Failure::CircularReference(name))
    } else {
        match lookup(s.definitions, name) {
            None => Err(Failure::UnknownVariable(name)),
            Some(definition) => match raw_value(s, name, definition) {
                Err(e) => Err(e),
                Ok((raw, direct)) => match references(raw) {
                    None => Err(Failure::MalformedInterpolation),
                    Some(names) => match interpolated(raw, scope(s, path.push(name))) {
                        Err(e) => Err(e),
                        Ok(value) => if accepts(definition.value_type, value) {
                            Ok(
                                Resolved {
                                    value,
                                    secret: direct || any_secret(s, path.push(name), names),
                                },
                            )
                        } else {
                            Err(
                                Failure::InvalidValueType { name, expected: definition.value_type },
                            )
                        },
                    },
                },
            },
        }
    }
}

/// The values of the variables, for references.
pub open spec fn scope(s: Sources, path: Seq<Seq<char>>) -> Lookup
    decreases s.definitions.len() + 1 - path.len(), 1nat, 0nat,
{
    |name: Seq<char>|
        match resolution(s, path, name) {
            Ok(variable) => Ok(variable.value),
            Err(e) => Err(e),
        }
}

/// Whether one of the variables is secret.
pub open spec fn any_secret(s: Sources, path: Seq<Seq<char>>, names: Seq<Seq<char>>) -> bool
    decreases s.definitions.len() + 1 - path.len(), 1nat, names.len(),
{
    if names.len() == 0 {
        false
    } else {
        (resolution(s, path, names.last()) matches Ok(variable) && variable.secret) || any_secret(
            s,
            path,
            names.drop_last(),
        )
    }
}

/// Distinct declared names: what can be in the course of being resolved.
spec fn valid_path(s: Sources, path: Seq<Seq<char>>) -> bool {
    &&& path.no_duplicates()
    &&& forall|i: int| 0 <= i < path.len() ==> lookup(s.definitions, #[trigger] path[i]) is Some
}

spec fn apart(a: Seq<Seq<char>>, b: Seq<Seq<char>>) -> bool {
    forall|i: int| 0 <= i < a.len() ==> !b.contains(#[trigger] a[i])
}

proof fn path_fits(s: Sources, path: Seq<Seq<char>>)
    requires
        valid_path(s, path),
    ensures
        path.len() <= s.definitions.len(),
{
    let names = s.definitions.map_values(|e: (Seq<char>, VariableDefinitionView)| e.0);
    assert forall|n: Seq<char>| path.to_set().contains(n) implies names.to_set().contains(n) by {
        let i = choose|i: int| 0 <= i < path.len() && path[i] == n;
        assert(lookup(s.definitions, path[i]) is Some);
        let k = lookup_some(s.definitions, n);
        assert(names[k] == n);
    }
    path.unique_seq_to_set();
    names.lemma_cardinality_of_set();
    vstd::set_lib::lemma_len_subset(path.to_set(), names.to_set());
}

proof fn extend_path(s: Sources, path: Seq<Seq<char>>, name: Seq<char>)
    requires
        valid_path(s, path),
        !path.contains(name),
        lookup(s.definitions, name) is Some,
    ensures
        valid_path(s, path.push(name)),
{
    let longer = path.push(name);
    assert forall|i: int, j: int| 0 <= i < longer.len() && 0 <= j < longer.len() && i != j implies
        longer[i] != longer[j] by {
        if i < path.len() && j < path.len() {
            assert(path[i] != path[j]);
        } else if i < path.len() {
            assert(path.contains(path[i]));
        } else {
            assert(path.contains(path[j]));
        }
    }
}

/// The variables of a run in the course of being resolved.
struct Resolution<'a> {
    definitions: &'a TextMap<VariableDefinition>,
    overrides: &'a TextMap<Json>,
    secrets: &'a TextMap<SecretAnswer>,
    resolved: TextMap<ResolvedVariable>,
    resolving: Vec<String>,
    /// The resolved names in the order in which they were resolved.
    order: Ghost<Seq<Seq<char>>>,
}

pub open spec fn sources(
    definitions: TextMap<VariableDefinition>,
    overrides: TextMap<Json>,
    secrets: TextMap<SecretAnswer>,
) -> Sources {
    Sources {
        definitions: entry_views(definitions@),
        overrides: entry_views(overrides@),
        secrets: entry_views(secrets@),
    }
}

/// Looking a key up before or after the values are viewed gives the same.
pub proof fn lookup_views<T: View>(entries: Seq<(Seq<char>, T)>, key: Seq<char>)
    ensures
        lookup(entry_views(entries), key) == opt_view(lookup(entries, key)),
    decreases entries.len(),
{
    if entries.len() > 0 {
        assert(entry_views(entries).drop_first() =~= entry_views(entries.drop_first()));
        lookup_views(entries.drop_first(), key);
    }
}

impl<'a> Resolution<'a> {
    spec fn sources(self) -> Sources {
        sources(*self.definitions, *self.overrides, *self.secrets)
    }

    spec fn path(self) -> Seq<Seq<char>> {
        texts(self.resolving@)
    }

    spec fn known(self, name: Seq<char>) -> bool {
        lookup(self.resolved@, name) is Some
    }

    spec fn entry(self, name: Seq<char>) -> Resolved {
        lookup(self.resolved@, name)->0@
    }

    spec fn settled(self, k: int, path: Seq<Seq<char>>) -> bool {
        resolution(self.sources(), path, self.order@[k]) == Ok::<Resolved, Failure>(
            self.entry(self.order@[k]),
        )
    }

    spec fn inv(self) -> bool {
        &&& ascending(self.resolved@)
        &&& valid_path(self.sources(), self.path())
        &&& valid_path(self.sources(), self.order@)
        &&& apart(self.path(), self.order@)
        &&& forall|n: Seq<char>| self.known(n) == #[trigger] self.order@.contains(n)
        &&& forall|k: int, path: Seq<Seq<char>>|
            0 <= k < self.order@.len() && valid_path(self.sources(), path) && apart(
                path,
                self.order@.take(k + 1),
            ) ==> #[trigger] self.settled(k, path)
    }

    /// What stays and what grows while variables are resolved.
    spec fn follows(self, before: Self) -> bool {
        &&& self.sources() == before.sources()
        &&& self.definitions == before.definitions
        &&& self.overrides == before.overrides
        &&& self.secrets == before.secrets
        &&& self.resolving@ == before.resolving@
        &&& forall|n: Seq<char>| before.known(n) ==> #[trigger] self.known(n)
    }

    /// A known variable stands for its entry, while any unknown variables are being resolved.
    proof fn known_settled(self, path: Seq<Seq<char>>, name: Seq<char>)
        requires
            self.inv(),
            self.known(name),
            valid_path(self.sources(), path),
            apart(path, self.order@),
        ensures
            resolution(self.sources(), path, name) == Ok::<Resolved, Failure>(self.entry(name)),
    {
        assert(self.order@.contains(name));
        let k = choose|k: int| 0 <= k < self.order@.len() && self.order@[k] == name;
        assert forall|i: int| 0 <= i < path.len() implies !self.order@.take(k + 1).contains(
            #[trigger] path[i],
        ) by {
            assert(!self.order@.contains(path[i]));
            if self.order@.take(k + 1).contains(path[i]) {
                let front = self.order@.take(k + 1);
                let m = choose|m: int| 0 <= m < front.len() && front[m] == path[i];
                assert(self.order@[m] == path[i]);
            }
        }
        assert(self.settled(k, path));
    }

    proof fn all_settled(self, path: Seq<Seq<char>>, names: Seq<Seq<char>>, flag: bool)
        requires
            self.inv(),
            forall|i: int| 0 <= i < names.len() ==> self.known(#[trigger] names[i]),
            valid_path(self.sources(), path),
            apart(path, self.order@),
        ensures
            any_secret(self.sources(), path, names) == exists|i: int|
                0 <= i < names.len() && self.entry(#[trigger] names[i]).secret,
        decreases names.len(),
    {
        if names.len() > 0 {
            let front = names.drop_last();
            assert forall|i: int| 0 <= i < front.len() implies self.known(#[trigger] front[i]) by {
                assert(self.known(names[i]));
            }
            self.all_settled(path, front, flag);
            assert(self.known(names[names.len() - 1]));
            self.known_settled(path, names.last());
            if exists|i: int| 0 <= i < names.len() && self.entry(#[trigger] names[i]).secret {
                let i = choose|i: int| 0 <= i < names.len() && self.entry(#[trigger] names[i]).secret;
                if i < front.len() {
                    assert(self.entry(front[i]).secret);
                }
            }
            if any_secret(self.sources(), path, front) {
                let i = choose|i: int| 0 <= i < front.len() && self.entry(#[trigger] front[i]).secret;
                assert(self.entry(names[i]).secret);
            }
        }
    }

    fn any_known_secret(&self, names: &Vec<String>) -> (r: bool)
        requires
            forall|i: int| 0 <= i < names@.len() ==> self.known(#[trigger] texts(names@)[i]),
        ensures
            r == exists|i: int|
                0 <= i < names@.len() && self.entry(#[trigger] texts(names@)[i]).secret,
    {
        let mut i: usize = 0;
        while i < names.len()
            invariant
                i <= names@.len(),
                forall|i: int| 0 <= i < names@.len() ==> self.known(#[trigger] texts(names@)[i]),
                forall|j: int| 0 <= j < i ==> !self.entry(#[trigger] texts(names@)[j]).secret,
            decreases names@.len() - i,
        {
            assert(self.known(texts(names@)[i as int]));
            if let Some(variable) = self.resolved.get(names[i].as_str()) {
                if variable.is_secret() {
                    assert(self.entry(texts(names@)[i as int]).secret);
                    return true;
                }
            }
            i = i + 1;
        }
        false
    }

    fn raw(&self, name: &str, definition: &VariableDefinition) -> (r: Result<
        (Json, bool),
        Stop,
    >)
        ensures
            match r {
                Ok((value, direct)) => raw_value(self.sources(), name@, definition@) == Ok::<
                    (Tree, bool),
                    Failure,
                >((value@, direct)),
                Err(e) => raw_value(self.sources(), name@, definition@) == Err::<
                    (Tree, bool),
                    Failure,
                >(e@),
            },
    {
        proof {
            lookup_views(self.overrides@, name@);
        }
        if let Some(value) = self.overrides.get(name) {
            let direct = match &definition.default {
                Some(VariableSource::SecretReference { .. }) => true,
                _ => false,
            };
            return Ok((value.clone(), direct));
        }
        match &definition.default {
            Some(VariableSource::Literal { value }) => Ok((value.clone(), false)),
            Some(VariableSource::SecretReference { reference }) => {
                proof {
                    lookup_views(self.secrets@, name@);
                }
                match self.secrets.get(name) {
                    Some(SecretAnswer::Given(value)) => Ok((value.clone(), true)),
                    Some(SecretAnswer::Refused(e)) => Err(
                        Stop::Failed(VariableResolutionError::Secret(copy_secret_error(e))),
                    ),
                    None => Err(
                        Stop::Unasked { name: owned(name), reference: reference.clone() },
                    ),
                }
            },
            None => if definition.required {
                Err(Stop::Failed(VariableResolutionError::MissingRequiredVariable(owned(name))))
            } else {
                Err(Stop::Failed(VariableResolutionError::MissingVariableValue(owned(name))))
            },
        }
    }

    fn is_resolving(&self, name: &str) -> (r: bool)
        ensures
            r == self.path().contains(name@),
    {
        let mut i: usize = 0;
        while i < self.resolving.len()
            invariant
                i <= self.resolving@.len(),
                forall|j: int| 0 <= j < i ==> #[trigger] self.path()[j] != name@,
            decreases self.resolving@.len() - i,
        {
            if same_text(self.resolving[i].as_str(), name) {
                assert(self.path()[i as int] == name@);
                return true;
            }
            i = i + 1;
        }
        proof {
            if self.path().contains(name@) {
                let j = choose|j: int| 0 <= j < self.path().len() && self.path()[j] == name@;
                assert(self.path()[j] == name@);
            }
        }
        false
    }

    /// Makes `name` known, with everything that it refers to.
    fn resolve_variable(&mut self, name: &str) -> (r: Result<(), Stop>)
        requires
            old(self).inv(),
        ensures
            match r {
                Ok(_) => {
                    &&& final(self).inv()
                    &&& final(self).follows(*old(self))
                    &&& final(self).known(name@)
                    &&& resolution(old(self).sources(), old(self).path(), name@) == Ok::<
                        Resolved,
                        Failure,
                    >(final(self).entry(name@))
                },
                Err(e) => resolution(old(self).sources(), old(self).path(), name@) == Err::<
                    Resolved,
                    Failure,
                >(e@),
            },
        decreases room(old(self).sources(), old(self).path()), 0nat,
    {
        let ghost s = self.sources();
        let ghost path = self.path();
        proof {
            path_fits(s, path);
            lookup_views(self.definitions@, name@);
        }
        if self.resolved.contains_key(name) {
            proof {
                self.known_settled(path, name@);
            }
            return Ok(());
        }
        if self.is_resolving(name) {
            return Err(Stop::Failed(VariableResolutionError::CircularReference(owned(name))));
        }
        let definitions = self.definitions;
        let definition = match definitions.get(name) {
            Some(definition) => definition,
            None => {
                return Err(Stop::Failed(VariableResolutionError::UnknownVariable(owned(name))));
            },
        };
        let (raw, direct) = match self.raw(name, definition) {
            Ok(pair) => pair,
            Err(e) => {
                return Err(e);
            },
        };
        let mut names: Vec<String> = Vec::new();
        match collect_interpolation_references(&raw, &mut names) {
            Ok(_) => {},
            Err(e) => {
                return Err(Stop::Failed(e));
            },
        }
        let ghost all = references(raw@)->0;
        assert(texts(names@) =~= all);
        self.resolving.push(owned(name));
        let ghost longer = path.push(name@);
        proof {
            assert(self.path() =~= longer);
            extend_path(s, path, name@);
            path_fits(s, longer);
            assert(self.sources() == s);
            assert(!self.order@.contains(name@));
            assert forall|k: int, p: Seq<Seq<char>>|
                0 <= k < self.order@.len() && valid_path(self.sources(), p) && apart(
                    p,
                    self.order@.take(k + 1),
                ) implies #[trigger] self.settled(k, p) by {
                assert(old(self).settled(k, p));
            }
            assert(self.inv());
        }
        let ghost during = *self;
        let value = match self.interpolate(&raw) {
            Ok(value) => value,
            Err(e) => {
                return Err(e);
            },
        };
        if !definition.value_type.accepts(&value) {
            return Err(Stop::Failed(VariableResolutionError::InvalidValueType {
                    name: owned(name),
                    expected: definition.value_type,
                }));
        }
        proof {
            assert forall|i: int| 0 <= i < texts(names@).len() implies self.known(
                #[trigger] texts(names@)[i],
            ) by {
                assert(self.known(all[i]));
            }
            self.all_settled(longer, all, true);
        }
        let secret = direct || self.any_known_secret(&names);
        let ghost after = *self;
        let _ = self.resolving.pop();
        let ghost popped = *self;
        let ghost fresh = ResolvedVariable { value, secret };
        proof {
            assert(self.resolving@ =~= old(self).resolving@);
            assert(resolution(s, path, name@) == Ok::<Resolved, Failure>(fresh@));
            assert(!self.order@.contains(name@)) by {
                assert(longer[path.len() as int] == name@);
            }
            assert forall|i: int| 0 <= i < path.len() implies !self.order@.contains(
                #[trigger] path[i],
            ) by {
                assert(longer[i] == path[i]);
            }
            assert forall|k: int, p: Seq<Seq<char>>|
                0 <= k < self.order@.len() && valid_path(s, p) && apart(
                    p,
                    self.order@.take(k + 1),
                ) implies #[trigger] self.settled(k, p) by {
                assert(after.settled(k, p));
            }
            assert forall|n: Seq<char>| old(self).known(n) implies #[trigger] self.known(n) by {
                assert(during.known(n));
                assert(after.known(n));
            }
            assert forall|n: Seq<char>| self.known(n) == #[trigger] self.order@.contains(n) by {
                assert(after.known(n) == after.order@.contains(n));
            }
            assert forall|i: int| 0 <= i < all.len() implies self.known(#[trigger] all[i]) by {
                assert(after.known(all[i]));
            }
        }
        self.resolved.insert(owned(name), ResolvedVariable { value, secret });
        proof {
            let earlier = self.order@;
            self.order@ = earlier.push(name@);
            self.finish(popped, s, path, name@, raw@, direct, all, definition@, fresh);
        }
        Ok(())
    }

    /// Adding the resolved variable to the known ones keeps everything in order.
    proof fn finish(
        self,
        before: Self,
        s: Sources,
        path: Seq<Seq<char>>,
        name: Seq<char>,
        raw: Tree,
        direct: bool,
        names: Seq<Seq<char>>,
        definition: VariableDefinitionView,
        fresh: ResolvedVariable,
    )
        requires
            before.sources() == s,
            self.definitions == before.definitions,
            self.overrides == before.overrides,
            self.secrets == before.secrets,
            self.resolving == before.resolving,
            before.path() == path,
            self.order@ == before.order@.push(name),
            self.resolved@ == put(before.resolved@, name, fresh),
            !before.order@.contains(name),
            !path.contains(name),
            valid_path(s, path),
            lookup(s.definitions, name) == Some(definition),
            raw_value(s, name, definition) == Ok::<(Tree, bool), Failure>((raw, direct)),
            references(raw) == Some(names),
            interpolated(raw, scope(s, path.push(name))) == Ok::<Tree, Failure>(fresh@.value),
            accepts(definition.value_type, fresh@.value),
            fresh@.secret == (direct || any_secret(s, path.push(name), names)),
            forall|i: int| 0 <= i < names.len() ==> before.known(#[trigger] names[i]),
            ascending(before.resolved@),
            valid_path(s, before.order@),
            apart(path, before.order@),
            forall|n: Seq<char>| before.known(n) == #[trigger] before.order@.contains(n),
            forall|k: int, p: Seq<Seq<char>>|
                0 <= k < before.order@.len() && valid_path(s, p) && apart(
                    p,
                    before.order@.take(k + 1),
                ) ==> #[trigger] before.settled(k, p),
        ensures
            self.inv(),
            self.known(name),
            self.entry(name) == fresh@,
            forall|n: Seq<char>| before.known(n) ==> #[trigger] self.known(n),
    {
        put_ascending(before.resolved@, name, fresh);
        assert forall|n: Seq<char>| #[trigger] self.known(n) == (before.known(n) || n == name) && (
        n != name ==> self.entry(n) == before.entry(n)) && (n == name ==> self.entry(n) == fresh@) by {
            put_lookup(before.resolved@, name, fresh, n);
        }
        extend_path(s, before.order@, name);
        assert forall|n: Seq<char>| self.known(n) == #[trigger] self.order@.contains(n) by {
            assert(self.known(n) == (before.known(n) || n == name));
            if before.order@.contains(n) {
                let i = choose|i: int| 0 <= i < before.order@.len() && before.order@[i] == n;
                assert(self.order@[i] == n);
            }
            if n == name {
                assert(self.order@[before.order@.len() as int] == n);
            }
            if self.order@.contains(n) {
                let i = choose|i: int| 0 <= i < self.order@.len() && self.order@[i] == n;
                if i < before.order@.len() {
                    assert(before.order@[i] == n);
                }
            }
        }
        assert(apart(path, self.order@)) by {
            assert forall|i: int| 0 <= i < path.len() implies !self.order@.contains(
                #[trigger] path[i],
            ) by {
                assert(!before.order@.contains(path[i]));
                assert(path.contains(path[i]));
                assert(self.known(path[i]) == self.order@.contains(path[i]));
                assert(before.known(path[i]) == before.order@.contains(path[i]));
            }
        }
        extend_path(s, path, name);
        assert(apart(path.push(name), before.order@)) by {
            assert forall|i: int| 0 <= i < path.push(name).len() implies !before.order@.contains(
                #[trigger] path.push(name)[i],
            ) by {
                if i < path.len() {
                    assert(path.push(name)[i] == path[i]);
                }
            }
        }
        assert(before.inv());
        assert forall|k: int, p: Seq<Seq<char>>|
            0 <= k < self.order@.len() && valid_path(s, p) && apart(
                p,
                self.order@.take(k + 1),
            ) implies #[trigger] self.settled(k, p) by {
            if k < before.order@.len() {
                assert(self.order@.take(k + 1) =~= before.order@.take(k + 1));
                assert(before.settled(k, p));
                assert(before.order@[k] != name) by {
                    assert(before.order@.contains(before.order@[k]));
                }
                assert(self.known(before.order@[k]) == (before.known(before.order@[k])
                    || before.order@[k] == name));
            } else {
                assert(self.order@.take(k + 1) =~= self.order@);
                before.same_elsewhere(s, path, p, name, raw, names);
                path_fits(s, p);
                assert(!p.contains(name)) by {
                    if p.contains(name) {
                        let i = choose|i: int| 0 <= i < p.len() && p[i] == name;
                        assert(self.order@[before.order@.len() as int] == name);
                        assert(self.order@.contains(p[i]));
                    }
                }
                assert(resolution(s, p, name) == Ok::<Resolved, Failure>(fresh@));
                assert(self.known(name));
            }
        }
    }

    /// What a variable stands for does not depend on which other variables are being resolved.
    proof fn same_elsewhere(
        self,
        s: Sources,
        path: Seq<Seq<char>>,
        other: Seq<Seq<char>>,
        name: Seq<char>,
        raw: Tree,
        names: Seq<Seq<char>>,
    )
        requires
            self.inv(),
            self.sources() == s,
            valid_path(s, path.push(name)),
            apart(path.push(name), self.order@),
            valid_path(s, other),
            apart(other, self.order@.push(name)),
            lookup(s.definitions, name) is Some,
            !self.order@.contains(name),
            references(raw) == Some(names),
            forall|i: int| 0 <= i < names.len() ==> self.known(#[trigger] names[i]),
        ensures
            interpolated(raw, scope(s, path.push(name))) == interpolated(
                raw,
                scope(s, other.push(name)),
            ),
            any_secret(s, path.push(name), names) == any_secret(s, other.push(name), names),
    {
        let longer = self.order@.push(name);
        assert forall|i: int| 0 <= i < other.len() implies !self.order@.contains(
            #[trigger] other[i],
        ) && other[i] != name by {
            assert(!longer.contains(other[i]));
            if self.order@.contains(other[i]) {
                let m = choose|m: int| 0 <= m < self.order@.len() && self.order@[m] == other[i];
                assert(longer[m] == other[i]);
            }
            assert(longer[self.order@.len() as int] == name);
        }
        assert(!other.contains(name));
        extend_path(s, other, name);
        assert(apart(other.push(name), self.order@)) by {
            assert forall|i: int| 0 <= i < other.push(name).len() implies !self.order@.contains(
                #[trigger] other.push(name)[i],
            ) by {
                if i < other.len() {
                    assert(other.push(name)[i] == other[i]);
                }
            }
        }
        let f = scope(s, path.push(name));
        let g = scope(s, other.push(name));
        assert forall|i: int| 0 <= i < names.len() implies f(#[trigger] names[i]) == g(names[i]) by {
            assert(self.known(names[i]));
            self.known_settled(path.push(name), names[i]);
            self.known_settled(other.push(name), names[i]);
        }
        value_depends_on_references(raw, f, g);
        self.all_settled(path.push(name), names, true);
        self.all_settled(other.push(name), names, true);
    }

    /// Replaces the references of a text.
    fn interpolate_text(&mut self, text: &str) -> (r: Result<Json, Stop>)
        requires
            old(self).inv(),
        ensures
            match r {
                Ok(value) => {
                    &&& final(self).inv()
                    &&& final(self).follows(*old(self))
                    &&& interpolated_text(
                        Seq::empty(),
                        text@,
                        scope(old(self).sources(), old(self).path()),
                    ) == Ok::<Tree, Failure>(value@)
                    &&& text_references(text@) matches Some(names) ==> forall|i: int|
                        0 <= i < names.len() ==> final(self).known(#[trigger] names[i])
                },
                Err(e) => interpolated_text(
                    Seq::empty(),
                    text@,
                    scope(old(self).sources(), old(self).path()),
                ) == Err::<Tree, Failure>(e@),
            },
        decreases room(old(self).sources(), old(self).path()), 1nat,
    {
        let ghost s = self.sources();
        let ghost path = self.path();
        let ghost vars = scope(s, path);
        let chars = to_chars(text);
        let total: usize = chars.len();
        let mut output = String::new();
        let mut from: usize = 0;
        let ghost mut done: Seq<Seq<char>> = Seq::empty();
        proof {
            assert(chars@.skip(0) =~= chars@);
            if let Some(all) = text_references(text@) {
                assert(done + all =~= all);
            }
        }
        loop
            invariant
                from <= chars@.len() == total,
                self.inv(),
                self.follows(*old(self)),
                s == old(self).sources(),
                path == old(self).path(),
                vars == scope(s, path),
                interpolated_text(Seq::empty(), text@, vars) == interpolated_text(
                    output@,
                    chars@.skip(from as int),
                    vars,
                ),
                text_references(text@) is Some ==> text_references(chars@.skip(from as int)) is Some
                    && text_references(text@)->0 == done + text_references(
                    chars@.skip(from as int),
                )->0,
                forall|i: int| 0 <= i < done.len() ==> self.known(#[trigger] done[i]),
            decreases chars@.len() - from,
        {
            match next_reference(&chars, from) {
                Found::Absent => {
                    let rest = from_chars(&chars, from, total);
                    output.append(rest.as_str());
                    assert(chars@.subrange(from as int, total as int) =~= chars@.skip(from as int));
                    assert(done + Seq::<Seq<char>>::empty() =~= done);
                    return Ok(Json::String(output));
                },
                Found::Malformed => {
                    return Err(Stop::Failed(VariableResolutionError::MalformedInterpolation));
                },
                Found::At { open, name, close } => {
                    let ghost before = *self;
                    let prefix = from_chars(&chars, from, open);
                    output.append(prefix.as_str());
                    match self.resolve_variable(name.as_str()) {
                        Ok(_) => {},
                        Err(e) => {
                            assert(vars(name@) == Err::<Tree, Failure>(e@));
                            return Err(e);
                        },
                    }
                    proof {
                        assert(vars(name@) == Ok::<Tree, Failure>(self.entry(name@).value));
                        let earlier = done;
                        done = done.push(name@);
                        assert forall|i: int| 0 <= i < done.len() implies self.known(
                            #[trigger] done[i],
                        ) by {
                            if i < earlier.len() {
                                assert(before.known(earlier[i]));
                            }
                        }
                        if let Some(rest) = text_references(chars@.skip(close + 1)) {
                            assert(earlier + (seq![name@] + rest) =~= done + rest);
                        }
                    }
                    let value = match self.resolved.get(name.as_str()) {
                        Some(variable) => variable.value().clone(),
                        None => {
                            assert(false);
                            Json::Null
                        },
                    };
                    if output.as_str().unicode_len() == 0 && close + 1 == total {
                        proof {
                            let suffix = chars@.skip(close + 1);
                            assert(suffix.len() == 0);
                            if let Some(rest) = text_references(suffix) {
                                assert(done + rest =~= done);
                            }
                        }
                        return Ok(value);
                    }
                    match scalar_to_string(&value) {
                        Ok(shown) => {
                            output.append(shown.as_str());
                        },
                        Err(e) => {
                            return Err(Stop::Failed(e));
                        },
                    }
                    from = close + 1;
                },
            }
        }
    }

    /// Replaces the references in all texts of a value.
    fn interpolate(&mut self, value: &Json) -> (r: Result<Json, Stop>)
        requires
            old(self).inv(),
        ensures
            match r {
                Ok(result) => {
                    &&& final(self).inv()
                    &&& final(self).follows(*old(self))
                    &&& interpolated(value@, scope(old(self).sources(), old(self).path()))
                        == Ok::<Tree, Failure>(result@)
                    &&& references(value@) matches Some(names) ==> forall|i: int|
                        0 <= i < names.len() ==> final(self).known(#[trigger] names[i])
                },
                Err(e) => interpolated(value@, scope(old(self).sources(), old(self).path()))
                    == Err::<Tree, Failure>(e@),
            },
        decreases room(old(self).sources(), old(self).path()), 2nat, value,
    {
        broadcast use array_tree, object_tree;

        let ghost s = self.sources();
        let ghost path = self.path();
        let ghost vars = scope(s, path);
        match value {
            Json::String(text) => self.interpolate_text(text.as_str()),
            Json::Array(items) => {
                let ghost all = trees(items@);
                let mut out: Vec<Json> = Vec::new();
                let mut i: usize = 0;
                assert(trees(out@) =~= Seq::empty());
                while i < items.len()
                    invariant
                        i <= items@.len(),
                        decreases_to!(value => items@),
                        all == trees(items@),
                        value@ == Tree::Array(all),
                        self.inv(),
                        self.follows(*old(self)),
                        s == old(self).sources(),
                        path == old(self).path(),
                        vars == scope(s, path),
                        interpolated_items(all, i as nat, vars) == Ok::<Seq<Tree>, Failure>(
                            trees(out@),
                        ),
                        item_references(all, i as nat) matches Some(names) ==> forall|k: int|
                            0 <= k < names.len() ==> self.known(#[trigger] names[k]),
                    decreases items@.len() - i,
                {
                    let ghost before = *self;
                    let ghost out_before = trees(out@);
                    assert(all[i as int] == items@[i as int]@);
                    match self.interpolate(&items[i]) {
                        Ok(result) => {
                            proof {
                                assert(trees(out@.push(result)) =~= out_before.push(result@));
                                self.know_more(before, item_references(all, i as nat), references(all[i as int]));
                            }
                            out.push(result);
                        },
                        Err(e) => {
                            proof {
                                items_stop(all, (i + 1) as nat, all.len(), vars);
                            }
                            return Err(e);
                        },
                    }
                    i = i + 1;
                }
                Ok(Json::Array(out))
            },
            Json::Object(entries) => {
                let ghost all = entry_trees(entries@);
                let mut out: Vec<(String, Json)> = Vec::new();
                let mut i: usize = 0;
                assert(entry_trees(out@) =~= Seq::empty());
                while i < entries.len()
                    invariant
                        i <= entries@.len(),
                        decreases_to!(value => entries@),
                        all == entry_trees(entries@),
                        value@ == Tree::Object(all),
                        self.inv(),
                        self.follows(*old(self)),
                        s == old(self).sources(),
                        path == old(self).path(),
                        vars == scope(s, path),
                        interpolated_entries(all, i as nat, vars) == Ok::<
                            Seq<(Seq<char>, Tree)>,
                            Failure,
                        >(entry_trees(out@)),
                        entry_references(all, i as nat) matches Some(names) ==> forall|k: int|
                            0 <= k < names.len() ==> self.known(#[trigger] names[k]),
                    decreases entries@.len() - i,
                {
                    let ghost before = *self;
                    let ghost out_before = entry_trees(out@);
                    let key = entries[i].0.clone();
                    assert(all[i as int] == (key@, entries@[i as int].1@));
                    match self.interpolate(&entries[i].1) {
                        Ok(result) => {
                            proof {
                                assert(entry_trees(out@.push((key, result))) =~= out_before.push((key@, result@)));
                                self.know_more(before, entry_references(all, i as nat), references(all[i as int].1));
                            }
                            out.push((key, result));
                        },
                        Err(e) => {
                            proof {
                                entries_stop(all, (i + 1) as nat, all.len(), vars);
                            }
                            return Err(e);
                        },
                    }
                    i = i + 1;
                }
                Ok(Json::Object(out))
            },
            _ => Ok(value.clone()),
        }
    }

    proof fn know_more(
        self,
        before: Self,
        front: Option<Seq<Seq<char>>>,
        last: Option<Seq<Seq<char>>>,
    )
        requires
            forall|n: Seq<char>| before.known(n) ==> #[trigger] self.known(n),
            front matches Some(names) ==> forall|k: int|
                0 <= k < names.len() ==> before.known(#[trigger] names[k]),
            last matches Some(names) ==> forall|k: int|
                0 <= k < names.len() ==> self.known(#[trigger] names[k]),
        ensures
            front is Some && last is Some ==> forall|k: int|
                0 <= k < (front->0 + last->0).len() ==> self.known(
                    #[trigger] (front->0 + last->0)[k],
                ),
    {
        if front is Some && last is Some {
            let both = front->0 + last->0;
            assert forall|k: int| 0 <= k < both.len() implies self.known(#[trigger] both[k]) by {
                if k < front->0.len() {
                    assert(before.known(front->0[k]));
                } else {
                    assert(self.known(last->0[k - front->0.len()]));
                }
            }
        }
    }
}

proof fn items_stop(items: Seq<Tree>, n: nat, m: nat, vars: Lookup)
    requires
        n <= m <= items.len(),
        interpolated_items(items, n, vars) is Err,
    ensures
        interpolated_items(items, m, vars) == interpolated_items(items, n, vars),
    decreases m,
{
    if n < m {
        items_stop(items, n, (m - 1) as nat, vars);
    }
}

proof fn entries_stop(entries: Seq<(Seq<char>, Tree)>, n: nat, m: nat, vars: Lookup)
    requires
        n <= m <= entries.len(),
        interpolated_entries(entries, n, vars) is Err,
    ensures
        interpolated_entries(entries, m, vars) == interpolated_entries(entries, n, vars),
    decreases m,
{
    if n < m {
        entries_stop(entries, n, (m - 1) as nat, vars);
    }
}

/// Where replacing the references of a text succeeds, every name that it refers to stands for
/// something.
proof fn text_success_needs_references(output: Seq<char>, text: Seq<char>, vars: Lookup)
    requires
        interpolated_text(output, text, vars) is Ok,
        text_references(text) is Some,
    ensures
        forall|i: int|
            0 <= i < text_references(text)->0.len() ==> vars(
                #[trigger] text_references(text)->0[i],
            ) is Ok,
    decreases text.len(),
{
    crate::interpolate::suffix_shorter(text);
    if let Reference::Found { prefix, name, suffix } = first_reference(text) {
        let value = vars(name)->Ok_0;
        if !((output + prefix).len() == 0 && suffix.len() == 0) {
            text_success_needs_references(
                output + prefix + scalar_text(value)->Ok_0,
                suffix,
                vars,
            );
        }
        let names = text_references(text)->0;
        let rest = text_references(suffix)->0;
        assert(names =~= seq![name] + rest);
        assert forall|i: int| 0 <= i < names.len() implies vars(#[trigger] names[i]) is Ok by {
            if i > 0 {
                assert(names[i] == rest[i - 1]);
            }
        }
    }
}

/// Where replacing the references of a value succeeds, every name that it refers to stands for
/// something.
proof fn success_needs_references(value: Tree, vars: Lookup)
    requires
        interpolated(value, vars) is Ok,
        references(value) is Some,
    ensures
        forall|i: int|
            0 <= i < references(value)->0.len() ==> vars(#[trigger] references(value)->0[i]) is Ok,
    decreases value, 0nat,
{
    match value {
        Tree::Text(text) => text_success_needs_references(Seq::empty(), text, vars),
        Tree::Array(items) => items_success_needs_references(items, items.len(), vars),
        Tree::Object(entries) => entries_success_needs_references(entries, entries.len(), vars),
        _ => {},
    }
}

proof fn items_success_needs_references(items: Seq<Tree>, n: nat, vars: Lookup)
    requires
        interpolated_items(items, n, vars) is Ok,
        item_references(items, n) is Some,
    ensures
        forall|i: int|
            0 <= i < item_references(items, n)->0.len() ==> vars(
                #[trigger] item_references(items, n)->0[i],
            ) is Ok,
    decreases items, n,
{
    if n > 0 && n <= items.len() {
        items_success_needs_references(items, (n - 1) as nat, vars);
        success_needs_references(items[n - 1], vars);
        let front = item_references(items, (n - 1) as nat)->0;
        let last = references(items[n - 1])->0;
        let all = item_references(items, n)->0;
        assert forall|i: int| 0 <= i < all.len() implies vars(#[trigger] all[i]) is Ok by {
            if i < front.len() {
                assert(all[i] == front[i]);
            } else {
                assert(all[i] == last[i - front.len()]);
            }
        }
    }
}

proof fn entries_success_needs_references(entries: Seq<(Seq<char>, Tree)>, n: nat, vars: Lookup)
    requires
        interpolated_entries(entries, n, vars) is Ok,
        entry_references(entries, n) is Some,
    ensures
        forall|i: int|
            0 <= i < entry_references(entries, n)->0.len() ==> vars(
                #[trigger] entry_references(entries, n)->0[i],
            ) is Ok,
    decreases entries, n,
{
    if n > 0 && n <= entries.len() {
        entries_success_needs_references(entries, (n - 1) as nat, vars);
        success_needs_references(entries[n - 1].1, vars);
        let front = entry_references(entries, (n - 1) as nat)->0;
        let last = references(entries[n - 1].1)->0;
        let all = entry_references(entries, n)->0;
        assert forall|i: int| 0 <= i < all.len() implies vars(#[trigger] all[i]) is Ok by {
            if i < front.len() {
                assert(all[i] == front[i]);
            } else {
                assert(all[i] == last[i - front.len()]);
            }
        }
    }
}

/// Whether the raw value of a variable refers to another variable.
pub open spec fn refers_to(s: Sources, name: Seq<char>, other: Seq<char>) -> bool {
    lookup(s.definitions, name) matches Some(definition) && raw_value(s, name, definition) matches Ok(
        pair,
    ) && references(pair.0) matches Some(names) && names.contains(other)
}

/// A variable stands for something only where every variable that it refers to does.
pub proof fn references_resolve(s: Sources, path: Seq<Seq<char>>, name: Seq<char>, other: Seq<char>)
    requires
        resolution(s, path, name) is Ok,
        refers_to(s, name, other),
    ensures
        resolution(s, path.push(name), other) is Ok,
{
    let raw = raw_value(s, name, lookup(s.definitions, name)->0)->Ok_0.0;
    let names = references(raw)->0;
    let vars = scope(s, path.push(name));
    success_needs_references(raw, vars);
    let i = choose|i: int| 0 <= i < names.len() && names[i] == other;
    assert(vars(names[i]) is Ok);
}

/// Variables that refer to each other in a circle stand for nothing: `circle[0]` refers to
/// `circle[1]`, and so on, and the last one refers to `circle[0]`.
pub proof fn circles_fail(s: Sources, circle: Seq<Seq<char>>, path: Seq<Seq<char>>, start: int)
    requires
        circle.len() > 0,
        0 <= start < circle.len(),
        forall|i: int|
            0 <= i < circle.len() ==> refers_to(
                s,
                #[trigger] circle[i],
                circle[(i + 1) % circle.len() as int],
            ),
    ensures
        resolution(s, path, circle[start]) is Err,
    decreases s.definitions.len() + 1 - path.len(),
{
    if resolution(s, path, circle[start]) is Ok {
        let next = (start + 1) % circle.len() as int;
        references_resolve(s, path, circle[start], circle[next]);
        circles_fail(s, circle, path.push(circle[start]), next);
    }
}

/// A variable that refers to a secret variable is secret.
pub proof fn secrets_spread(s: Sources, path: Seq<Seq<char>>, name: Seq<char>, other: Seq<char>)
    requires
        resolution(s, path, name) is Ok,
        refers_to(s, name, other),
        resolution(s, path.push(name), other) matches Ok(variable) && variable.secret,
    ensures
        resolution(s, path, name)->Ok_0.secret,
{
    let raw = raw_value(s, name, lookup(s.definitions, name)->0)->Ok_0.0;
    any_secret_found(s, path.push(name), references(raw)->0, other);
}

proof fn any_secret_found(
    s: Sources,
    path: Seq<Seq<char>>,
    names: Seq<Seq<char>>,
    other: Seq<char>,
)
    requires
        names.contains(other),
        resolution(s, path, other) matches Ok(variable) && variable.secret,
    ensures
        any_secret(s, path, names),
    decreases names.len(),
{
    let i = choose|i: int| 0 <= i < names.len() && names[i] == other;
    if i < names.len() - 1 {
        assert(names.drop_last()[i] == other);
        any_secret_found(s, path, names.drop_last(), other);
    }
}

/// A variable is secret only where it is declared as a secret or refers to a secret variable.
pub proof fn secrets_have_a_reason(s: Sources, path: Seq<Seq<char>>, name: Seq<char>)
    requires
        resolution(s, path, name) matches Ok(variable) && variable.secret,
    ensures
        (lookup(s.definitions, name) matches Some(d) && d.default matches Some(
            VariableSourceView::SecretReference { .. },
        )) || exists|other: Seq<char>| #[trigger]
            refers_to(s, name, other) && (resolution(s, path.push(name), other) matches Ok(variable)
                && variable.secret),
{
    let definition = lookup(s.definitions, name)->0;
    let (raw, direct) = raw_value(s, name, definition)->Ok_0;
    if !direct {
        let names = references(raw)->0;
        secret_among(s, path.push(name), names);
        let i = choose|i: int|
            0 <= i < names.len() && (resolution(s, path.push(name), #[trigger] names[i]) matches Ok(
                variable,
            ) && variable.secret);
        assert(names.contains(names[i]));
        assert(refers_to(s, name, names[i]));
    }
}

proof fn secret_among(s: Sources, path: Seq<Seq<char>>, names: Seq<Seq<char>>)
    requires
        any_secret(s, path, names),
    ensures
        exists|i: int|
            0 <= i < names.len() && (resolution(s, path, #[trigger] names[i]) matches Ok(variable)
                && variable.secret),
    decreases names.len(),
{
    if resolution(s, path, names.last()) matches Ok(variable) && variable.secret {
        assert(names[names.len() - 1] == names.last());
    } else {
        let front = names.drop_last();
        secret_among(s, path, front);
        let i = choose|i: int|
            0 <= i < front.len() && (resolution(s, path, #[trigger] front[i]) matches Ok(variable)
                && variable.secret);
        assert(names[i] == front[i]);
    }
}

/// A variable that is declared as a secret is secret, wherever its value comes from.
pub proof fn declared_secrets_are_secret(s: Sources, path: Seq<Seq<char>>, name: Seq<char>)
    requires
        resolution(s, path, name) is Ok,
        lookup(s.definitions, name) matches Some(d) && d.default matches Some(
            VariableSourceView::SecretReference { .. },
        ),
    ensures
        resolution(s, path, name)->Ok_0.secret,
{
}

/// A definition and a configuration with every reference replaced, and the variables that took
/// part.
pub struct ResolvedRun {
    definition: AutomationDefinition,
    config: RunConfig,
    variables: TextMap<ResolvedVariable>,
}

impl ResolvedRun {
    pub closed spec fn spec_definition(&self) -> AutomationDefinition {
        self.definition
    }

    pub closed spec fn spec_config(&self) -> RunConfig {
        self.config
    }

    pub closed spec fn spec_variables(&self) -> TextMap<ResolvedVariable> {
        self.variables
    }

    pub fn definition(&self) -> (r: &AutomationDefinition)
        ensures
            *r == self.spec_definition(),
    {
        &self.definition
    }

    pub fn config(&self) -> (r: &RunConfig)
        ensures
            *r == self.spec_config(),
    {
        &self.config
    }

    pub fn variables(&self) -> (r: &TextMap<ResolvedVariable>)
        ensures
            *r == self.spec_variables(),
    {
        &self.variables
    }

    /// The variables with a placeholder in place of each secret.
    pub fn redacted_variables(&self) -> (r: TextMap<Json>)
        ensures
            entry_views(r@) == redacted_entries(self.spec_variables()@),
    {
        let mut map: TextMap<Json> = TextMap::new();
        let mut i: usize = 0;
        let ghost all = redacted_entries(self.variables@);
        assert(all.take(0) =~= Seq::empty());
        assert(entry_views(map@) =~= Seq::empty());
        let total: usize = self.variables.len();
        while i < total
            invariant
                i <= total == self.variables@.len(),
                all == redacted_entries(self.variables@),
                ascending(self.variables@),
                entry_views(map@) == all.take(i as int),
            decreases self.variables@.len() - i,
        {
            let value = self.variables.value_at(i).redacted_value();
            let ghost earlier = map@;
            let ghost shown = value;
            let key = self.variables.key_at(i).clone();
            let ghost name = key@;
            map.insert(key, value);
            proof {
                put_views(earlier, name, shown);
                if i > 0 {
                    assert(before(self.variables@[i - 1].0, self.variables@[i as int].0));
                    before_irreflexive(name);
                    assert(all.take(i as int).last().0 == self.variables@[i - 1].0);
                }
                assert(entry_views(map@) =~= all.take(i as int).push((name, shown@)));
                assert(all.take(i + 1) =~= all.take(i as int).push(all[i as int]));
            }
            i = i + 1;
        }
        assert(all.take(i as int) =~= all);
        map
    }
}

/// The entries with a placeholder in place of each secret.
pub open spec fn redacted_entries(entries: Seq<(Seq<char>, ResolvedVariable)>) -> Seq<
    (Seq<char>, Tree),
> {
    entries.map_values(|e: (Seq<char>, ResolvedVariable)| (e.0, redacted(e.1@)))
}

/// The first variable, in the order of the names, that stands for nothing.
pub open spec fn variables_failure(s: Sources, n: nat) -> Option<Failure>
    decreases n,
{
    if n == 0 || n > s.definitions.len() {
        None
    } else {
        match variables_failure(s, (n - 1) as nat) {
            Some(e) => Some(e),
            None => match resolution(s, Seq::empty(), s.definitions[n - 1].0) {
                Err(e) => Some(e),
                Ok(_) => None,
            },
        }
    }
}

/// The first value of the run, in the order of the names, for a variable that is not declared.
pub open spec fn undeclared_failure(s: Sources, n: nat) -> Option<Failure>
    decreases n,
{
    if n == 0 || n > s.overrides.len() {
        None
    } else {
        match undeclared_failure(s, (n - 1) as nat) {
            Some(e) => Some(e),
            None => if lookup(s.definitions, s.overrides[n - 1].0) is None {
                Some(Failure::UndeclaredVariable(s.overrides[n - 1].0))
            } else {
                None
            },
        }
    }
}

/// A step with the references in its texts replaced. A value that does not fit its field cannot
/// take the place of a reference.
pub open spec fn interpolated_step(step: StepView, vars: Lookup) -> Result<StepView, Failure> {
    match interpolated(step_tree(step), vars) {
        Err(e) => Err(e),
        Ok(tree) => match step_of(tree) {
            Some(done) => Ok(done),
            None => Err(Failure::InvalidInterpolatedStep),
        },
    }
}

pub open spec fn interpolated_steps(steps: Seq<StepView>, n: nat, vars: Lookup) -> Result<
    Seq<StepView>,
    Failure,
>
    decreases n,
{
    if n == 0 || n > steps.len() {
        Ok(Seq::empty())
    } else {
        match interpolated_steps(steps, (n - 1) as nat, vars) {
            Err(e) => Err(e),
            Ok(done) => match interpolated_step(steps[n - 1], vars) {
                Err(e) => Err(e),
                Ok(step) => Ok(done.push(step)),
            },
        }
    }
}

proof fn steps_stop(steps: Seq<StepView>, n: nat, m: nat, vars: Lookup)
    requires
        n <= m <= steps.len(),
        interpolated_steps(steps, n, vars) is Err,
    ensures
        interpolated_steps(steps, m, vars) == interpolated_steps(steps, n, vars),
    decreases m,
{
    if n < m {
        steps_stop(steps, n, (m - 1) as nat, vars);
    }
}

/// A text of the configuration with its references replaced.
pub open spec fn interpolated_setting(text: Seq<char>, vars: Lookup) -> Result<Seq<char>, Failure> {
    match interpolated_text(Seq::empty(), text, vars) {
        Err(e) => Err(e),
        Ok(value) => scalar_text(value),
    }
}

pub open spec fn interpolated_directory(directory: Option<Seq<char>>, vars: Lookup) -> Result<
    Option<Seq<char>>,
    Failure,
> {
    match directory {
        None => Ok(None),
        Some(text) => match interpolated_setting(text, vars) {
            Ok(done) => Ok(Some(done)),
            Err(e) => Err(e),
        },
    }
}

pub open spec fn interpolated_environment(
    entries: Seq<(Seq<char>, Seq<char>)>,
    n: nat,
    vars: Lookup,
) -> Result<Seq<(Seq<char>, Seq<char>)>, Failure>
    decreases n,
{
    if n == 0 || n > entries.len() {
        Ok(Seq::empty())
    } else {
        match interpolated_environment(entries, (n - 1) as nat, vars) {
            Err(e) => Err(e),
            Ok(done) => match interpolated_setting(entries[n - 1].1, vars) {
                Err(e) => Err(e),
                Ok(text) => Ok(done.push((entries[n - 1].0, text))),
            },
        }
    }
}

proof fn environment_stops(
    entries: Seq<(Seq<char>, Seq<char>)>,
    n: nat,
    m: nat,
    vars: Lookup,
)
    requires
        n <= m <= entries.len(),
        interpolated_environment(entries, n, vars) is Err,
    ensures
        interpolated_environment(entries, m, vars) == interpolated_environment(entries, n, vars),
    decreases m,
{
    if n < m {
        environment_stops(entries, n, (m - 1) as nat, vars);
    }
}

pub open spec fn error_of<T>(r: Result<T, Failure>) -> Option<Failure> {
    match r {
        Ok(_) => None,
        Err(e) => Some(e),
    }
}

pub open spec fn resolved_definition(d: AutomationDefinitionView, vars: Lookup) -> Result<
    AutomationDefinitionView,
    Failure,
> {
    match interpolated_steps(d.steps, d.steps.len(), vars) {
        Err(e) => Err(e),
        Ok(steps) => {
            let done = AutomationDefinitionView { steps, ..d };
            match definition_problem(done) {
                Some(problem) => Err(Failure::InvalidResolvedDefinition(problem)),
                None => Ok(done),
            }
        },
    }
}

/// What keeps a run from being resolved: an invalid definition; a variable that stands for nothing;
/// a value for a variable that is not declared; a reference in a step that cannot be replaced; a
/// definition that is no longer valid; a reference in the working directory or the environment that
/// cannot be replaced. They are looked for in this order.
pub open spec fn run_failure(d: AutomationDefinitionView, c: RunConfigView, s: Sources) -> Option<
    Failure,
> {
    let vars = scope(s, Seq::empty());
    match definition_problem(d) {
        Some(problem) => Some(Failure::InvalidDefinition(problem)),
        None => match variables_failure(s, s.definitions.len()) {
            Some(e) => Some(e),
            None => match undeclared_failure(s, s.overrides.len()) {
                Some(e) => Some(e),
                None => match resolved_definition(d, vars) {
                    Err(e) => Some(e),
                    Ok(_) => match interpolated_directory(c.working_directory, vars) {
                        Err(e) => Some(e),
                        Ok(_) => error_of(
                            interpolated_environment(c.environment, c.environment.len(), vars),
                        ),
                    },
                },
            },
        },
    }
}

/// The values of the variables that are not secret.
pub open spec fn public_value(s: Sources, name: Seq<char>) -> Option<Tree> {
    match lookup(s.definitions, name) {
        None => None,
        Some(_) => match resolution(s, Seq::empty(), name) {
            Ok(variable) => if variable.secret {
                None
            } else {
                Some(variable.value)
            },
            Err(_) => None,
        },
    }
}

/// The variables that took part in a run, by name.
pub open spec fn variable_value(s: Sources, name: Seq<char>) -> Option<Resolved> {
    match lookup(s.definitions, name) {
        None => None,
        Some(_) => match resolution(s, Seq::empty(), name) {
            Ok(variable) => Some(variable),
            Err(_) => None,
        },
    }
}

impl<'a> Resolution<'a> {
    fn resolve_all(&mut self) -> (r: Result<(), Stop>)
        requires
            old(self).inv(),
            old(self).path().len() == 0,
        ensures
            match r {
                Ok(_) => {
                    &&& final(self).inv()
                    &&& final(self).follows(*old(self))
                    &&& variables_failure(
                        old(self).sources(),
                        old(self).sources().definitions.len(),
                    ) is None
                    &&& forall|n: Seq<char>|
                        lookup(old(self).sources().definitions, n) is Some
                            ==> #[trigger] final(self).known(n)
                },
                Err(e) => variables_failure(
                    old(self).sources(),
                    old(self).sources().definitions.len(),
                ) == Some(e@),
            },
    {
        let ghost s = self.sources();
        let definitions = self.definitions;
        let mut i: usize = 0;
        assert(self.path() =~= Seq::empty());
        while i < definitions.len()
            invariant
                i <= definitions@.len(),
                definitions == old(self).definitions,
                s == old(self).sources(),
                self.inv(),
                self.follows(*old(self)),
                old(self).path() == Seq::<Seq<char>>::empty(),
                variables_failure(s, i as nat) is None,
                forall|j: int| 0 <= j < i ==> self.known((#[trigger] s.definitions[j]).0),
            decreases definitions@.len() - i,
        {
            let ghost before_call = *self;
            let name = definitions.key_at(i);
            match self.resolve_variable(name.as_str()) {
                Ok(_) => {},
                Err(e) => {
                    proof {
                        variables_stop(s, (i + 1) as nat, s.definitions.len());
                    }
                    return Err(e);
                },
            }
            proof {
                assert forall|j: int| 0 <= j < i + 1 implies self.known(
                    (#[trigger] s.definitions[j]).0,
                ) by {
                    if j < i {
                        assert(before_call.known(s.definitions[j].0));
                    }
                }
            }
            i = i + 1;
        }
        proof {
            assert forall|n: Seq<char>| lookup(s.definitions, n) is Some implies
                #[trigger] self.known(n) by {
                let k = lookup_some(s.definitions, n);
                assert(self.known(s.definitions[k].0));
            }
        }
        Ok(())
    }

    fn interpolate_steps(&mut self, steps: &Vec<Step>) -> (r: Result<
        Vec<Step>,
        Stop,
    >)
        requires
            old(self).inv(),
        ensures
            match r {
                Ok(done) => {
                    &&& final(self).inv()
                    &&& final(self).follows(*old(self))
                    &&& interpolated_steps(
                        views(steps@),
                        steps@.len(),
                        scope(old(self).sources(), old(self).path()),
                    ) == Ok::<Seq<StepView>, Failure>(views(done@))
                },
                Err(e) => interpolated_steps(
                    views(steps@),
                    steps@.len(),
                    scope(old(self).sources(), old(self).path()),
                ) == Err::<Seq<StepView>, Failure>(e@),
            },
    {
        let ghost s = self.sources();
        let ghost path = self.path();
        let ghost vars = scope(s, path);
        let ghost all = views(steps@);
        let mut done: Vec<Step> = Vec::new();
        let mut i: usize = 0;
        assert(views(done@) =~= Seq::empty());
        while i < steps.len()
            invariant
                i <= steps@.len(),
                all == views(steps@),
                self.inv(),
                self.follows(*old(self)),
                s == old(self).sources(),
                path == old(self).path(),
                vars == scope(s, path),
                interpolated_steps(all, i as nat, vars) == Ok::<Seq<StepView>, Failure>(
                    views(done@),
                ),
            decreases steps@.len() - i,
        {
            let encoded = encode_step(&steps[i]);
            assert(all[i as int] == steps@[i as int]@);
            let step = match self.interpolate(&encoded) {
                Ok(value) => match decode_step(&value) {
                    Some(step) => step,
                    None => {
                        proof {
                            steps_stop(all, (i + 1) as nat, all.len(), vars);
                        }
                        return Err(Stop::Failed(VariableResolutionError::InvalidInterpolatedStep));
                    },
                },
                Err(e) => {
                    proof {
                        steps_stop(all, (i + 1) as nat, all.len(), vars);
                    }
                    return Err(e);
                },
            };
            let ghost front = views(done@);
            let ghost view = step@;
            done.push(step);
            assert(views(done@) =~= front.push(view));
            i = i + 1;
        }
        Ok(done)
    }

    fn interpolate_setting(&mut self, text: &str) -> (r: Result<String, Stop>)
        requires
            old(self).inv(),
        ensures
            match r {
                Ok(done) => {
                    &&& final(self).inv()
                    &&& final(self).follows(*old(self))
                    &&& interpolated_setting(text@, scope(old(self).sources(), old(self).path()))
                        == Ok::<Seq<char>, Failure>(done@)
                },
                Err(e) => interpolated_setting(
                    text@,
                    scope(old(self).sources(), old(self).path()),
                ) == Err::<Seq<char>, Failure>(e@),
            },
    {
        match self.interpolate_text(text) {
            Ok(value) => match scalar_to_string(&value) {
                Ok(done) => Ok(done),
                Err(e) => Err(Stop::Failed(e)),
            },
            Err(e) => Err(e),
        }
    }

    fn interpolate_directory(&mut self, directory: &Option<String>) -> (r: Result<
        Option<String>,
        Stop,
    >)
        requires
            old(self).inv(),
        ensures
            match r {
                Ok(done) => {
                    &&& final(self).inv()
                    &&& final(self).follows(*old(self))
                    &&& interpolated_directory(
                        opt_text(*directory),
                        scope(old(self).sources(), old(self).path()),
                    ) == Ok::<Option<Seq<char>>, Failure>(opt_text(done))
                },
                Err(e) => interpolated_directory(
                    opt_text(*directory),
                    scope(old(self).sources(), old(self).path()),
                ) == Err::<Option<Seq<char>>, Failure>(e@),
            },
    {
        match directory {
            None => Ok(None),
            Some(text) => match self.interpolate_setting(text.as_str()) {
                Ok(done) => Ok(Some(done)),
                Err(e) => Err(e),
            },
        }
    }

    fn interpolate_environment(&mut self, environment: &TextMap<String>) -> (r: Result<
        TextMap<String>,
        Stop,
    >)
        requires
            old(self).inv(),
        ensures
            match r {
                Ok(done) => {
                    &&& final(self).inv()
                    &&& final(self).follows(*old(self))
                    &&& interpolated_environment(
                        entry_views(environment@),
                        environment@.len(),
                        scope(old(self).sources(), old(self).path()),
                    ) == Ok::<Seq<(Seq<char>, Seq<char>)>, Failure>(entry_views(done@))
                },
                Err(e) => interpolated_environment(
                    entry_views(environment@),
                    environment@.len(),
                    scope(old(self).sources(), old(self).path()),
                ) == Err::<Seq<(Seq<char>, Seq<char>)>, Failure>(e@),
            },
    {
        let ghost s = self.sources();
        let ghost path = self.path();
        let ghost vars = scope(s, path);
        let ghost all = entry_views(environment@);
        let mut done: TextMap<String> = TextMap::new();
        let mut i: usize = 0;
        assert(entry_views(done@) =~= Seq::empty());
        let total: usize = environment.len();
        while i < total
            invariant
                i <= total == environment@.len(),
                ascending(environment@),
                all == entry_views(environment@),
                self.inv(),
                self.follows(*old(self)),
                s == old(self).sources(),
                path == old(self).path(),
                vars == scope(s, path),
                done@.len() == i,
                forall|j: int| 0 <= j < i ==> (#[trigger] done@[j]).0 == environment@[j].0,
                interpolated_environment(all, i as nat, vars) == Ok::<
                    Seq<(Seq<char>, Seq<char>)>,
                    Failure,
                >(entry_views(done@)),
            decreases environment@.len() - i,
        {
            let text = match self.interpolate_setting(environment.value_at(i).as_str()) {
                Ok(text) => text,
                Err(e) => {
                    proof {
                        environment_stops(all, (i + 1) as nat, all.len(), vars);
                    }
                    return Err(e);
                },
            };
            let ghost earlier = done@;
            let ghost value = text;
            let key = environment.key_at(i).clone();
            let ghost name = key@;
            done.insert(key, text);
            proof {
                if i > 0 {
                    assert(earlier[i - 1].0 == environment@[i - 1].0);
                    assert(before(environment@[i - 1].0, environment@[i as int].0));
                    before_irreflexive(name);
                }
                assert(done@ =~= earlier.push((name, value)));
                assert(entry_views(done@) =~= entry_views(earlier).push((name, value@)));
            }
            i = i + 1;
        }
        Ok(done)
    }

    /// The known variables that are not secret.
    fn public_variables(&self) -> (r: TextMap<Json>)
        requires
            self.inv(),
        ensures
            forall|n: Seq<char>|
                #[trigger] lookup(r@, n) is Some <==> self.known(n) && !self.entry(n).secret,
            forall|n: Seq<char>|
                self.known(n) && !self.entry(n).secret ==> (#[trigger] lookup(r@, n))->0@
                    == self.entry(n).value,
    {
        let mut map: TextMap<Json> = TextMap::new();
        let mut i: usize = 0;
        while i < self.resolved.len()
            invariant
                i <= self.resolved@.len(),
                ascending(self.resolved@),
                ascending(map@),
                forall|n: Seq<char>|
                    #[trigger] lookup(map@, n) is Some <==> (lookup(
                        self.resolved@.take(i as int),
                        n,
                    ) matches Some(v) && !v@.secret),
                forall|n: Seq<char>|
                    (lookup(self.resolved@.take(i as int), n) matches Some(v) && !v@.secret)
                        ==> (#[trigger] lookup(map@, n))->0@ == lookup(
                        self.resolved@.take(i as int),
                        n,
                    )->0@.value,
            decreases self.resolved@.len() - i,
        {
            let variable = self.resolved.value_at(i);
            let key = self.resolved.key_at(i).clone();
            let ghost name = key@;
            let ghost earlier = map@;
            let ghost taken = self.resolved@.take(i as int);
            proof {
                assert(self.resolved@.take(i + 1) =~= taken.push(self.resolved@[i as int]));
                assert forall|n: Seq<char>| lookup(self.resolved@.take(i + 1), n) == (if n == name {
                    Some(self.resolved@[i as int].1)
                } else {
                    lookup(taken, n)
                }) by {
                    if n == name {
                        assert forall|j: int| 0 <= j < i implies (
                        #[trigger] self.resolved@.take(i + 1)[j]).0 != name by {
                            assert(before(self.resolved@[j].0, self.resolved@[i as int].0));
                            before_irreflexive(name);
                        }
                        lookup_at(self.resolved@.take(i + 1), name, i as int);
                    } else {
                        lookup_push(taken, self.resolved@[i as int], n);
                    }
                }
                assert forall|j: int| 0 <= j < taken.len() implies (#[trigger] taken[j]).0
                    != name by {
                    assert(before(self.resolved@[j].0, self.resolved@[i as int].0));
                    before_irreflexive(name);
                }
                lookup_none(taken, name);
            }
            if !variable.is_secret() {
                let value = variable.value().clone();
                let ghost shown = value;
                map.insert(key, value);
                proof {
                    put_ascending(earlier, name, shown);
                    assert forall|n: Seq<char>| #[trigger] lookup(map@, n) == (if n == name {
                        Some(shown)
                    } else {
                        lookup(earlier, n)
                    }) by {
                        put_lookup(earlier, name, shown, n);
                    }
                }
            }
            i = i + 1;
        }
        assert(self.resolved@.take(i as int) =~= self.resolved@);
        map
    }
}

proof fn variables_stop(s: Sources, n: nat, m: nat)
    requires
        n <= m <= s.definitions.len(),
        variables_failure(s, n) is Some,
    ensures
        variables_failure(s, m) == variables_failure(s, n),
    decreases m,
{
    if n < m {
        variables_stop(s, n, (m - 1) as nat);
    }
}

proof fn undeclared_stops(s: Sources, n: nat, m: nat)
    requires
        n <= m <= s.overrides.len(),
        undeclared_failure(s, n) is Some,
    ensures
        undeclared_failure(s, m) == undeclared_failure(s, n),
    decreases m,
{
    if n < m {
        undeclared_stops(s, n, (m - 1) as nat);
    }
}

fn check_overrides(
    definitions: &TextMap<VariableDefinition>,
    overrides: &TextMap<Json>,
    Ghost(s): Ghost<Sources>,
) -> (r: Result<(), Stop>)
    requires
        s.definitions == entry_views(definitions@),
        s.overrides == entry_views(overrides@),
    ensures
        match r {
            Ok(_) => undeclared_failure(s, s.overrides.len()) is None,
            Err(e) => undeclared_failure(s, s.overrides.len()) == Some(e@),
        },
{
    let mut i: usize = 0;
    while i < overrides.len()
        invariant
            i <= overrides@.len(),
            s.definitions == entry_views(definitions@),
            s.overrides == entry_views(overrides@),
            undeclared_failure(s, i as nat) is None,
        decreases overrides@.len() - i,
    {
        let name = overrides.key_at(i);
        proof {
            lookup_views(definitions@, name@);
        }
        if !definitions.contains_key(name.as_str()) {
            proof {
                undeclared_stops(s, (i + 1) as nat, s.overrides.len());
            }
            return Err(Stop::Failed(VariableResolutionError::UndeclaredVariable(name.clone())));
        }
        i = i + 1;
    }
    Ok(())
}

/// What comes of resolving a run: an error exactly where there is a reason for one, and otherwise
/// the definition and the configuration with every reference replaced.
pub open spec fn run_resolved(
    definition: AutomationDefinitionView,
    config: RunConfigView,
    s: Sources,
    r: Result<ResolvedRun, VariableResolutionError>,
) -> bool {
    let vars = scope(s, Seq::empty());
    match r {
        Err(e) => run_failure(definition, config, s) == Some(e@),
        Ok(run) => {
            &&& run_failure(definition, config, s) is None
            &&& resolved_definition(definition, vars) == Ok::<AutomationDefinitionView, Failure>(
                run.spec_definition()@,
            )
            &&& run.spec_config()@ == (RunConfigView {
                variables: run.spec_config()@.variables,
                working_directory: interpolated_directory(config.working_directory, vars)->Ok_0,
                environment: interpolated_environment(
                    config.environment,
                    config.environment.len(),
                    vars,
                )->Ok_0,
                ..config
            })
            &&& forall|name: Seq<char>|
                #[trigger] lookup(run.spec_config()@.variables, name) == public_value(s, name)
            &&& forall|name: Seq<char>|
                opt_view(#[trigger] lookup(run.spec_variables()@, name)) == variable_value(s, name)
        },
    }
}

/// Resolves the variables of a run with the answers so far, and replaces every reference to a
/// variable.
fn resolve_so_far(
    definition: &AutomationDefinition,
    config: &RunConfig,
    secrets: &TextMap<SecretAnswer>,
) -> (r: Result<ResolvedRun, Stop>)
    ensures
        match r {
            Ok(run) => run_resolved(
                definition@,
                config@,
                sources(definition.variables, config.variables, *secrets),
                Ok(run),
            ),
            Err(stop) => run_failure(
                definition@,
                config@,
                sources(definition.variables, config.variables, *secrets),
            ) == Some(stop@),
        },
{
    let ghost s = sources(definition.variables, config.variables, *secrets);
    let ghost vars = scope(s, Seq::empty());
    match definition.validate() {
        Ok(_) => {},
        Err(e) => {
            return Err(Stop::Failed(VariableResolutionError::InvalidDefinition(e)));
        },
    }
    let mut state = Resolution {
        definitions: &definition.variables,
        overrides: &config.variables,
        secrets,
        resolved: TextMap::new(),
        resolving: Vec::new(),
        order: Ghost(Seq::empty()),
    };
    proof {
        assert(state.path() =~= Seq::empty());
        assert(state.sources() == s);
        assert forall|n: Seq<char>| state.known(n)
            == #[trigger] state.order@.contains(n) by {
            lookup_none(state.resolved@, n);
        }
        assert(state.inv());
    }
    match state.resolve_all() {
        Ok(_) => {},
        Err(e) => {
            return Err(e);
        },
    }
    match check_overrides(&definition.variables, &config.variables, Ghost(s)) {
        Ok(_) => {},
        Err(e) => {
            return Err(e);
        },
    }
    let steps = match state.interpolate_steps(&definition.steps) {
        Ok(steps) => steps,
        Err(e) => {
            return Err(e);
        },
    };
    let mut resolved_definition = definition.clone();
    resolved_definition.steps = steps;
    match resolved_definition.validate() {
        Ok(_) => {},
        Err(e) => {
            return Err(Stop::Failed(VariableResolutionError::InvalidResolvedDefinition(e)));
        },
    }
    let working_directory = match state.interpolate_directory(&config.working_directory) {
        Ok(directory) => directory,
        Err(e) => {
            return Err(e);
        },
    };
    let environment = match state.interpolate_environment(&config.environment) {
        Ok(environment) => environment,
        Err(e) => {
            return Err(e);
        },
    };
    let mut resolved_config = config.clone();
    resolved_config.variables = state.public_variables();
    resolved_config.working_directory = working_directory;
    resolved_config.environment = environment;
    let ghost done = state;
    let run = ResolvedRun {
        definition: resolved_definition,
        config: resolved_config,
        variables: state.resolved,
    };
    proof {
        assert forall|name: Seq<char>| #[trigger] done.known(name) == (lookup(
            s.definitions,
            name,
        ) is Some) && (done.known(name) ==> resolution(s, Seq::empty(), name) == Ok::<
            Resolved,
            Failure,
        >(done.entry(name))) by {
            if done.known(name) {
                assert(done.order@.contains(name));
                let k = choose|k: int| 0 <= k < done.order@.len() && done.order@[k] == name;
                assert(lookup(s.definitions, done.order@[k]) is Some);
                done.known_settled(Seq::empty(), name);
            }
        }
        assert forall|name: Seq<char>|
            #[trigger] lookup(run.spec_config()@.variables, name) == public_value(s, name) by {
            lookup_views(run.config.variables@, name);
            assert(done.known(name) == (lookup(s.definitions, name) is Some));
            assert(lookup(run.config.variables@, name) is Some <==> done.known(name) && !done.entry(
                name,
            ).secret);
        }
        assert forall|name: Seq<char>| opt_view(
            #[trigger] lookup(run.spec_variables()@, name),
        ) == variable_value(s, name) by {
            assert(done.known(name) == (lookup(s.definitions, name) is Some));
        }
    }
    Ok(run)
}

/// Resolves the variables of a run with the secrets that were given for them, and replaces every
/// reference to a variable. A secret that was not given is not available.
pub fn resolve_run_with(
    definition: &AutomationDefinition,
    config: &RunConfig,
    secrets: &TextMap<SecretAnswer>,
) -> (r: Result<ResolvedRun, VariableResolutionError>)
    ensures
        ({
            let s = sources(definition.variables, config.variables, *secrets);
            match run_failure(definition@, config@, s) {
                Some(Failure::Unasked { name, reference }) => r matches Err(e) && e@
                    == Failure::Secret(SecretFailure::Unavailable { reference }),
                _ => run_resolved(definition@, config@, s, r),
            }
        }),
{
    match resolve_so_far(definition, config, secrets) {
        Ok(run) => Ok(run),
        Err(Stop::Failed(e)) => Err(e),
        Err(Stop::Unasked { reference, .. }) => Err(
            VariableResolutionError::Secret(SecretResolutionError::Unavailable { reference }),
        ),
    }
}

/// The secret that a variable needs: that of its default, where the run has no value for it.
pub open spec fn secret_needed(
    definitions: Seq<(Seq<char>, VariableDefinitionView)>,
    overrides: Seq<(Seq<char>, Tree)>,
    name: Seq<char>,
) -> Option<Seq<char>> {
    match lookup(definitions, name) {
        Some(definition) => match definition.default {
            Some(VariableSourceView::SecretReference { reference }) => if lookup(
                overrides,
                name,
            ) is None {
                Some(reference)
            } else {
                None
            },
            _ => None,
        },
        None => None,
    }
}

/// Whether a resolver may answer so to a reference.
pub open spec fn may_answer<R: SecretResolver>(
    resolver: &R,
    reference: Seq<char>,
    answer: Result<Tree, SecretFailure>,
) -> bool {
    exists|asked: &str, r: Result<Json, SecretResolutionError>|
        {
            &&& asked@ == reference
            &&& #[trigger] call_ensures(R::resolve_secret, (resolver, asked), r)
            &&& answer == (match r {
                Ok(value) => Ok(value@),
                Err(e) => Err(e@),
            })
        }
}

/// What was answered when a secret was asked for, by the name of the variable that needed it.
pub type Answers = Seq<(Seq<char>, Result<Tree, SecretFailure>)>;

/// The answers by name.
pub open spec fn answers_by_name(asked: Answers) -> Answers
    decreases asked.len(),
{
    if asked.len() == 0 {
        Seq::empty()
    } else {
        put(answers_by_name(asked.drop_last()), asked.last().0, asked.last().1)
    }
}

/// What the values of variables are made from, with these answers.
pub open spec fn sources_with(
    d: AutomationDefinitionView,
    c: RunConfigView,
    asked: Answers,
) -> Sources {
    Sources {
        definitions: d.variables,
        overrides: c.variables,
        secrets: answers_by_name(asked),
    }
}

/// Whether the resolver was asked for a secret when the run could not be resolved any further
/// without it, with the answers before.
#[verifier::opaque]
pub open spec fn asked_after<R: SecretResolver>(
    d: AutomationDefinitionView,
    c: RunConfigView,
    resolver: &R,
    asked: Answers,
    next: (Seq<char>, Result<Tree, SecretFailure>),
) -> bool {
    match run_failure(d, c, sources_with(d, c, asked)) {
        Some(Failure::Unasked { name, reference }) => name == next.0 && may_answer(
            resolver,
            reference,
            next.1,
        ),
        _ => false,
    }
}

/// Whether the resolver was asked for these secrets, one after the other.
pub open spec fn asked_in_turn<R: SecretResolver>(
    d: AutomationDefinitionView,
    c: RunConfigView,
    resolver: &R,
    asked: Answers,
) -> bool {
    forall|i: int|
        0 <= i < asked.len() ==> asked_after(d, c, resolver, asked.take(i), #[trigger] asked[i])
}

/// Asks a resolver for a secret.
fn ask<R: SecretResolver>(resolver: &R, reference: &str) -> (r: SecretAnswer)
    ensures
        may_answer(resolver, reference@, r@),
{
    let answer = resolver.resolve_secret(reference);
    assert(call_ensures(R::resolve_secret, (resolver, reference), answer));
    match answer {
        Ok(value) => SecretAnswer::Given(value),
        Err(e) => SecretAnswer::Refused(e),
    }
}

/// Where replacing references stops at a secret that nobody was asked for, a variable does.
proof fn text_stops_at_variable(output: Seq<char>, text: Seq<char>, vars: Lookup)
    requires
        interpolated_text(output, text, vars) matches Err(e) && e is Unasked,
    ensures
        exists|n: Seq<char>|
            (#[trigger] vars(n)) is Err && vars(n)->Err_0 == interpolated_text(
                output,
                text,
                vars,
            )->Err_0,
    decreases text.len(),
{
    crate::interpolate::suffix_shorter(text);
    if let Reference::Found { prefix, name, suffix } = first_reference(text) {
        if vars(name) is Ok {
            let value = vars(name)->Ok_0;
            if scalar_text(value) is Ok {
                text_stops_at_variable(
                    output + prefix + scalar_text(value)->Ok_0,
                    suffix,
                    vars,
                );
            }
        }
    }
}

proof fn value_stops_at_variable(value: Tree, vars: Lookup)
    requires
        interpolated(value, vars) matches Err(e) && e is Unasked,
    ensures
        exists|n: Seq<char>|
            (#[trigger] vars(n)) is Err && vars(n)->Err_0 == interpolated(value, vars)->Err_0,
    decreases value, 0nat,
{
    match value {
        Tree::Text(text) => text_stops_at_variable(Seq::empty(), text, vars),
        Tree::Array(items) => items_stop_at_variable(items, items.len(), vars),
        Tree::Object(entries) => entries_stop_at_variable(entries, entries.len(), vars),
        _ => {},
    }
}

proof fn items_stop_at_variable(items: Seq<Tree>, n: nat, vars: Lookup)
    requires
        interpolated_items(items, n, vars) matches Err(e) && e is Unasked,
    ensures
        exists|k: Seq<char>|
            (#[trigger] vars(k)) is Err && vars(k)->Err_0 == interpolated_items(
                items,
                n,
                vars,
            )->Err_0,
    decreases items, n,
{
    if interpolated_items(items, (n - 1) as nat, vars) is Err {
        items_stop_at_variable(items, (n - 1) as nat, vars);
    } else {
        value_stops_at_variable(items[n - 1], vars);
    }
}

proof fn entries_stop_at_variable(entries: Seq<(Seq<char>, Tree)>, n: nat, vars: Lookup)
    requires
        interpolated_entries(entries, n, vars) matches Err(e) && e is Unasked,
    ensures
        exists|k: Seq<char>|
            (#[trigger] vars(k)) is Err && vars(k)->Err_0 == interpolated_entries(
                entries,
                n,
                vars,
            )->Err_0,
    decreases entries, n,
{
    if interpolated_entries(entries, (n - 1) as nat, vars) is Err {
        entries_stop_at_variable(entries, (n - 1) as nat, vars);
    } else {
        value_stops_at_variable(entries[n - 1].1, vars);
    }
}

/// Whether a failure is about a secret that a variable needs and that nobody was asked for.
pub open spec fn needs_asking(s: Sources, e: Failure) -> bool {
    e matches Failure::Unasked { name, reference } ==> {
        &&& secret_needed(s.definitions, s.overrides, name) == Some(reference)
        &&& lookup(s.secrets, name) is None
    }
}

proof fn variable_needs_asking(s: Sources, path: Seq<Seq<char>>, name: Seq<char>)
    requires
        resolution(s, path, name) is Err,
    ensures
        needs_asking(s, resolution(s, path, name)->Err_0),
    decreases s.definitions.len() + 1 - path.len(),
{
    let e = resolution(s, path, name)->Err_0;
    if e is Unasked {
        let definition = lookup(s.definitions, name)->0;
        if raw_value(s, name, definition) is Ok {
            let raw = raw_value(s, name, definition)->Ok_0.0;
            let vars = scope(s, path.push(name));
            value_stops_at_variable(raw, vars);
            let n = choose|n: Seq<char>|
                (#[trigger] vars(n)) is Err && vars(n)->Err_0 == interpolated(raw, vars)->Err_0;
            assert(vars(n) is Err);
            variable_needs_asking(s, path.push(name), n);
        }
    }
}

proof fn scope_needs_asking(s: Sources, e: Failure)
    requires
        exists|n: Seq<char>|
            (#[trigger] scope(s, Seq::empty())(n)) is Err && scope(s, Seq::empty())(n)->Err_0 == e,
    ensures
        needs_asking(s, e),
{
    let vars = scope(s, Seq::empty());
    let n = choose|n: Seq<char>| (#[trigger] vars(n)) is Err && vars(n)->Err_0 == e;
    variable_needs_asking(s, Seq::empty(), n);
}

proof fn variables_need_asking(s: Sources, n: nat)
    requires
        variables_failure(s, n) is Some,
    ensures
        needs_asking(s, variables_failure(s, n)->0),
    decreases n,
{
    if variables_failure(s, (n - 1) as nat) is Some {
        variables_need_asking(s, (n - 1) as nat);
    } else {
        variable_needs_asking(s, Seq::empty(), s.definitions[n - 1].0);
    }
}

proof fn steps_need_asking(s: Sources, steps: Seq<StepView>, n: nat)
    requires
        interpolated_steps(steps, n, scope(s, Seq::empty())) is Err,
    ensures
        needs_asking(s, interpolated_steps(steps, n, scope(s, Seq::empty()))->Err_0),
    decreases n,
{
    let vars = scope(s, Seq::empty());
    if interpolated_steps(steps, (n - 1) as nat, vars) is Err {
        steps_need_asking(s, steps, (n - 1) as nat);
    } else {
        let value = step_tree(steps[n - 1]);
        if interpolated(value, vars) is Err && interpolated(value, vars)->Err_0 is Unasked {
            value_stops_at_variable(value, vars);
            scope_needs_asking(s, interpolated(value, vars)->Err_0);
        }
    }
}

proof fn setting_needs_asking(s: Sources, text: Seq<char>)
    requires
        interpolated_setting(text, scope(s, Seq::empty())) is Err,
    ensures
        needs_asking(s, interpolated_setting(text, scope(s, Seq::empty()))->Err_0),
{
    let vars = scope(s, Seq::empty());
    let r = interpolated_text(Seq::empty(), text, vars);
    if r is Err && r->Err_0 is Unasked {
        text_stops_at_variable(Seq::empty(), text, vars);
        scope_needs_asking(s, r->Err_0);
    }
}

proof fn environment_needs_asking(s: Sources, entries: Seq<(Seq<char>, Seq<char>)>, n: nat)
    requires
        interpolated_environment(entries, n, scope(s, Seq::empty())) is Err,
    ensures
        needs_asking(s, interpolated_environment(entries, n, scope(s, Seq::empty()))->Err_0),
    decreases n,
{
    let vars = scope(s, Seq::empty());
    if interpolated_environment(entries, (n - 1) as nat, vars) is Err {
        environment_needs_asking(s, entries, (n - 1) as nat);
    } else {
        setting_needs_asking(s, entries[n - 1].1);
    }
}

/// A run stops only at secrets that one of its variables needs and that nobody was asked for.
pub proof fn only_needed_secrets_are_asked(
    d: AutomationDefinitionView,
    c: RunConfigView,
    s: Sources,
)
    requires
        run_failure(d, c, s) is Some,
    ensures
        needs_asking(s, run_failure(d, c, s)->0),
{
    let vars = scope(s, Seq::empty());
    if definition_problem(d) is None {
        if variables_failure(s, s.definitions.len()) is Some {
            variables_need_asking(s, s.definitions.len());
        } else if undeclared_failure(s, s.overrides.len()) is Some {
            undeclared_is_plain(s, s.overrides.len());
        } else if resolved_definition(d, vars) is Err {
            if interpolated_steps(d.steps, d.steps.len(), vars) is Err {
                steps_need_asking(s, d.steps, d.steps.len());
            }
        } else if interpolated_directory(c.working_directory, vars) is Err {
            setting_needs_asking(s, c.working_directory->0);
        } else {
            environment_needs_asking(s, c.environment, c.environment.len());
        }
    }
}

proof fn undeclared_is_plain(s: Sources, n: nat)
    requires
        undeclared_failure(s, n) is Some,
    ensures
        undeclared_failure(s, n)->0 is UndeclaredVariable,
    decreases n,
{
    if undeclared_failure(s, (n - 1) as nat) is Some {
        undeclared_is_plain(s, (n - 1) as nat);
    }
}

/// How many of the first variables have no answer.
spec fn unanswered(
    definitions: Seq<(Seq<char>, VariableDefinitionView)>,
    secrets: Answers,
    n: nat,
) -> nat
    decreases n,
{
    if n == 0 || n > definitions.len() {
        0
    } else {
        unanswered(definitions, secrets, (n - 1) as nat) + if lookup(
            secrets,
            definitions[n - 1].0,
        ) is None {
            1nat
        } else {
            0nat
        }
    }
}

proof fn answer_counts(
    definitions: Seq<(Seq<char>, VariableDefinitionView)>,
    secrets: Answers,
    name: Seq<char>,
    answer: Result<Tree, SecretFailure>,
    n: nat,
)
    requires
        ascending(secrets),
        n <= definitions.len(),
        lookup(secrets, name) is None,
    ensures
        unanswered(definitions, put(secrets, name, answer), n) <= unanswered(
            definitions,
            secrets,
            n,
        ),
        (exists|i: int| 0 <= i < n && (#[trigger] definitions[i]).0 == name) ==> unanswered(
            definitions,
            put(secrets, name, answer),
            n,
        ) < unanswered(definitions, secrets, n),
    decreases n,
{
    if n > 0 {
        answer_counts(definitions, secrets, name, answer, (n - 1) as nat);
        put_lookup(secrets, name, answer, definitions[n - 1].0);
        if exists|i: int| 0 <= i < n && (#[trigger] definitions[i]).0 == name {
            let i = choose|i: int| 0 <= i < n && (#[trigger] definitions[i]).0 == name;
            if i < n - 1 {
                assert(definitions[i].0 == name);
            }
        }
    }
}

/// An answer more, to what the run could not be resolved without.
proof fn asked_more<R: SecretResolver>(
    d: AutomationDefinitionView,
    c: RunConfigView,
    resolver: &R,
    asked: Answers,
    name: Seq<char>,
    reference: Seq<char>,
    answer: Result<Tree, SecretFailure>,
)
    requires
        asked_in_turn(d, c, resolver, asked),
        run_failure(d, c, sources_with(d, c, asked)) == Some(Failure::Unasked { name, reference }),
        may_answer(resolver, reference, answer),
        ascending(answers_by_name(asked)),
    ensures
        asked_in_turn(d, c, resolver, asked.push((name, answer))),
        answers_by_name(asked.push((name, answer))) == put(answers_by_name(asked), name, answer),
        ascending(answers_by_name(asked.push((name, answer)))),
        unanswered(
            d.variables,
            answers_by_name(asked.push((name, answer))),
            d.variables.len(),
        ) < unanswered(d.variables, answers_by_name(asked), d.variables.len()),
{
    let more = asked.push((name, answer));
    assert(more.drop_last() =~= asked);
    assert(asked_after(d, c, resolver, asked, (name, answer))) by {
        reveal(asked_after);
    }
    needed_and_new(d, c, sources_with(d, c, asked), name, reference);
    put_ascending(answers_by_name(asked), name, answer);
    answer_counts(d.variables, answers_by_name(asked), name, answer, d.variables.len());
    assert forall|i: int| 0 <= i < more.len() implies asked_after(
        d,
        c,
        resolver,
        more.take(i),
        #[trigger] more[i],
    ) by {
        assert(more.take(i) =~= asked.take(i));
        if i < asked.len() {
            assert(more[i] == asked[i]);
        } else {
            assert(asked.take(i) =~= asked);
        }
    }
}

proof fn needed_and_new(
    d: AutomationDefinitionView,
    c: RunConfigView,
    s: Sources,
    name: Seq<char>,
    reference: Seq<char>,
)
    requires
        run_failure(d, c, s) == Some(Failure::Unasked { name, reference }),
    ensures
        secret_needed(s.definitions, s.overrides, name) == Some(reference),
        lookup(s.secrets, name) is None,
        exists|i: int| 0 <= i < s.definitions.len() && (#[trigger] s.definitions[i]).0 == name,
{
    only_needed_secrets_are_asked(d, c, s);
    let k = lookup_some(s.definitions, name);
    assert(s.definitions[k].0 == name);
}

/// No secret was asked for yet.
proof fn nothing_asked<R: SecretResolver>(
    d: AutomationDefinitionView,
    c: RunConfigView,
    resolver: &R,
)
    ensures
        asked_in_turn(d, c, resolver, Seq::empty()),
        answers_by_name(Seq::empty()) == Seq::<(Seq<char>, Result<Tree, SecretFailure>)>::empty(),
        ascending(answers_by_name(Seq::empty())),
{
}

/// Resolves the variables of a run and replaces every reference to them. The resolver is asked for
/// a secret when the run cannot be resolved any further without it, once for each variable.
pub fn resolve_run<R: SecretResolver>(
    definition: &AutomationDefinition,
    config: &RunConfig,
    secret_resolver: &R,
) -> (r: Result<ResolvedRun, VariableResolutionError>)
    ensures
        exists|asked: Answers|
            {
                &&& #[trigger] asked_in_turn(definition@, config@, secret_resolver, asked)
                &&& run_resolved(
                    definition@,
                    config@,
                    sources_with(definition@, config@, asked),
                    r,
                )
            },
{
    let mut answers: TextMap<SecretAnswer> = TextMap::new();
    let ghost mut asked: Answers = Seq::empty();
    let ghost d = definition@;
    let ghost c = config@;
    proof {
        nothing_asked(d, c, secret_resolver);
        assert(entry_views(answers@) =~= answers_by_name(asked));
    }
    loop
        invariant
            d == definition@,
            c == config@,
            entry_views(answers@) == answers_by_name(asked),
            ascending(entry_views(answers@)),
            asked_in_turn(d, c, secret_resolver, asked),
        decreases unanswered(d.variables, entry_views(answers@), d.variables.len()),
    {
        let ghost s = sources(definition.variables, config.variables, answers);
        assert(s == sources_with(d, c, asked));
        match resolve_so_far(definition, config, &answers) {
            Ok(run) => {
                assert(asked_in_turn(d, c, secret_resolver, asked));
                return Ok(run);
            },
            Err(Stop::Failed(e)) => {
                assert(asked_in_turn(d, c, secret_resolver, asked));
                return Err(e);
            },
            Err(Stop::Unasked { name, reference }) => {
                let ghost wanted = name@;
                let answer = ask(secret_resolver, reference.as_str());
                let ghost earlier = answers@;
                let ghost given = answer;
                answers.insert(name, answer);
                proof {
                    put_views(earlier, wanted, given);
                    asked_more(d, c, secret_resolver, asked, wanted, reference@, given@);
                    let more = asked.push((wanted, given@));
                    asked = more;
                }
            },
        }
    }
}

/// Where the run has a value for each variable whose default is a secret, no resolver is asked.
pub proof fn secrets_are_not_needed<R: SecretResolver>(
    d: AutomationDefinitionView,
    c: RunConfigView,
    resolver: &R,
    asked: Answers,
)
    requires
        asked_in_turn(d, c, resolver, asked),
        forall|name: Seq<char>| #[trigger] secret_needed(d.variables, c.variables, name) is None,
    ensures
        asked.len() == 0,
{
    if asked.len() > 0 {
        let name = asked[0].0;
        reveal(asked_after);
        only_needed_secrets_are_asked(d, c, sources_with(d, c, asked.take(0)));
        assert(secret_needed(d.variables, c.variables, name) is None);
    }
}

/// A run without secrets to offer refuses every secret that it is asked for.
pub proof fn no_secrets_refuse(
    d: AutomationDefinitionView,
    c: RunConfigView,
    asked: Answers,
    i: int,
)
    requires
        asked_in_turn(d, c, &NoSecrets, asked),
        0 <= i < asked.len(),
    ensures
        asked[i].1 matches Err(SecretFailure::Unavailable { reference }) && secret_needed(
            d.variables,
            c.variables,
            asked[i].0,
        ) == Some(reference),
{
    let s = sources_with(d, c, asked.take(i));
    reveal(asked_after);
    only_needed_secrets_are_asked(d, c, s);
    assert(asked[i].0 == run_failure(d, c, s)->0->Unasked_name);
}

/// The value that a run gives to a variable comes before the default of the variable.
pub proof fn run_values_come_first(s: Sources, name: Seq<char>, definition: VariableDefinitionView)
    requires
        lookup(s.overrides, name) is Some,
    ensures
        raw_value(s, name, definition) is Ok,
        raw_value(s, name, definition)->Ok_0.0 == lookup(s.overrides, name)->0,
{
}

/// The value of a secret variable is not among the values that a resolved configuration holds, and
/// a placeholder is shown in its place.
pub proof fn secrets_stay_hidden(s: Sources, name: Seq<char>)
    requires
        variable_value(s, name) matches Some(variable) && variable.secret,
    ensures
        public_value(s, name) is None,
        redacted(variable_value(s, name)->0) == Tree::Text("[REDACTED]"@),
{
}

/// Whether two runs differ in nothing but what was answered for their secrets.
pub open spec fn same_but_secrets(s: Sources, t: Sources) -> bool {
    s.definitions == t.definitions && s.overrides == t.overrides
}

/// What a variable shows does not depend on the secrets: it is secret in one run exactly where it
/// is in the other, and where it is not secret it has the same value.
proof fn variable_shows_no_secret(s: Sources, t: Sources, path: Seq<Seq<char>>, name: Seq<char>)
    requires
        same_but_secrets(s, t),
        resolution(s, path, name) is Ok,
        resolution(t, path, name) is Ok,
    ensures
        redacted(resolution(s, path, name)->Ok_0) == redacted(resolution(t, path, name)->Ok_0),
        resolution(s, path, name)->Ok_0.secret == resolution(t, path, name)->Ok_0.secret,
    decreases s.definitions.len() + 1 - path.len(),
{
    let definition = lookup(s.definitions, name)->0;
    if !(definition.default matches Some(VariableSourceView::SecretReference { .. })) {
        let raw = raw_value(s, name, definition)->Ok_0.0;
        let names = references(raw)->0;
        let deeper = path.push(name);
        assert forall|i: int| 0 <= i < names.len() implies {
            &&& resolution(s, deeper, #[trigger] names[i]) is Ok
            &&& resolution(t, deeper, names[i]) is Ok
            &&& resolution(s, deeper, names[i])->Ok_0.secret == resolution(
                t,
                deeper,
                names[i],
            )->Ok_0.secret
            &&& redacted(resolution(s, deeper, names[i])->Ok_0) == redacted(
                resolution(t, deeper, names[i])->Ok_0,
            )
        } by {
            assert(names.contains(names[i]));
            references_resolve(s, path, name, names[i]);
            references_resolve(t, path, name, names[i]);
            variable_shows_no_secret(s, t, deeper, names[i]);
        }
        same_secrecy(s, t, deeper, names);
        if !any_secret(s, deeper, names) {
            let f = scope(s, deeper);
            let g = scope(t, deeper);
            assert forall|i: int| 0 <= i < names.len() implies f(#[trigger] names[i]) == g(
                names[i],
            ) by {
                if resolution(s, deeper, names[i])->Ok_0.secret {
                    assert(names.contains(names[i]));
                    any_secret_found(s, deeper, names, names[i]);
                }
            }
            value_depends_on_references(raw, f, g);
        }
    }
}

proof fn same_secrecy(s: Sources, t: Sources, path: Seq<Seq<char>>, names: Seq<Seq<char>>)
    requires
        forall|i: int|
            0 <= i < names.len() ==> {
                &&& resolution(s, path, #[trigger] names[i]) is Ok
                &&& resolution(t, path, names[i]) is Ok
                &&& resolution(s, path, names[i])->Ok_0.secret == resolution(
                    t,
                    path,
                    names[i],
                )->Ok_0.secret
            },
    ensures
        any_secret(s, path, names) == any_secret(t, path, names),
    decreases names.len(),
{
    if names.len() > 0 {
        let front = names.drop_last();
        assert forall|i: int| 0 <= i < front.len() implies {
            &&& resolution(s, path, #[trigger] front[i]) is Ok
            &&& resolution(t, path, front[i]) is Ok
            &&& resolution(s, path, front[i])->Ok_0.secret == resolution(
                t,
                path,
                front[i],
            )->Ok_0.secret
        } by {
            assert(front[i] == names[i]);
        }
        same_secrecy(s, t, path, front);
        let last = names[names.len() - 1];
        assert(names.last() == last);
    }
}

/// Nothing that a resolved run shows tells of its secrets: where two runs differ in nothing but the
/// answers for their secrets, and both are resolved, the variables of their configurations are the
/// same, and so are all their variables with a placeholder in place of each secret.
pub proof fn secrets_do_not_show(
    d: AutomationDefinitionView,
    c: RunConfigView,
    s: Sources,
    t: Sources,
    a: ResolvedRun,
    b: ResolvedRun,
    name: Seq<char>,
)
    requires
        same_but_secrets(s, t),
        run_resolved(d, c, s, Ok(a)),
        run_resolved(d, c, t, Ok(b)),
    ensures
        lookup(a.spec_config()@.variables, name) == lookup(b.spec_config()@.variables, name),
        lookup(redacted_entries(a.spec_variables()@), name) == lookup(
            redacted_entries(b.spec_variables()@),
            name,
        ),
{
    let top = Seq::<Seq<char>>::empty();
    lookup_redacted(a.spec_variables()@, name);
    lookup_redacted(b.spec_variables()@, name);
    assert(opt_view(lookup(a.spec_variables()@, name)) == variable_value(s, name));
    assert(opt_view(lookup(b.spec_variables()@, name)) == variable_value(t, name));
    assert(lookup(a.spec_config()@.variables, name) == public_value(s, name));
    assert(lookup(b.spec_config()@.variables, name) == public_value(t, name));
    if lookup(s.definitions, name) is Some {
        all_resolve(s, s.definitions.len(), name);
        all_resolve(t, t.definitions.len(), name);
        variable_shows_no_secret(s, t, top, name);
    }
}

proof fn lookup_redacted(entries: Seq<(Seq<char>, ResolvedVariable)>, name: Seq<char>)
    ensures
        lookup(redacted_entries(entries), name) == (match lookup(entries, name) {
            Some(variable) => Some(redacted(variable@)),
            None => None,
        }),
    decreases entries.len(),
{
    if entries.len() > 0 {
        assert(redacted_entries(entries).drop_first() =~= redacted_entries(entries.drop_first()));
        lookup_redacted(entries.drop_first(), name);
    }
}

/// Where no variable stands for nothing, each stands for something.
proof fn all_resolve(s: Sources, n: nat, name: Seq<char>)
    requires
        variables_failure(s, n) is None,
        n <= s.definitions.len(),
        lookup(s.definitions.take(n as int), name) is Some || n == s.definitions.len() && lookup(
            s.definitions,
            name,
        ) is Some,
    ensures
        resolution(s, Seq::empty(), name) is Ok,
    decreases n,
{
    if n == s.definitions.len() {
        assert(s.definitions.take(n as int) =~= s.definitions);
    }
    let front = s.definitions.take(n as int);
    if n == 0 {
        assert(front.len() == 0);
    } else if s.definitions[n - 1].0 != name {
        assert(front =~= s.definitions.take(n - 1).push(s.definitions[n - 1]));
        lookup_push(s.definitions.take(n - 1), s.definitions[n - 1], name);
        all_resolve(s, (n - 1) as nat, name);
    }
}

} // verus!
