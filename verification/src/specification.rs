//! The specification pattern: business rules as predicate objects that can
//! be combined with boolean logic (and, or, not).

use vstd::prelude::*;

verus! {

/// Core specification trait for business rules.
///
/// A specification states, as `holds`, which entities satisfy it;
/// `is_satisfied_by` checks it. Specifications compose with `and`, `or`
/// and `not`.
pub trait Specification<T> {
    /// Whether `entity` satisfies this specification.
    spec fn holds(&self, entity: &T) -> bool;

    /// Whether the specification can be checked on `entity` (true but for
    /// rules built from closures, which must accept the entity and answer
    /// the same way each time).
    spec fn checkable(&self, entity: &T) -> bool;

    /// Check if the entity satisfies this specification.
    fn is_satisfied_by(&self, entity: &T) -> (r: bool)
        requires
            self.checkable(entity),
        ensures
            r == self.holds(entity),
    ;

    /// Combine with another specification using AND.
    fn and<S>(self, other: S) -> (r: AndSpecification<Self, S>)
        where
            Self: Sized,
        ensures
            r.left == self,
            r.right == other,
    {
        AndSpecification { left: self, right: other }
    }

    /// Combine with another specification using OR.
    fn or<S>(self, other: S) -> (r: OrSpecification<Self, S>)
        where
            Self: Sized,
        ensures
            r.left == self,
            r.right == other,
    {
        OrSpecification { left: self, right: other }
    }

    /// Negate this specification.
    fn not(self) -> (r: NotSpecification<Self>)
        where
            Self: Sized,
        ensures
            r.spec == self,
    {
        NotSpecification { spec: self }
    }
}

/// AND composite specification.
pub struct AndSpecification<L, R> {
    pub left: L,
    pub right: R,
}

impl<T, L: Specification<T>, R: Specification<T>> Specification<T> for AndSpecification<L, R> {
    open spec fn holds(&self, entity: &T) -> bool {
        self.left.holds(entity) && self.right.holds(entity)
    }

    open spec fn checkable(&self, entity: &T) -> bool {
        self.left.checkable(entity) && (self.left.holds(entity) ==> self.right.checkable(entity))
    }

    fn is_satisfied_by(&self, entity: &T) -> (r: bool) {
        self.left.is_satisfied_by(entity) && self.right.is_satisfied_by(entity)
    }
}

/// OR composite specification.
pub struct OrSpecification<L, R> {
    pub left: L,
    pub right: R,
}

impl<T, L: Specification<T>, R: Specification<T>> Specification<T> for OrSpecification<L, R> {
    open spec fn holds(&self, entity: &T) -> bool {
        self.left.holds(entity) || self.right.holds(entity)
    }

    open spec fn checkable(&self, entity: &T) -> bool {
        self.left.checkable(entity) && (!self.left.holds(entity) ==> self.right.checkable(entity))
    }

    fn is_satisfied_by(&self, entity: &T) -> (r: bool) {
        self.left.is_satisfied_by(entity) || self.right.is_satisfied_by(entity)
    }
}

/// NOT specification wrapper.
pub struct NotSpecification<S> {
    pub spec: S,
}

impl<T, S: Specification<T>> Specification<T> for NotSpecification<S> {
    open spec fn holds(&self, entity: &T) -> bool {
        !self.spec.holds(entity)
    }

    open spec fn checkable(&self, entity: &T) -> bool {
        self.spec.checkable(entity)
    }

    fn is_satisfied_by(&self, entity: &T) -> (r: bool) {
        !self.spec.is_satisfied_by(entity)
    }
}

/// Always true specification (identity for AND).
pub struct TrueSpec<T>(pub std::marker::PhantomData<T>);

impl<T> TrueSpec<T> {
    /// The specification that every entity satisfies.
    pub fn new() -> (r: Self) {
        TrueSpec(std::marker::PhantomData)
    }
}

impl<T> Specification<T> for TrueSpec<T> {
    open spec fn holds(&self, entity: &T) -> bool {
        true
    }

    open spec fn checkable(&self, entity: &T) -> bool {
        true
    }

    fn is_satisfied_by(&self, _entity: &T) -> (r: bool) {
        true
    }
}

/// Always false specification (identity for OR).
pub struct FalseSpec<T>(pub std::marker::PhantomData<T>);

impl<T> FalseSpec<T> {
    /// The specification that no entity satisfies.
    pub fn new() -> (r: Self) {
        FalseSpec(std::marker::PhantomData)
    }
}

impl<T> Specification<T> for FalseSpec<T> {
    open spec fn holds(&self, entity: &T) -> bool {
        false
    }

    open spec fn checkable(&self, entity: &T) -> bool {
        true
    }

    fn is_satisfied_by(&self, _entity: &T) -> (r: bool) {
        false
    }
}

/// A specification that uses a closure.
pub struct PredicateSpec<T, F: Fn(&T) -> bool> {
    pub predicate: F,
    pub _phantom: std::marker::PhantomData<T>,
}

impl<T, F: Fn(&T) -> bool> PredicateSpec<T, F> {
    /// The specification that the closure decides.
    pub fn new(predicate: F) -> (r: Self)
        ensures
            r.predicate == predicate,
    {
        PredicateSpec { predicate, _phantom: std::marker::PhantomData }
    }
}

impl<T, F: Fn(&T) -> bool> Specification<T> for PredicateSpec<T, F> {
    open spec fn holds(&self, entity: &T) -> bool {
        call_ensures(self.predicate, (entity,), true)
    }

    open spec fn checkable(&self, entity: &T) -> bool {
        &&& call_requires(self.predicate, (entity,))
        &&& forall|a: bool, b: bool|
            call_ensures(self.predicate, (entity,), a) && call_ensures(self.predicate, (entity,), b)
                ==> a == b
    }

    fn is_satisfied_by(&self, entity: &T) -> (r: bool) {
        (self.predicate)(entity)
    }
}

/// Helper function to create a specification from a closure.
pub fn spec<T, F: Fn(&T) -> bool>(predicate: F) -> (r: PredicateSpec<T, F>)
    ensures
        r.predicate == predicate,
{
    PredicateSpec::new(predicate)
}

/// TRUE is the identity of AND: `TrueSpec and s` holds exactly where `s` holds.
pub proof fn lemma_true_is_and_identity<T, S: Specification<T>>(s: S, entity: &T)
    ensures
        (AndSpecification { left: TrueSpec::<T>(std::marker::PhantomData), right: s }).holds(entity)
            == s.holds(entity),
{
}

/// FALSE is the identity of OR: `FalseSpec or s` holds exactly where `s` holds.
pub proof fn lemma_false_is_or_identity<T, S: Specification<T>>(s: S, entity: &T)
    ensures
        (OrSpecification { left: FalseSpec::<T>(std::marker::PhantomData), right: s }).holds(entity)
            == s.holds(entity),
{
}

/// Negating twice gives the original rule back.
pub proof fn lemma_double_negation<T, S: Specification<T>>(s: S, entity: &T)
    ensures
        (NotSpecification { spec: NotSpecification { spec: s } }).holds(entity) == s.holds(entity),
{
}

/// De Morgan: NOT (a AND b) holds exactly where (NOT a) OR (NOT b) holds.
pub proof fn lemma_de_morgan_and<T, A: Specification<T>, B: Specification<T>>(a: A, b: B, entity: &T)
    ensures
        (NotSpecification { spec: AndSpecification { left: a, right: b } }).holds(entity)
            == (OrSpecification { left: NotSpecification { spec: a }, right: NotSpecification { spec: b } }).holds(entity),
{
}

/// De Morgan: NOT (a OR b) holds exactly where (NOT a) AND (NOT b) holds.
pub proof fn lemma_de_morgan_or<T, A: Specification<T>, B: Specification<T>>(a: A, b: B, entity: &T)
    ensures
        (NotSpecification { spec: OrSpecification { left: a, right: b } }).holds(entity)
            == (AndSpecification { left: NotSpecification { spec: a }, right: NotSpecification { spec: b } }).holds(entity),
{
}

} // verus!
