//! Layered overrides of one property of one widget.
//!
//! An *aspect* is a reason for which a property is overridden: the pointer
//! hovers over the widget, the widget is pressed. Aspects are registered in a
//! [`ComponentStates`]; an aspect registered later outranks every aspect
//! registered before it. An [`Active`] holds the overrides that are in force
//! for one property of one widget, at most one per aspect, and resolves the
//! effective value: that of the highest-ranking override, or the base value
//! where nothing is overridden.

use vstd::prelude::*;

verus! {

/// The aspects that may override a property, in the order in which they were
/// registered.
#[derive(Debug, Clone)]
pub struct ComponentStates {
    aspects: Vec<u64>,
}

impl ComponentStates {
    /// The registered aspects, first registered first.
    pub closed spec fn view(&self) -> Seq<u64> {
        self.aspects@
    }

    /// No aspect is registered twice.
    pub open spec fn wf(&self) -> bool {
        self@.no_duplicates()
    }

    /// The rank of a registered aspect: the number of aspects that were
    /// registered before it.
    pub open spec fn spec_priority(&self, aspect: u64) -> int {
        self@.index_of(aspect)
    }

    /// An empty registry.
    pub fn new() -> (states: ComponentStates)
        ensures
            states.wf(),
            states@ == Seq::<u64>::empty(),
    {
        ComponentStates { aspects: Vec::new() }
    }

    /// The rank of `aspect`, or `None` where it was never registered.
    pub fn priority(&self, aspect: u64) -> (priority: Option<usize>)
        requires
            self.wf(),
        ensures
            priority.is_some() <==> self@.contains(aspect),
            priority.is_some() ==> priority.unwrap() == self.spec_priority(aspect),
            priority.is_some() ==> priority.unwrap() < self@.len(),
    {
        let mut index: usize = 0;
        while index < self.aspects.len()
            invariant
                self.wf(),
                index <= self.aspects.len(),
                forall|i: int| 0 <= i < index ==> self.aspects@[i] != aspect,
            decreases self.aspects.len() - index,
        {
            if self.aspects[index] == aspect {
                proof {
                    self.lemma_priority_at(index as int);
                }
                return Some(index);
            }
            index += 1;
        }
        None
    }

    /// Whether `aspect` was registered.
    pub fn is_registered(&self, aspect: u64) -> (registered: bool)
        requires
            self.wf(),
        ensures
            registered == self@.contains(aspect),
    {
        self.priority(aspect).is_some()
    }

    /// The number of registered aspects.
    pub fn len(&self) -> (len: usize)
        ensures
            len == self@.len(),
    {
        self.aspects.len()
    }

    /// Registers `aspect` above every aspect registered so far. The ranks of
    /// those do not change.
    pub fn add_component_state(&mut self, aspect: u64)
        requires
            old(self).wf(),
            !old(self)@.contains(aspect),
        ensures
            final(self).wf(),
            final(self)@ == old(self)@.push(aspect),
            final(self)@.contains(aspect),
            final(self).spec_priority(aspect) == old(self)@.len(),
            forall|other: u64| #[trigger]
                old(self)@.contains(other) ==> final(self)@.contains(other)
                    && final(self).spec_priority(other) == old(self).spec_priority(other),
    {
        let ghost before = self@;
        self.aspects.push(aspect);
        proof {
            assert(self@ =~= before.push(aspect));
            assert(self@.no_duplicates());
            self.lemma_priority_at(before.len() as int);
            assert forall|other: u64| before.contains(other) implies self@.contains(other)
                && self.spec_priority(other) == before.index_of(other) by {
                let at = before.index_of(other);
                assert(self@[at] == other);
                self.lemma_priority_at(at);
            }
        }
    }

    /// The aspect at position `at` has rank `at`.
    pub proof fn lemma_priority_at(&self, at: int)
        requires
            self.wf(),
            0 <= at < self@.len(),
        ensures
            self@.contains(self@[at]),
            self.spec_priority(self@[at]) == at,
    {
        let found = self@.index_of(self@[at]);
        assert(self@[found] == self@[at]);
    }

    /// Two registered aspects of the same rank are the same aspect.
    pub proof fn lemma_priority_injective(&self, first: u64, second: u64)
        requires
            self.wf(),
            self@.contains(first),
            self@.contains(second),
            self.spec_priority(first) == self.spec_priority(second),
        ensures
            first == second,
    {
        let at = self@.index_of(first);
        let other = self@.index_of(second);
        assert(self@[at] == first);
        assert(self@[other] == second);
    }
}

/// One override: the value that `aspect` gives to a property.
#[derive(Debug, Clone, Copy)]
pub struct ComponentState<T> {
    pub value: T,
    pub aspect: u64,
}

impl<T> ComponentState<T> {
    pub fn new(aspect: u64, value: T) -> (state: ComponentState<T>)
        ensures
            state.aspect == aspect,
            state.value == value,
    {
        ComponentState { value, aspect }
    }
}

/// The overrides in force for one property of one widget, lowest rank first.
///
/// The base value of the property is not held here: it counts as the bottom
/// of the stack, below every override.
#[derive(Debug, Clone)]
pub struct Active<T> {
    states: Vec<ComponentState<T>>,
}

impl<T> Active<T> {
    /// The overrides, lowest rank first. The last one is authoritative.
    pub closed spec fn stack(&self) -> Seq<ComponentState<T>> {
        self.states@
    }

    /// Every override belongs to a registered aspect, and the overrides stand
    /// in the order of their aspects' ranks. Hence no aspect occurs twice.
    pub open spec fn wf(&self, registry: &ComponentStates) -> bool {
        &&& registry.wf()
        &&& forall|i: int|
            0 <= i < self.stack().len() ==> registry@.contains((#[trigger] self.stack()[i]).aspect)
        &&& forall|i: int, j: int|
            0 <= i < j < self.stack().len() ==> registry.spec_priority(
                (#[trigger] self.stack()[i]).aspect,
            ) < registry.spec_priority((#[trigger] self.stack()[j]).aspect)
    }

    /// Whether `aspect` has an override here.
    pub open spec fn has(&self, aspect: u64) -> bool {
        exists|i: int| 0 <= i < self.stack().len() && (#[trigger] self.stack()[i]).aspect == aspect
    }

    /// The position of the override of `aspect`.
    pub open spec fn position(&self, aspect: u64) -> int {
        choose|i: int| 0 <= i < self.stack().len() && (#[trigger] self.stack()[i]).aspect == aspect
    }

    /// The overrides as a map from aspect to value.
    pub open spec fn view(&self) -> Map<u64, T> {
        Map::new(|aspect: u64| self.has(aspect), |aspect: u64| self.stack()[self.position(aspect)].value)
    }

    /// The effective value of the property whose base value is `base`.
    pub open spec fn spec_active(&self, base: T) -> T {
        if self.stack().len() == 0 {
            base
        } else {
            self.stack().last().value
        }
    }

    /// The value that would be effective if the authoritative override were
    /// taken away.
    pub open spec fn spec_second_active(&self, base: T) -> T {
        if self.stack().len() >= 2 {
            self.stack()[self.stack().len() - 2].value
        } else {
            base
        }
    }

    /// Whether an override of `aspect` is, or would be, the authoritative
    /// one: no override of a higher rank is in force.
    pub open spec fn spec_yields_to(&self, registry: &ComponentStates, aspect: u64) -> bool {
        self.stack().len() == 0 || registry.spec_priority(self.stack().last().aspect)
            <= registry.spec_priority(aspect)
    }

    /// Whether the override of `aspect` is the authoritative one.
    pub open spec fn spec_is_active_state(&self, aspect: u64) -> bool {
        self.stack().len() > 0 && self.stack().last().aspect == aspect
    }

    /// A stack without overrides.
    pub fn new() -> (active: Active<T>)
        ensures
            active.stack() == Seq::<ComponentState<T>>::empty(),
            active@ == Map::<u64, T>::empty(),
            forall|registry: &ComponentStates| registry.wf() ==> #[trigger] active.wf(registry),
    {
        let active = Active { states: Vec::new() };
        proof {
            assert(active@ =~= Map::<u64, T>::empty());
        }
        active
    }

    /// Whether the stack is well formed for `registry`.
    pub fn is_well_formed(&self, registry: &ComponentStates) -> (well_formed: bool)
        requires
            registry.wf(),
        ensures
            well_formed == self.wf(registry),
    {
        let mut index: usize = 0;
        let mut below: Option<usize> = None;
        while index < self.states.len()
            invariant
                registry.wf(),
                index <= self.states.len(),
                below.is_none() <==> index == 0,
                index > 0 ==> below.unwrap() == registry.spec_priority(
                    self.stack()[index - 1].aspect,
                ),
                forall|i: int|
                    0 <= i < index ==> registry@.contains((#[trigger] self.stack()[i]).aspect),
                forall|i: int, j: int|
                    0 <= i < j < index ==> registry.spec_priority(
                        (#[trigger] self.stack()[i]).aspect,
                    ) < registry.spec_priority((#[trigger] self.stack()[j]).aspect),
            decreases self.states.len() - index,
        {
            let ghost here = self.stack()[index as int];
            match registry.priority(self.states[index].aspect) {
                None => {
                    assert(!registry@.contains(here.aspect));
                    return false;
                },
                Some(rank) => {
                    if let Some(rank_below) = below {
                        if rank <= rank_below {
                            assert(!(registry.spec_priority(self.stack()[index - 1].aspect)
                                < registry.spec_priority(self.stack()[index as int].aspect)));
                            return false;
                        }
                    }
                    assert forall|i: int, j: int| 0 <= i < j < index + 1 implies registry.spec_priority(
                        (#[trigger] self.stack()[i]).aspect,
                    ) < registry.spec_priority((#[trigger] self.stack()[j]).aspect) by {
                        if j == index && i < index - 1 {
                            assert(registry.spec_priority(self.stack()[i].aspect)
                                < registry.spec_priority(self.stack()[index - 1].aspect));
                        }
                    }
                    below = Some(rank);
                },
            }
            index += 1;
        }
        true
    }

    /// In a well-formed stack the override at position `at` is the one that
    /// the map holds for its aspect.
    pub proof fn lemma_view_at(&self, registry: &ComponentStates, at: int)
        requires
            self.wf(registry),
            0 <= at < self.stack().len(),
        ensures
            self.has(self.stack()[at].aspect),
            self.position(self.stack()[at].aspect) == at,
            self@.dom().contains(self.stack()[at].aspect),
            self@[self.stack()[at].aspect] == self.stack()[at].value,
    {
        let aspect = self.stack()[at].aspect;
        let found = self.position(aspect);
        assert(self.stack()[found].aspect == aspect);
        if found < at {
            assert(registry.spec_priority(self.stack()[found].aspect) < registry.spec_priority(
                self.stack()[at].aspect,
            ));
        } else if at < found {
            assert(registry.spec_priority(self.stack()[at].aspect) < registry.spec_priority(
                self.stack()[found].aspect,
            ));
        }
    }

    /// The position of the override of `aspect`, if it has one.
    fn find(&self, aspect: u64) -> (found: Option<usize>)
        ensures
            found.is_some() <==> self.has(aspect),
            found.is_some() ==> found.unwrap() < self.stack().len() && self.stack()[found.unwrap() as int].aspect
                == aspect,
    {
        let mut index: usize = 0;
        while index < self.states.len()
            invariant
                index <= self.states.len(),
                forall|i: int| 0 <= i < index ==> (#[trigger] self.stack()[i]).aspect != aspect,
            decreases self.states.len() - index,
        {
            if self.states[index].aspect == aspect {
                return Some(index);
            }
            index += 1;
        }
        None
    }

    /// The value that `aspect` overrides the property with, or `None` where
    /// it has no override.
    pub fn get_by_aspect(&self, registry: &ComponentStates, aspect: u64) -> (value: Option<&T>)
        requires
            self.wf(registry),
        ensures
            value.is_some() <==> self.has(aspect),
            value.is_some() <==> self@.dom().contains(aspect),
            value.is_some() ==> *value.unwrap() == self@[aspect],
    {
        match self.find(aspect) {
            Some(index) => {
                proof {
                    self.lemma_view_at(registry, index as int);
                }
                Some(&self.states[index].value)
            },
            None => None,
        }
    }

    /// Puts the override of `aspect` in force with the given value. Where the
    /// aspect has an override already, its value is replaced; the stack never
    /// holds two overrides of one aspect.
    pub fn push(&mut self, registry: &ComponentStates, aspect: u64, value: T)
        requires
            old(self).wf(registry),
            registry@.contains(aspect),
        ensures
            final(self).wf(registry),
            final(self)@ == old(self)@.insert(aspect, value),
            final(self).stack().len() == old(self).stack().len() + (if old(self).has(aspect) {
                0int
            } else {
                1int
            }),
            forall|base: T| #[trigger]
                final(self).spec_active(base) == (if old(self).spec_yields_to(registry, aspect) {
                    value
                } else {
                    old(self).spec_active(base)
                }),
            old(self).has(aspect) ==> final(self).stack() == old(self).stack().update(
                old(self).position(aspect),
                ComponentState { value, aspect },
            ),
            !old(self).has(aspect) ==> exists|at: int|
                0 <= at <= old(self).stack().len() && #[trigger] old(self).stack().insert(
                    at,
                    ComponentState { value, aspect },
                ) == final(self).stack(),
    {
        let ghost before = *self;
        let rank = registry.priority(aspect).unwrap();
        let mut index: usize = 0;
        let mut replace = false;
        while index < self.states.len()
            invariant_except_break
                !replace,
            invariant
                *self == before,
                self.wf(registry),
                registry@.contains(aspect),
                rank == registry.spec_priority(aspect),
                index <= self.states.len(),
                forall|i: int|
                    0 <= i < index ==> registry.spec_priority((#[trigger] self.stack()[i]).aspect)
                        < rank,
            ensures
                index <= self.states.len(),
                replace ==> index < self.states.len() && self.stack()[index as int].aspect
                    == aspect,
                !replace ==> forall|i: int|
                    index <= i < self.states.len() ==> rank < registry.spec_priority(
                        (#[trigger] self.stack()[i]).aspect,
                    ),
                forall|i: int|
                    0 <= i < index ==> registry.spec_priority((#[trigger] self.stack()[i]).aspect)
                        < rank,
            decreases self.states.len() - index,
        {
            assert(registry@.contains(self.stack()[index as int].aspect));
            let here = registry.priority(self.states[index].aspect).unwrap();
            if here == rank {
                proof {
                    registry.lemma_priority_injective(self.stack()[index as int].aspect, aspect);
                }
                replace = true;
                break ;
            }
            if here > rank {
                proof {
                    assert forall|i: int| index <= i < self.states.len() implies rank
                        < registry.spec_priority((#[trigger] self.stack()[i]).aspect) by {
                        if index < i {
                            assert(registry.spec_priority(self.stack()[index as int].aspect)
                                < registry.spec_priority(self.stack()[i].aspect));
                        }
                    }
                }
                break ;
            }
            index += 1;
        }
        if replace {
            self.states.set(index, ComponentState { value, aspect });
            proof {
                assert(self.stack() =~= before.stack().update(
                    index as int,
                    ComponentState { value, aspect },
                ));
                assert forall|i: int| 0 <= i < self.stack().len() implies (#[trigger] self.stack()[i]).aspect
                    == before.stack()[i].aspect by {}
                assert(self.wf(registry)) by {
                    assert forall|i: int, j: int| 0 <= i < j < self.stack().len() implies registry.spec_priority(
                        (#[trigger] self.stack()[i]).aspect,
                    ) < registry.spec_priority((#[trigger] self.stack()[j]).aspect) by {
                        assert(before.stack()[i].aspect == self.stack()[i].aspect);
                        assert(before.stack()[j].aspect == self.stack()[j].aspect);
                    }
                }
                assert(before.has(aspect)) by {
                    assert(before.stack()[index as int].aspect == aspect);
                }
                before.lemma_view_at(registry, index as int);
                assert forall|a: u64| self.has(a) == before.has(a) by {
                    if self.has(a) {
                        let i = self.position(a);
                        assert(before.stack()[i].aspect == a);
                    }
                    if before.has(a) {
                        let i = before.position(a);
                        assert(self.stack()[i].aspect == a);
                    }
                }
                assert forall|a: u64| self.has(a) implies #[trigger] self@[a] == before@.insert(
                    aspect,
                    value,
                )[a] by {
                    let i = self.position(a);
                    self.lemma_view_at(registry, i);
                    before.lemma_view_at(registry, i);
                }
                assert(self@ =~= before@.insert(aspect, value));
            }
        } else {
            self.states.insert(index, ComponentState { value, aspect });
            proof {
                assert(self.stack() =~= before.stack().insert(
                    index as int,
                    ComponentState { value, aspect },
                ));
                assert forall|i: int| 0 <= i < self.stack().len() implies #[trigger] self.stack()[i]
                    == (if i < index {
                    before.stack()[i]
                } else if i == index {
                    ComponentState { value, aspect }
                } else {
                    before.stack()[i - 1]
                }) by {}
                assert(self.wf(registry)) by {
                    assert forall|i: int| 0 <= i < self.stack().len() implies registry@.contains(
                        (#[trigger] self.stack()[i]).aspect,
                    ) by {
                        if i < index {
                            assert(self.stack()[i] == before.stack()[i]);
                        } else if i > index {
                            assert(self.stack()[i] == before.stack()[i - 1]);
                        }
                    }
                    assert forall|i: int, j: int| 0 <= i < j < self.stack().len() implies registry.spec_priority(
                        (#[trigger] self.stack()[i]).aspect,
                    ) < registry.spec_priority((#[trigger] self.stack()[j]).aspect) by {
                        let bi = if i < index { i } else { i - 1 };
                        let bj = if j < index { j } else { j - 1 };
                        if i != index {
                            assert(self.stack()[i] == before.stack()[bi]);
                        }
                        if j != index {
                            assert(self.stack()[j] == before.stack()[bj]);
                        }
                        if i != index && j != index {
                            assert(registry.spec_priority(before.stack()[bi].aspect)
                                < registry.spec_priority(before.stack()[bj].aspect));
                        }
                    }
                }
                assert(!before.has(aspect)) by {
                    if before.has(aspect) {
                        let i = before.position(aspect);
                        assert(before.stack()[i].aspect == aspect);
                    }
                }
                assert(before.stack().insert(index as int, ComponentState { value, aspect })
                    == self.stack());
                assert forall|a: u64| self.has(a) == (a == aspect || before.has(a)) by {
                    if self.has(a) {
                        let i = self.position(a);
                        if i < index {
                            assert(before.stack()[i].aspect == a);
                        } else if i > index {
                            assert(before.stack()[i - 1].aspect == a);
                        }
                    }
                    if a == aspect {
                        assert(self.stack()[index as int].aspect == a);
                    }
                    if before.has(a) {
                        let i = before.position(a);
                        if i < index {
                            assert(self.stack()[i].aspect == a);
                        } else {
                            assert(self.stack()[i + 1].aspect == a);
                        }
                    }
                }
                assert forall|a: u64| self.has(a) implies #[trigger] self@[a] == before@.insert(
                    aspect,
                    value,
                )[a] by {
                    let i = self.position(a);
                    self.lemma_view_at(registry, i);
                    if i < index {
                        before.lemma_view_at(registry, i);
                    } else if i > index {
                        before.lemma_view_at(registry, i - 1);
                    }
                }
                assert(self@ =~= before@.insert(aspect, value));
            }
        }
    }

    /// Takes the override of `aspect` away. Where the aspect has none, nothing
    /// changes.
    pub fn pop(&mut self, registry: &ComponentStates, aspect: u64)
        requires
            old(self).wf(registry),
            registry@.contains(aspect),
        ensures
            final(self).wf(registry),
            final(self)@ == old(self)@.remove(aspect),
            !old(self).has(aspect) ==> final(self).stack() == old(self).stack(),
            !old(self).has(aspect) ==> forall|base: T|
                #[trigger] final(self).spec_active(base) == old(self).spec_active(base),
            old(self).has(aspect) ==> final(self).stack() == old(self).stack().remove(
                old(self).position(aspect),
            ),
    {
        let ghost before = *self;
        match self.find(aspect) {
            None => {
                proof {
                    assert(self@ =~= before@.remove(aspect));
                }
            },
            Some(index) => {
                self.states.remove(index);
                proof {
                    before.lemma_view_at(registry, index as int);
                    assert(self.stack() =~= before.stack().remove(index as int));
                    assert forall|i: int| 0 <= i < self.stack().len() implies #[trigger] self.stack()[i]
                        == (if i < index {
                        before.stack()[i]
                    } else {
                        before.stack()[i + 1]
                    }) by {}
                    assert(self.wf(registry)) by {
                        assert forall|i: int| 0 <= i < self.stack().len() implies registry@.contains(
                            (#[trigger] self.stack()[i]).aspect,
                        ) by {
                            let bi = if i < index { i } else { i + 1 };
                            assert(self.stack()[i] == before.stack()[bi]);
                        }
                        assert forall|i: int, j: int| 0 <= i < j < self.stack().len() implies registry.spec_priority(
                            (#[trigger] self.stack()[i]).aspect,
                        ) < registry.spec_priority((#[trigger] self.stack()[j]).aspect) by {
                            let bi = if i < index { i } else { i + 1 };
                            let bj = if j < index { j } else { j + 1 };
                            assert(self.stack()[i] == before.stack()[bi]);
                            assert(self.stack()[j] == before.stack()[bj]);
                            assert(registry.spec_priority(before.stack()[bi].aspect)
                                < registry.spec_priority(before.stack()[bj].aspect));
                        }
                    }
                    assert forall|a: u64| self.has(a) == (a != aspect && before.has(a)) by {
                        if self.has(a) {
                            let i = self.position(a);
                            let bi = if i < index { i } else { i + 1 };
                            assert(before.stack()[bi].aspect == a);
                            before.lemma_view_at(registry, bi);
                        }
                        if a != aspect && before.has(a) {
                            let i = before.position(a);
                            if i < index {
                                assert(self.stack()[i].aspect == a);
                            } else {
                                assert(self.stack()[i - 1].aspect == a);
                            }
                        }
                    }
                    assert forall|a: u64| self.has(a) implies #[trigger] self@[a] == before@.remove(
                        aspect,
                    )[a] by {
                        let i = self.position(a);
                        let bi = if i < index { i } else { i + 1 };
                        self.lemma_view_at(registry, i);
                        before.lemma_view_at(registry, bi);
                    }
                    assert(self@ =~= before@.remove(aspect));
                }
            },
        }
    }

    /// Whether the override of `aspect` is the authoritative one. An aspect
    /// without an override is never authoritative.
    pub fn is_active_state(&self, aspect: u64) -> (top: bool)
        ensures
            top == self.spec_is_active_state(aspect),
    {
        let len = self.states.len();
        len > 0 && self.states[len - 1].aspect == aspect
    }

    /// The value of the authoritative override, or `None` where nothing is
    /// overridden.
    pub fn get_active(&self) -> (value: Option<&T>)
        ensures
            value.is_some() <==> self.stack().len() > 0,
            value.is_some() ==> *value.unwrap() == self.stack().last().value,
    {
        let len = self.states.len();
        if len > 0 {
            Some(&self.states[len - 1].value)
        } else {
            None
        }
    }

    /// The effective value of the property whose base value is `base`: the
    /// value of the authoritative override, or `base` where nothing is
    /// overridden.
    pub fn active<'a>(&'a self, base: &'a T) -> (value: &'a T)
        ensures
            *value == self.spec_active(*base),
    {
        let len = self.states.len();
        if len > 0 {
            &self.states[len - 1].value
        } else {
            base
        }
    }

    /// The effective value, to be written to: the value of the authoritative
    /// override, or `base` where nothing is overridden. Whatever is written
    /// is the effective value afterwards; nothing else changes.
    pub fn active_mut<'a>(&'a mut self, base: &'a mut T) -> (value: &'a mut T)
        ensures
            *value == old(self).spec_active(*old(base)),
            old(self).stack().len() == 0 ==> *final(base) == *final(value) && final(self).stack()
                == old(self).stack(),
            old(self).stack().len() > 0 ==> *final(base) == *old(base) && final(self).stack()
                == old(self).stack().update(
                old(self).stack().len() - 1,
                ComponentState { value: *final(value), aspect: old(self).stack().last().aspect },
            ),
            forall|registry: &ComponentStates| #[trigger]
                old(self).wf(registry) ==> final(self).wf(registry),
    {
        let len = self.states.len();
        if len > 0 {
            &mut self.states[len - 1].value
        } else {
            base
        }
    }

    /// The value right below the authoritative override: that of the next
    /// override down, or `base` where there is no other. `None` where nothing
    /// is overridden.
    pub fn get_second_active<'a>(&'a self, base: &'a T) -> (value: Option<&'a T>)
        ensures
            value.is_some() <==> self.stack().len() > 0,
            value.is_some() ==> *value.unwrap() == self.spec_second_active(*base),
    {
        let len = self.states.len();
        if len >= 2 {
            Some(&self.states[len - 2].value)
        } else if len == 1 {
            Some(base)
        } else {
            None
        }
    }

    /// The value at position `index` of the stack, counted from the bottom:
    /// position zero holds `base`, the positions above it the overrides.
    pub fn get_state<'a>(&'a self, base: &'a T, index: usize) -> (value: Option<&'a T>)
        ensures
            value.is_some() <==> index <= self.stack().len(),
            index == 0 ==> *value.unwrap() == *base,
            0 < index <= self.stack().len() ==> *value.unwrap() == self.stack()[index - 1].value,
    {
        if index == 0 {
            Some(base)
        } else if index <= self.states.len() {
            Some(&self.states[index - 1].value)
        } else {
            None
        }
    }

    /// The value at position `index` of the stack, to be written to. Position
    /// zero holds `base`, the positions above it the overrides. Whatever is
    /// written stands at that position afterwards; nothing else changes.
    pub fn get_state_mut<'a>(&'a mut self, base: &'a mut T, index: usize) -> (value: Option<
        &'a mut T,
    >)
        ensures
            value.is_some() <==> index <= old(self).stack().len(),
            value.is_none() ==> *final(base) == *old(base) && final(self).stack() == old(
                self,
            ).stack(),
            index == 0 ==> *value.unwrap() == *old(base) && *final(base) == *final(value.unwrap())
                && final(self).stack() == old(self).stack(),
            0 < index <= old(self).stack().len() ==> *value.unwrap() == old(self).stack()[index
                - 1].value && *final(base) == *old(base) && final(self).stack() == old(
                self,
            ).stack().update(
                index - 1,
                ComponentState {
                    value: *final(value.unwrap()),
                    aspect: old(self).stack()[index - 1].aspect,
                },
            ),
            forall|registry: &ComponentStates| #[trigger]
                old(self).wf(registry) ==> final(self).wf(registry),
    {
        if index == 0 {
            Some(base)
        } else if index <= self.states.len() {
            Some(&mut self.states[index - 1].value)
        } else {
            None
        }
    }

    /// The height of the stack: the number of overrides, and one for the base
    /// value below them. The count stops at the greatest number that a
    /// `usize` holds.
    pub fn states_len(&self) -> (len: usize)
        ensures
            self.stack().len() < usize::MAX ==> len == self.stack().len() + 1,
            self.stack().len() >= usize::MAX ==> len == usize::MAX,
    {
        let overrides = self.states.len();
        if overrides < usize::MAX {
            overrides + 1
        } else {
            usize::MAX
        }
    }
}

impl<T> Active<T> {
    /// A stack in which nothing is overridden resolves to the base value.
    pub proof fn lemma_nothing_overridden(&self, base: T)
        requires
            forall|aspect: u64| !self@.dom().contains(aspect),
        ensures
            self.stack().len() == 0,
            self.spec_active(base) == base,
    {
        if self.stack().len() > 0 {
            assert(self.has(self.stack()[0].aspect));
            assert(self@.dom().contains(self.stack()[0].aspect));
        }
    }

    /// The override whose aspect outranks the aspects of all the others is the
    /// authoritative one, and its value is the effective value.
    pub proof fn lemma_highest_is_active(&self, registry: &ComponentStates, aspect: u64, base: T)
        requires
            self.wf(registry),
            self@.dom().contains(aspect),
            forall|other: u64| #[trigger]
                self@.dom().contains(other) ==> registry.spec_priority(other)
                    <= registry.spec_priority(aspect),
        ensures
            self.spec_is_active_state(aspect),
            self.spec_active(base) == self@[aspect],
    {
        let at = self.position(aspect);
        let top = self.stack().len() - 1;
        assert(self.stack()[at].aspect == aspect);
        self.lemma_view_at(registry, top);
        if at < top {
            assert(registry.spec_priority(self.stack()[at].aspect) < registry.spec_priority(
                self.stack()[top].aspect,
            ));
            assert(self@.dom().contains(self.stack()[top].aspect));
        }
        self.lemma_view_at(registry, at);
    }

    /// No aspect has two overrides in a well-formed stack.
    pub proof fn lemma_one_override_per_aspect(&self, registry: &ComponentStates, i: int, j: int)
        requires
            self.wf(registry),
            0 <= i < self.stack().len(),
            0 <= j < self.stack().len(),
            self.stack()[i].aspect == self.stack()[j].aspect,
        ensures
            i == j,
    {
        self.lemma_view_at(registry, i);
        self.lemma_view_at(registry, j);
    }
}

/// The questions that can be asked of a widget's stack whether or not the
/// widget has one yet: a widget without a stack has no override.
pub trait ActiveOptionExt<'a, T> {
    /// Whether the override of `aspect` is the authoritative one.
    fn is_active_state(&self, aspect: u64) -> bool;

    /// The effective value of the property whose base value is `base`.
    fn active_or_base(&self, base: &'a T) -> &'a T;

    /// The value right below the authoritative override, or `base` where
    /// there is none below it or nothing is overridden.
    fn second_active_or_base(&self, base: &'a T) -> &'a T;
}

impl<'a, T> ActiveOptionExt<'a, T> for Option<&'a Active<T>> {
    fn is_active_state(&self, aspect: u64) -> (top: bool)
        ensures
            top == match *self {
                Some(active) => active.spec_is_active_state(aspect),
                None => false,
            },
    {
        match self {
            Some(active) => active.is_active_state(aspect),
            None => false,
        }
    }

    fn active_or_base(&self, base: &'a T) -> (value: &'a T)
        ensures
            *value == match *self {
                Some(active) => active.spec_active(*base),
                None => *base,
            },
    {
        match *self {
            Some(active) => active.active(base),
            None => base,
        }
    }

    fn second_active_or_base(&self, base: &'a T) -> (value: &'a T)
        ensures
            *value == match *self {
                Some(active) => active.spec_second_active(*base),
                None => *base,
            },
    {
        match *self {
            Some(active) => match active.get_second_active(base) {
                Some(below) => below,
                None => base,
            },
            None => base,
        }
    }
}

/// The overrides of a widget that has the stack `slot`, or none yet.
pub open spec fn spec_overrides<T>(slot: Option<Active<T>>) -> Map<u64, T> {
    match slot {
        Some(active) => active@,
        None => Map::empty(),
    }
}

/// Whether the stack in `slot`, if there is one, is well formed for
/// `registry`.
pub open spec fn spec_slot_wf<T>(slot: Option<Active<T>>, registry: &ComponentStates) -> bool {
    match slot {
        Some(active) => active.wf(registry),
        None => registry.wf(),
    }
}

/// Puts the override of `aspect` in force for a widget, with the given
/// value. A widget that has no stack yet gets one.
pub fn add_component_state<T>(
    registry: &ComponentStates,
    slot: &mut Option<Active<T>>,
    aspect: u64,
    value: T,
)
    requires
        spec_slot_wf(*old(slot), registry),
        registry@.contains(aspect),
    ensures
        final(slot).is_some(),
        spec_slot_wf(*final(slot), registry),
        spec_overrides(*final(slot)) == spec_overrides(*old(slot)).insert(aspect, value),
{
    let mut active = match slot.take() {
        Some(active) => active,
        None => Active::new(),
    };
    active.push(registry, aspect, value);
    *slot = Some(active);
}

/// Takes the override of `aspect` away from a widget. A widget that is left
/// without overrides is left without a stack: its base value is in force
/// again.
pub fn remove_component_state<T>(
    registry: &ComponentStates,
    slot: &mut Option<Active<T>>,
    aspect: u64,
)
    requires
        spec_slot_wf(*old(slot), registry),
        registry@.contains(aspect),
    ensures
        spec_slot_wf(*final(slot), registry),
        spec_overrides(*final(slot)) == spec_overrides(*old(slot)).remove(aspect),
        final(slot).is_some() ==> final(slot).unwrap().stack().len() > 0,
        final(slot).is_none() <==> forall|other: u64|
            !spec_overrides(*old(slot)).remove(aspect).dom().contains(other),
{
    match slot.take() {
        Some(active) => {
            let mut active = active;
            active.pop(registry, aspect);
            if active.get_active().is_some() {
                proof {
                    active.lemma_view_at(registry, 0);
                }
                *slot = Some(active);
            } else {
                proof {
                    assert forall|other: u64| !active@.dom().contains(other) by {
                        if active@.dom().contains(other) {
                            let at = active.position(other);
                            assert(0 <= at < active.stack().len());
                        }
                    }
                    assert(spec_overrides(*slot) =~= active@);
                }
            }
        },
        None => {
            proof {
                assert(spec_overrides(*slot) =~= spec_overrides(*old(slot)).remove(aspect));
            }
        },
    }
}

/// Reads the value of a property that is in force for a widget.
pub struct CurrentlyActive<T>(core::marker::PhantomData<T>);

impl<T> CurrentlyActive<T> {
    /// The effective value of the property whose base value is `base`, for a
    /// widget that has the stack `active`, or none yet.
    pub fn fetch<'a>(base: &'a T, active: Option<&'a Active<T>>) -> (value: &'a T)
        ensures
            *value == match active {
                Some(active) => active.spec_active(*base),
                None => *base,
            },
    {
        active.active_or_base(base)
    }
}

/// Stack resolution. Let `a` and `b` be registered, `b` after `a`, and let
/// `a` outrank every override of `start`. Push `a`, then `b`: the effective
/// value is that of `b`. Pop `b`: it is that of `a`. Pop `a`: it is what it
/// was at the start, which is the base value where `start` held no override.
pub proof fn law_stack_resolution<T>(
    registry: &ComponentStates,
    start: &Active<T>,
    with_a: &Active<T>,
    with_both: &Active<T>,
    without_b: &Active<T>,
    without_both: &Active<T>,
    a: u64,
    b: u64,
    value_a: T,
    value_b: T,
    base: T,
)
    requires
        registry@.contains(a),
        registry@.contains(b),
        registry.spec_priority(a) < registry.spec_priority(b),
        start.wf(registry),
        forall|other: u64| #[trigger]
            start@.dom().contains(other) ==> registry.spec_priority(other)
                < registry.spec_priority(a),
        with_a.wf(registry),
        with_a@ == start@.insert(a, value_a),
        with_both.wf(registry),
        with_both@ == with_a@.insert(b, value_b),
        without_b.wf(registry),
        without_b@ == with_both@.remove(b),
        without_both.wf(registry),
        without_both@ == without_b@.remove(a),
    ensures
        with_both.spec_active(base) == value_b,
        with_both.spec_is_active_state(b),
        without_b.spec_active(base) == value_a,
        without_b.spec_is_active_state(a),
        without_both@ == start@,
        (forall|other: u64| !start@.dom().contains(other)) ==> without_both.spec_active(base)
            == base,
{
    assert(!start@.dom().contains(a));
    assert(!start@.dom().contains(b));
    with_both.lemma_highest_is_active(registry, b, base);
    assert(without_b@ =~= with_a@);
    without_b.lemma_highest_is_active(registry, a, base);
    assert(without_both@ =~= start@);
    if forall|other: u64| !start@.dom().contains(other) {
        without_both.lemma_nothing_overridden(base);
    }
}

/// Pop is idempotent. Once an aspect was popped it has no override, and a
/// pop of an aspect without an override leaves the stack, the overrides and
/// the effective value as they were.
pub proof fn law_pop_is_idempotent<T>(
    registry: &ComponentStates,
    start: &Active<T>,
    once: &Active<T>,
    twice: &Active<T>,
    aspect: u64,
    base: T,
)
    requires
        start.wf(registry),
        once.wf(registry),
        once@ == start@.remove(aspect),
        !once.has(aspect) ==> twice.stack() == once.stack(),
    ensures
        !once.has(aspect),
        twice.stack() == once.stack(),
        twice@ == once@,
        twice.spec_active(base) == once.spec_active(base),
{
    assert(!once@.dom().contains(aspect));
}

/// Push, then pop. An aspect that comes into force and goes out of force
/// again, whatever happened to other aspects before, leaves the stack as it
/// was: no override of it stays behind, and the effective value is what it
/// was.
pub proof fn law_push_then_pop<T>(
    registry: &ComponentStates,
    start: &Active<T>,
    pushed: &Active<T>,
    popped: &Active<T>,
    aspect: u64,
    value: T,
    base: T,
)
    requires
        registry@.contains(aspect),
        start.wf(registry),
        !start.has(aspect),
        pushed.wf(registry),
        exists|at: int|
            0 <= at <= start.stack().len() && #[trigger] start.stack().insert(
                at,
                ComponentState { value, aspect },
            ) == pushed.stack(),
        pushed.has(aspect) ==> popped.stack() == pushed.stack().remove(pushed.position(aspect)),
    ensures
        popped.stack() == start.stack(),
        !popped.has(aspect),
        popped.spec_active(base) == start.spec_active(base),
{
    let at = choose|at: int|
        0 <= at <= start.stack().len() && #[trigger] start.stack().insert(
            at,
            ComponentState { value, aspect },
        ) == pushed.stack();
    assert(pushed.stack()[at].aspect == aspect);
    pushed.lemma_view_at(registry, at);
    assert(start.stack().insert(at, ComponentState { value, aspect }).remove(at)
        =~= start.stack());
}

/// Push replaces. After two pushes of one aspect the stack is as high as
/// after the first, it holds the later value for the aspect, and it holds the
/// aspect at one position only.
pub proof fn law_push_replaces<T>(
    registry: &ComponentStates,
    start: &Active<T>,
    once: &Active<T>,
    twice: &Active<T>,
    aspect: u64,
    first: T,
    second: T,
)
    requires
        registry@.contains(aspect),
        start.wf(registry),
        once.wf(registry),
        once@ == start@.insert(aspect, first),
        twice.wf(registry),
        twice@ == once@.insert(aspect, second),
        twice.stack().len() == once.stack().len() + (if once.has(aspect) {
            0int
        } else {
            1int
        }),
    ensures
        twice.stack().len() == once.stack().len(),
        twice@ == start@.insert(aspect, second),
        twice@[aspect] == second,
        twice.has(aspect),
        forall|i: int, j: int|
            0 <= i < twice.stack().len() && 0 <= j < twice.stack().len() && (
            #[trigger] twice.stack()[i]).aspect == aspect && (#[trigger] twice.stack()[j]).aspect
                == aspect ==> i == j,
{
    assert(once@.dom().contains(aspect));
    assert(once.has(aspect));
    assert(twice@ =~= start@.insert(aspect, second));
    assert(twice@.dom().contains(aspect));
    assert forall|i: int, j: int|
        0 <= i < twice.stack().len() && 0 <= j < twice.stack().len() && (
        #[trigger] twice.stack()[i]).aspect == aspect && (#[trigger] twice.stack()[j]).aspect
            == aspect implies i == j by {
        twice.lemma_one_override_per_aspect(registry, i, j);
    }
}

/// Registration only adds: a stack that is well formed for a registry stays
/// well formed when a further aspect is registered.
pub proof fn law_registration_keeps_stacks<T>(
    before: &ComponentStates,
    after: &ComponentStates,
    aspect: u64,
    active: &Active<T>,
)
    requires
        active.wf(before),
        !before@.contains(aspect),
        after@ == before@.push(aspect),
    ensures
        active.wf(after),
{
    assert(after@.no_duplicates());
    assert forall|i: int| 0 <= i < before@.len() implies after.spec_priority(before@[i])
        == i by {
        assert(after@[i] == before@[i]);
        after.lemma_priority_at(i);
    }
    assert forall|i: int| 0 <= i < active.stack().len() implies after@.contains(
        (#[trigger] active.stack()[i]).aspect,
    ) && after.spec_priority(active.stack()[i].aspect) == before.spec_priority(
        active.stack()[i].aspect,
    ) by {
        let at = before@.index_of(active.stack()[i].aspect);
        assert(before@[at] == active.stack()[i].aspect);
        assert(after@[at] == active.stack()[i].aspect);
    }
}

} // verus!
