//! Named axes: each sums the scales of its bindings whose key is held.

use crate::input::keyboard::KeyCode;
use vstd::prelude::*;

verus! {

/// What can go wrong when asking the input system for a value.
#[derive(Debug, PartialEq, Eq, Structural)]
pub enum InputError {
    /// No axis of that name has been registered.
    AxisDoesNotExist,
}

/// The source that drives a binding.
#[derive(Clone, Copy, Debug, PartialEq, Eq, Structural)]
pub enum AxisBinding {
    Keyboard(KeyCode),
}

/// A source together with what it adds to its axis while it is active.
#[derive(Clone, Copy, Debug)]
pub struct AxisBindingDefinition {
    pub binding: AxisBinding,
    pub scale: i64,
}

/// A name and the bindings of the axis to register under it.
pub struct AxisDefinition<'a> {
    pub name: &'a str,
    pub bindings: Vec<AxisBindingDefinition>,
}

/// One transition of a key: pressed (`down`) or released.
#[derive(Clone, Copy, Debug)]
pub struct KeyTransition {
    pub key: KeyCode,
    pub down: bool,
}

/// The bindings of one axis, in order, each with its active flag.
pub type AxisState = Seq<(AxisBindingDefinition, bool)>;

/// What one binding adds to its axis: its scale while active, nothing otherwise.
pub open spec fn contribution(slot: (AxisBindingDefinition, bool)) -> int {
    if slot.1 {
        slot.0.scale as int
    } else {
        0
    }
}

/// The value of an axis: the sum of the scales of its active bindings.
pub open spec fn axis_value(state: AxisState) -> int
    decreases state.len(),
{
    if state.len() == 0 {
        0
    } else {
        axis_value(state.drop_last()) + contribution(state.last())
    }
}

/// A newly registered axis: the given bindings, none of them active.
pub open spec fn fresh_axis(bindings: Seq<AxisBindingDefinition>) -> AxisState {
    Seq::new(bindings.len(), |i: int| (bindings[i], false))
}

/// The axis after one key transition: every binding of `key` takes the flag
/// `down`, every other binding keeps its own.
pub open spec fn with_key(state: AxisState, key: KeyCode, down: bool) -> AxisState {
    Seq::new(
        state.len(),
        |i: int|
            if state[i].0.binding == AxisBinding::Keyboard(key) {
                (state[i].0, down)
            } else {
                state[i]
            },
    )
}

/// The registered axes after `name` is registered with `bindings`: an earlier
/// axis of that name is replaced.
pub open spec fn axis_created(
    axes: Map<Seq<char>, AxisState>,
    name: Seq<char>,
    bindings: Seq<AxisBindingDefinition>,
) -> Map<Seq<char>, AxisState> {
    axes.insert(name, fresh_axis(bindings))
}

/// The registered axes after one key transition, applied to each of them.
pub open spec fn key_changed(axes: Map<Seq<char>, AxisState>, key: KeyCode, down: bool) -> Map<
    Seq<char>,
    AxisState,
> {
    Map::new(|name: Seq<char>| axes.dom().contains(name), |name: Seq<char>| with_key(axes[name], key, down))
}

/// A registered axis: its name and its bindings with their active flags.
pub struct Axis {
    name: String,
    bindings: Vec<(AxisBindingDefinition, bool)>,
}

impl View for Axis {
    type V = AxisState;

    closed spec fn view(&self) -> AxisState {
        self.bindings@
    }
}

impl Axis {
    /// The name the axis is registered under.
    pub closed spec fn name(&self) -> Seq<char> {
        self.name@
    }
}

spec fn names_distinct(axes: Seq<Axis>) -> bool {
    forall|i: int, j: int| 0 <= i < j < axes.len() ==> (#[trigger] axes[i]).name() != (#[trigger] axes[j]).name()
}

spec fn has_name(axes: Seq<Axis>, name: Seq<char>) -> bool {
    exists|i: int| 0 <= i < axes.len() && (#[trigger] axes[i]).name() == name
}

spec fn index_of(axes: Seq<Axis>, name: Seq<char>) -> int {
    choose|i: int| 0 <= i < axes.len() && (#[trigger] axes[i]).name() == name
}

spec fn axes_map(axes: Seq<Axis>) -> Map<Seq<char>, AxisState> {
    Map::new(|name: Seq<char>| has_name(axes, name), |name: Seq<char>| axes[index_of(axes, name)]@)
}

proof fn lemma_axes_map_at(axes: Seq<Axis>, i: int)
    requires
        names_distinct(axes),
        0 <= i < axes.len(),
    ensures
        axes_map(axes).dom().contains(axes[i].name()),
        axes_map(axes)[axes[i].name()] == axes[i]@,
{
    let k = index_of(axes, axes[i].name());
}

/// The sum of an axis stays within what its length allows.
proof fn lemma_axis_value_bounds(state: AxisState)
    ensures
        -(state.len() * 0x8000_0000_0000_0000) <= axis_value(state) <= state.len()
            * 0x7fff_ffff_ffff_ffff,
    decreases state.len(),
{
    if state.len() > 0 {
        lemma_axis_value_bounds(state.drop_last());
    }
}

/// The position of the axis called `name`, if there is one.
fn find_axis(axes: &Vec<Axis>, name: &str) -> (found: Option<usize>)
    ensures
        match found {
            Some(i) => i < axes.len() && axes[i as int].name() == name@,
            None => !has_name(axes@, name@),
        },
{
    let wanted = String::from_str(name);
    let mut i: usize = 0;
    while i < axes.len()
        invariant
            i <= axes.len(),
            wanted@ == name@,
            forall|k: int| 0 <= k < i ==> (#[trigger] axes[k]).name() != name@,
        decreases axes.len() - i,
    {
        if axes[i].name == wanted {
            return Some(i);
        }
        i += 1;
    }
    None
}

/// The sum of the scales of the active bindings.
fn sum_active(bindings: &Vec<(AxisBindingDefinition, bool)>) -> (total: i128)
    ensures
        total == axis_value(bindings@),
{
    let mut total: i128 = 0;
    let mut i: usize = 0;
    while i < bindings.len()
        invariant
            i <= bindings.len(),
            total == axis_value(bindings@.subrange(0, i as int)),
        decreases bindings.len() - i,
    {
        proof {
            let before = bindings@.subrange(0, i as int);
            let after = bindings@.subrange(0, i + 1);
            assert(after.drop_last() =~= before);
            lemma_axis_value_bounds(before);
        }
        if bindings[i].1 {
            total = total + bindings[i].0.scale as i128;
        }
        i += 1;
    }
    assert(bindings@.subrange(0, i as int) =~= bindings@);
    total
}

/// Gives every binding of `key` the flag `down`.
fn set_key(bindings: &mut Vec<(AxisBindingDefinition, bool)>, key: KeyCode, down: bool)
    ensures
        final(bindings)@ == with_key(old(bindings)@, key, down),
{
    let mut j: usize = 0;
    while j < bindings.len()
        invariant
            j <= bindings.len(),
            bindings.len() == old(bindings).len(),
            forall|k: int| 0 <= k < j ==> #[trigger] bindings[k] == with_key(old(bindings)@, key, down)[k],
            forall|k: int| j <= k < bindings.len() ==> #[trigger] bindings[k] == old(bindings)[k],
        decreases bindings.len() - j,
    {
        if bindings[j].0.binding == AxisBinding::Keyboard(key) {
            bindings[j].1 = down;
        }
        j += 1;
    }
}

/// Pairs each binding with a cleared active flag.
fn inactive(bindings: Vec<AxisBindingDefinition>) -> (slots: Vec<(AxisBindingDefinition, bool)>)
    ensures
        slots@ == fresh_axis(bindings@),
{
    let mut slots: Vec<(AxisBindingDefinition, bool)> = Vec::new();
    let mut i: usize = 0;
    while i < bindings.len()
        invariant
            i <= bindings.len(),
            slots.len() == i,
            forall|k: int| 0 <= k < i ==> #[trigger] slots[k] == (bindings[k], false),
        decreases bindings.len() - i,
    {
        slots.push((bindings[i], false));
        i += 1;
    }
    slots
}

/// Applies a key transition to every axis.
fn set_key_everywhere(axes: &mut Vec<Axis>, key: KeyCode, down: bool)
    requires
        names_distinct(old(axes)@),
    ensures
        names_distinct(final(axes)@),
        axes_map(final(axes)@) == key_changed(axes_map(old(axes)@), key, down),
{
    let mut i: usize = 0;
    while i < axes.len()
        invariant
            i <= axes.len(),
            axes.len() == old(axes).len(),
            forall|k: int| 0 <= k < axes.len() ==> (#[trigger] axes[k]).name() == old(axes)[k].name(),
            forall|k: int| 0 <= k < i ==> (#[trigger] axes[k])@ == with_key(old(axes)[k]@, key, down),
            forall|k: int| i <= k < axes.len() ==> (#[trigger] axes[k])@ == old(axes)[k]@,
        decreases axes.len() - i,
    {
        set_key(&mut axes[i].bindings, key, down);
        i += 1;
    }
    proof {
        let before = old(axes)@;
        let after = axes@;
        assert forall|name: Seq<char>| has_name(before, name) implies has_name(after, name) by {
            assert(after[index_of(before, name)].name() == name);
        }
        assert forall|name: Seq<char>| has_name(after, name) implies axes_map(after)[name]
            == with_key(axes_map(before)[name], key, down) by {
            let k = index_of(after, name);
            lemma_axes_map_at(after, k);
            lemma_axes_map_at(before, k);
        }
    }
}

/// Adds the axis that `definition` describes, in place of any of its name.
fn register(axes: &mut Vec<Axis>, definition: AxisDefinition)
    requires
        names_distinct(old(axes)@),
    ensures
        names_distinct(final(axes)@),
        axes_map(final(axes)@) == axis_created(
            axes_map(old(axes)@),
            definition.name@,
            definition.bindings@,
        ),
{
    let ghost before = axes@;
    let ghost name = definition.name@;
    let slots = inactive(definition.bindings);
    match find_axis(axes, definition.name) {
        Some(i) => {
            axes[i].bindings = slots;
            proof {
                let after = axes@;
                assert forall|n: Seq<char>| has_name(before, n) implies has_name(after, n) by {
                    assert(after[index_of(before, n)].name() == n);
                }
                assert forall|n: Seq<char>| has_name(after, n) implies axes_map(after)[n] == (if n
                    == name {
                    fresh_axis(definition.bindings@)
                } else {
                    axes_map(before)[n]
                }) by {
                    let k = index_of(after, n);
                    lemma_axes_map_at(after, k);
                    lemma_axes_map_at(before, k);
                }
            }
        },
        None => {
            let axis = Axis { name: String::from_str(definition.name), bindings: slots };
            axes.push(axis);
            proof {
                let after = axes@;
                let last = after.len() - 1;
                assert(after[last].name() == name);
                assert forall|n: Seq<char>| has_name(before, n) implies has_name(after, n) by {
                    assert(after[index_of(before, n)].name() == n);
                }
                assert forall|n: Seq<char>| has_name(after, n) implies axes_map(after)[n] == (if n
                    == name {
                    fresh_axis(definition.bindings@)
                } else {
                    axes_map(before)[n]
                }) by {
                    let k = index_of(after, n);
                    lemma_axes_map_at(after, k);
                    if k < last {
                        lemma_axes_map_at(before, k);
                    }
                }
            }
        },
    }
}

/// The named axes of a running application and the state of their bindings.
/// The axes are kept in a list in which no name occurs twice, so that a name
/// finds at most one axis, as the key of a map would.
pub struct InputSystem {
    axes: Vec<Axis>,
}

impl View for InputSystem {
    type V = Map<Seq<char>, AxisState>;

    /// Each registered name with the state of its axis.
    closed spec fn view(&self) -> Map<Seq<char>, AxisState> {
        axes_map(self.axes@)
    }
}

impl InputSystem {
    #[verifier::type_invariant]
    spec fn names_are_distinct(&self) -> bool {
        names_distinct(self.axes@)
    }

    /// An input system with no axis.
    pub fn new() -> (system: Self)
        ensures
            system@ == Map::<Seq<char>, AxisState>::empty(),
    {
        let system = InputSystem { axes: Vec::new() };
        system
    }

    /// The current value of the axis `axis`: the sum of the scales of its
    /// bindings whose key is held.
    pub fn query_axis(&self, axis: &str) -> (value: Result<i128, InputError>)
        ensures
            self@.dom().contains(axis@) ==> value == Ok::<i128, InputError>(
                axis_value(self@[axis@]) as i128,
            ),
            self@.dom().contains(axis@) ==> i128::MIN <= axis_value(self@[axis@]) <= i128::MAX,
            !self@.dom().contains(axis@) ==> value == Err::<i128, InputError>(
                InputError::AxisDoesNotExist,
            ),
    {
        proof {
            use_type_invariant(self);
        }
        match find_axis(&self.axes, axis) {
            Some(i) => {
                proof {
                    lemma_axes_map_at(self.axes@, i as int);
                }
                Ok(sum_active(&self.axes[i].bindings))
            },
            None => Err(InputError::AxisDoesNotExist),
        }
    }

    /// Registers an axis under `definition.name` with no binding active. An
    /// axis already registered under that name is replaced.
    pub fn create_axis(&mut self, definition: AxisDefinition)
        ensures
            final(self)@ == axis_created(old(self)@, definition.name@, definition.bindings@),
    {
        proof {
            use_type_invariant(&*self);
        }
        let mut axes: Vec<Axis> = Vec::new();
        std::mem::swap(&mut self.axes, &mut axes);
        register(&mut axes, definition);
        self.axes = axes;
    }

    /// Marks every binding of `keycode`, in every axis, as active. A repeated
    /// press changes nothing.
    pub fn on_key_down(&mut self, keycode: KeyCode)
        ensures
            final(self)@ == key_changed(old(self)@, keycode, true),
    {
        proof {
            use_type_invariant(&*self);
        }
        let mut axes: Vec<Axis> = Vec::new();
        std::mem::swap(&mut self.axes, &mut axes);
        set_key_everywhere(&mut axes, keycode, true);
        self.axes = axes;
    }

    /// Marks every binding of `keycode`, in every axis, as inactive.
    pub fn on_key_up(&mut self, keycode: KeyCode)
        ensures
            final(self)@ == key_changed(old(self)@, keycode, false),
    {
        proof {
            use_type_invariant(&*self);
        }
        let mut axes: Vec<Axis> = Vec::new();
        std::mem::swap(&mut self.axes, &mut axes);
        set_key_everywhere(&mut axes, keycode, false);
        self.axes = axes;
    }
}

} // verus!
