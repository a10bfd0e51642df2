//! What sequences of registrations and key transitions do to the axes.

use crate::input::input_system::{
    axis_created, axis_value, fresh_axis, key_changed, with_key, AxisBinding,
    AxisBindingDefinition, AxisState, KeyTransition,
};
use crate::input::keyboard::KeyCode;
use vstd::prelude::*;

verus! {

/// The key that drives a binding.
pub open spec fn key_of(binding: AxisBinding) -> KeyCode {
    match binding {
        AxisBinding::Keyboard(key) => key,
    }
}

/// An axis after a sequence of key transitions, applied first to last.
pub open spec fn after_transitions(state: AxisState, transitions: Seq<KeyTransition>) -> AxisState
    decreases transitions.len(),
{
    if transitions.len() == 0 {
        state
    } else {
        with_key(
            after_transitions(state, transitions.drop_last()),
            transitions.last().key,
            transitions.last().down,
        )
    }
}

/// Whether `key` is held after `transitions`: its last transition decides, and
/// a key that had none is as it was `initially`.
pub open spec fn key_held(transitions: Seq<KeyTransition>, key: KeyCode, initially: bool) -> bool
    decreases transitions.len(),
{
    if transitions.len() == 0 {
        initially
    } else if transitions.last().key == key {
        transitions.last().down
    } else {
        key_held(transitions.drop_last(), key, initially)
    }
}

/// The sum of the scales of those bindings whose key is held after
/// `transitions`, all keys being up before them.
pub open spec fn held_sum(bindings: Seq<AxisBindingDefinition>, transitions: Seq<KeyTransition>) -> int
    decreases bindings.len(),
{
    if bindings.len() == 0 {
        0
    } else {
        held_sum(bindings.drop_last(), transitions) + if key_held(
            transitions,
            key_of(bindings.last().binding),
            false,
        ) {
            bindings.last().scale as int
        } else {
            0
        }
    }
}

/// One thing that can happen to an input system.
pub enum InputOp {
    /// An axis is registered under a name.
    CreateAxis { name: Seq<char>, bindings: Seq<AxisBindingDefinition> },
    /// A key goes down or up.
    Key(KeyTransition),
}

/// The registered axes after one operation.
pub open spec fn after_op(axes: Map<Seq<char>, AxisState>, op: InputOp) -> Map<Seq<char>, AxisState> {
    match op {
        InputOp::CreateAxis { name, bindings } => axis_created(axes, name, bindings),
        InputOp::Key(transition) => key_changed(axes, transition.key, transition.down),
    }
}

/// The registered axes after a sequence of operations on a new input system.
pub open spec fn after_ops(ops: Seq<InputOp>) -> Map<Seq<char>, AxisState>
    decreases ops.len(),
{
    if ops.len() == 0 {
        Map::empty()
    } else {
        after_op(after_ops(ops.drop_last()), ops.last())
    }
}

/// Whether `op` registers an axis called `name`.
pub open spec fn creates(op: InputOp, name: Seq<char>) -> bool {
    match op {
        InputOp::CreateAxis { name: registered, .. } => registered == name,
        InputOp::Key(_) => false,
    }
}

/// Whether some operation of `ops` registers an axis called `name`.
pub open spec fn registers(ops: Seq<InputOp>, name: Seq<char>) -> bool {
    exists|i: int| 0 <= i < ops.len() && creates(#[trigger] ops[i], name)
}

/// After any sequence of transitions each binding keeps its definition, and
/// is active exactly if its key is held.
pub proof fn lemma_flags_after_transitions(state: AxisState, transitions: Seq<KeyTransition>)
    ensures
        after_transitions(state, transitions).len() == state.len(),
        forall|i: int|
            0 <= i < state.len() ==> #[trigger] after_transitions(state, transitions)[i] == (
                state[i].0,
                key_held(transitions, key_of(state[i].0.binding), state[i].1),
            ),
    decreases transitions.len(),
{
    if transitions.len() > 0 {
        lemma_flags_after_transitions(state, transitions.drop_last());
    }
}

/// Two axes with the same bindings and the same flags have the same value.
proof fn lemma_value_of_flags(state: AxisState, bindings: Seq<AxisBindingDefinition>, transitions: Seq<KeyTransition>)
    requires
        state.len() == bindings.len(),
        forall|i: int|
            0 <= i < state.len() ==> #[trigger] state[i] == (
                bindings[i],
                key_held(transitions, key_of(bindings[i].binding), false),
            ),
    ensures
        axis_value(state) == held_sum(bindings, transitions),
    decreases state.len(),
{
    if state.len() > 0 {
        lemma_value_of_flags(state.drop_last(), bindings.drop_last(), transitions);
    }
}

/// The value of an axis registered with `bindings`, after any sequence of key
/// transitions, is the sum of the scales of the bindings whose key is held.
pub proof fn lemma_value_is_sum_over_held_keys(
    bindings: Seq<AxisBindingDefinition>,
    transitions: Seq<KeyTransition>,
)
    ensures
        axis_value(after_transitions(fresh_axis(bindings), transitions)) == held_sum(
            bindings,
            transitions,
        ),
{
    lemma_flags_after_transitions(fresh_axis(bindings), transitions);
    lemma_value_of_flags(after_transitions(fresh_axis(bindings), transitions), bindings, transitions);
}

/// Two sequences of transitions that leave the same keys held leave an axis
/// with the same flags.
pub proof fn lemma_only_held_keys_matter(
    state: AxisState,
    first: Seq<KeyTransition>,
    second: Seq<KeyTransition>,
)
    requires
        forall|key: KeyCode, initially: bool| #[trigger]
            key_held(first, key, initially) == key_held(second, key, initially),
    ensures
        after_transitions(state, first) == after_transitions(state, second),
        axis_value(after_transitions(state, first)) == axis_value(after_transitions(state, second)),
{
    lemma_flags_after_transitions(state, first);
    lemma_flags_after_transitions(state, second);
    assert(after_transitions(state, first) =~= after_transitions(state, second));
}

/// A registered axis goes through a key transition of the whole system as it
/// would alone, and no axis appears or disappears.
pub proof fn lemma_key_changed_per_axis(
    axes: Map<Seq<char>, AxisState>,
    key: KeyCode,
    down: bool,
    name: Seq<char>,
)
    ensures
        key_changed(axes, key, down).dom() == axes.dom(),
        axes.dom().contains(name) ==> key_changed(axes, key, down)[name] == with_key(
            axes[name],
            key,
            down,
        ),
{
    assert(key_changed(axes, key, down).dom() =~= axes.dom());
}

/// The operations that a sequence of key transitions stands for.
pub open spec fn key_ops(transitions: Seq<KeyTransition>) -> Seq<InputOp> {
    Seq::new(transitions.len(), |i: int| InputOp::Key(transitions[i]))
}

/// Whatever happened before: once an axis is registered, and only key
/// transitions follow, the axis is there and its value is the sum of the
/// scales of its bindings whose key is held.
pub proof fn lemma_registered_axis_sums_held_keys(
    earlier: Seq<InputOp>,
    name: Seq<char>,
    bindings: Seq<AxisBindingDefinition>,
    transitions: Seq<KeyTransition>,
)
    ensures
        after_ops(
            earlier.push(InputOp::CreateAxis { name, bindings }) + key_ops(transitions),
        ).dom().contains(name),
        after_ops(earlier.push(InputOp::CreateAxis { name, bindings }) + key_ops(transitions))[name]
            == after_transitions(fresh_axis(bindings), transitions),
        axis_value(
            after_ops(earlier.push(InputOp::CreateAxis { name, bindings }) + key_ops(transitions))[name],
        ) == held_sum(bindings, transitions),
    decreases transitions.len(),
{
    let registered = earlier.push(InputOp::CreateAxis { name, bindings });
    let ops = registered + key_ops(transitions);
    if transitions.len() == 0 {
        assert(ops =~= registered);
        assert(registered.drop_last() =~= earlier);
    } else {
        let before = transitions.drop_last();
        lemma_registered_axis_sums_held_keys(earlier, name, bindings, before);
        assert(ops.drop_last() =~= registered + key_ops(before));
        assert(ops.last() == InputOp::Key(transitions.last()));
    }
    lemma_value_is_sum_over_held_keys(bindings, transitions);
}

/// A name that no operation registered is not the name of any axis.
pub proof fn lemma_unregistered_name_is_absent(ops: Seq<InputOp>, name: Seq<char>)
    requires
        !registers(ops, name),
    ensures
        !after_ops(ops).dom().contains(name),
    decreases ops.len(),
{
    if ops.len() > 0 {
        let earlier = ops.drop_last();
        assert(!registers(earlier, name)) by {
            if registers(earlier, name) {
                let i = choose|i: int| 0 <= i < earlier.len() && creates(#[trigger] earlier[i], name);
                assert(ops[i] == earlier[i]);
            }
        }
        lemma_unregistered_name_is_absent(earlier, name);
        assert(ops[ops.len() - 1] == ops.last());
    }
}

/// Registering a name again replaces its axis: the bindings of the earlier
/// registration are gone, whatever their flags were, and after any sequence of
/// key transitions only the new bindings count.
pub proof fn lemma_registration_replaces(
    axes: Map<Seq<char>, AxisState>,
    name: Seq<char>,
    bindings: Seq<AxisBindingDefinition>,
    transitions: Seq<KeyTransition>,
)
    ensures
        axis_created(axes, name, bindings)[name] == fresh_axis(bindings),
        axis_value(axis_created(axes, name, bindings)[name]) == 0,
        axis_value(after_transitions(axis_created(axes, name, bindings)[name], transitions))
            == held_sum(bindings, transitions),
        forall|other: Seq<char>|
            other != name && axes.dom().contains(other) ==> #[trigger] axis_created(
                axes,
                name,
                bindings,
            )[other] == axes[other],
{
    lemma_value_is_sum_over_held_keys(bindings, transitions);
    lemma_value_is_sum_over_held_keys(bindings, Seq::<KeyTransition>::empty());
    lemma_held_sum_without_transitions(bindings);
}

/// With no transition no key is held, so nothing is summed.
proof fn lemma_held_sum_without_transitions(bindings: Seq<AxisBindingDefinition>)
    ensures
        held_sum(bindings, Seq::<KeyTransition>::empty()) == 0,
    decreases bindings.len(),
{
    if bindings.len() > 0 {
        lemma_held_sum_without_transitions(bindings.drop_last());
    }
}

} // verus!
