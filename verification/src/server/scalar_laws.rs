//! What holds of every scalar update.

use vstd::prelude::*;
use crate::message::{ActuatorType, ButtplugDeviceMessageType, DeviceFeatureView, ScalarSubcommand};
use crate::scaling::step_of;
use crate::server::generic_command_manager::{
    all_none, capable, lemma_capable, scalar_fold, scalar_request_ok, scalar_step, scalar_update,
    slot_steps, slot_type, CommandCache, GenericCommandManagerView, ScalarOutcome,
};

verus! {

/// What a subcommand asks for: the step value of its level on the feature in
/// its slot.
pub open spec fn scalar_asked(
    features: Seq<DeviceFeatureView>,
    positions: Seq<int>,
    command: ScalarSubcommand,
) -> u32 {
    slot_steps(features, positions, command.index as int, command.scalar)
}

/// Whether the subcommands that name one slot all ask for the same, where
/// `positions` are the places of the slots in the feature list. Two
/// subcommands that name different slots are never in each other's way.
pub open spec fn scalar_agree(
    features: Seq<DeviceFeatureView>,
    positions: Seq<int>,
    commands: Seq<ScalarSubcommand>,
) -> bool {
    forall|a: int, b: int|
        0 <= a < commands.len() && 0 <= b < commands.len()
            && (#[trigger] commands[a]).index == (#[trigger] commands[b]).index
            ==> scalar_asked(features, positions, commands[a]) == scalar_asked(
            features,
            positions,
            commands[b],
        )
}

/// Whether the subcommands that name one slot all ask for the same on the
/// features of a device.
pub open spec fn scalar_uniform(features: Seq<DeviceFeatureView>, commands: Seq<ScalarSubcommand>) -> bool {
    scalar_agree(features, capable(features, ButtplugDeviceMessageType::ScalarCmd), commands)
}

/// The state of a manager after it has handled a scalar command.
pub open spec fn after_scalar(
    view: GenericCommandManagerView,
    commands: Seq<ScalarSubcommand>,
    match_all: bool,
) -> GenericCommandManagerView {
    GenericCommandManagerView {
        features: view.features,
        cache: scalar_update(view, commands, match_all).cache,
        sent_scalar: true,
        sent_rotation: view.sent_rotation,
    }
}

/// What the subcommands of a message leave behind, slot by slot.
///
/// A filled slot holds what the cache holds for its feature. A slot that is
/// not filled has left the cache cell of its feature alone, and so has every
/// feature without a slot. No subcommand touches the cached direction of
/// rotation. On a manager that has handled no
/// such command before, the slot of every subcommand is filled. Where the
/// subcommands for one slot ask for the same, the cache holds in the end what
/// each subcommand asks for.
pub proof fn lemma_scalar_fold(
    features: Seq<DeviceFeatureView>,
    positions: Seq<int>,
    sent: bool,
    start: ScalarOutcome,
    commands: Seq<ScalarSubcommand>,
)
    requires
        forall|i: int, j: int| 0 <= i < j < positions.len() ==> positions[i] < positions[j],
        forall|i: int| 0 <= i < positions.len() ==> 0 <= #[trigger] positions[i] < start.cache.len(),
        start.result.len() == positions.len(),
        all_none(start.result),
        forall|j: int| 0 <= j < commands.len() ==> (#[trigger] commands[j]).index < positions.len(),
    ensures
        ({
            let end = scalar_fold(features, positions, sent, start, commands);
            &&& end.cache.len() == start.cache.len()
            &&& end.result.len() == start.result.len()
            &&& forall|i: int|
                0 <= i < positions.len() ==> ((#[trigger] end.result[i]) matches Some(slot)
                    ==> slot == (slot_type(features, positions, i), end.cache[positions[i]].scalar))
            &&& forall|i: int|
                0 <= i < positions.len() && (#[trigger] end.result[i]) is None
                    ==> end.cache[positions[i]] == start.cache[positions[i]]
            &&& forall|p: int|
                0 <= p < start.cache.len() && (forall|i: int|
                    0 <= i < positions.len() ==> positions[i] != p) ==> (#[trigger] end.cache[p])
                    == start.cache[p]
            &&& forall|p: int|
                0 <= p < start.cache.len() ==> (#[trigger] end.cache[p]).rotation_clockwise
                    == start.cache[p].rotation_clockwise
            &&& !sent ==> forall|j: int|
                0 <= j < commands.len() ==> end.result[(#[trigger] commands[j]).index as int] is Some
            &&& scalar_agree(features, positions, commands) ==> forall|j: int|
                0 <= j < commands.len() ==> end.cache[positions[(#[trigger] commands[j]).index as int]].scalar == scalar_asked(features, positions, commands[j])
        }),
    decreases commands.len(),
{
    if commands.len() > 0 {
        let rest = commands.drop_last();
        let last = commands.last();
        lemma_scalar_fold(features, positions, sent, start, rest);
        let mid = scalar_fold(features, positions, sent, start, rest);
        let end = scalar_fold(features, positions, sent, start, commands);
        assert(end == scalar_step(features, positions, sent, mid, last));
        let x = last.index as int;
        assert(commands[commands.len() - 1] == last);
        assert forall|j: int| 0 <= j < rest.len() implies rest[j] == commands[j] by {}
        assert forall|i: int| 0 <= i < positions.len() && i != x implies positions[i]
            != positions[x] by {
            if i < x {
                assert(positions[i] < positions[x]);
            } else {
                assert(positions[x] < positions[i]);
            }
        }
        if !sent {
            assert forall|j: int| 0 <= j < commands.len() implies end.result[(
            #[trigger] commands[j]).index as int] is Some by {
                if j < rest.len() {
                    assert(rest[j] == commands[j]);
                    assert(mid.result[rest[j].index as int] is Some);
                }
            }
        }
        if scalar_agree(features, positions, commands) {
            assert(scalar_agree(features, positions, rest)) by {
                assert forall|a: int, b: int|
                    0 <= a < rest.len() && 0 <= b < rest.len()
                        && (#[trigger] rest[a]).index == (#[trigger] rest[b]).index implies scalar_asked(
                    features,
                    positions,
                    rest[a],
                ) == scalar_asked(features, positions, rest[b]) by {
                    assert(rest[a] == commands[a]);
                    assert(rest[b] == commands[b]);
                }
            }
            assert forall|j: int| 0 <= j < commands.len() implies end.cache[positions[(#[trigger] commands[j]).index as int]].scalar == scalar_asked(features, positions, commands[j]) by {
                if j < rest.len() {
                    assert(rest[j] == commands[j]);
                    if commands[j].index == last.index {
                        assert(commands[commands.len() - 1].index == commands[j].index);
                    }
                }
            }
        }
    }
}

/// Subcommands that ask for what the cache holds already change nothing.
pub proof fn lemma_scalar_unchanged(
    features: Seq<DeviceFeatureView>,
    positions: Seq<int>,
    start: ScalarOutcome,
    commands: Seq<ScalarSubcommand>,
)
    requires
        forall|j: int|
            0 <= j < commands.len() ==> start.cache[positions[(#[trigger] commands[j]).index as int]].scalar == scalar_asked(features, positions, commands[j]),
    ensures
        scalar_fold(features, positions, true, start, commands) == start,
    decreases commands.len(),
{
    if commands.len() > 0 {
        let rest = commands.drop_last();
        assert forall|j: int| 0 <= j < rest.len() implies start.cache[positions[(#[trigger] rest[j]).index as int]].scalar == scalar_asked(features, positions, rest[j]) by {
            assert(rest[j] == commands[j]);
        }
        lemma_scalar_unchanged(features, positions, start, rest);
        assert(commands[commands.len() - 1] == commands.last());
    }
}

/// A scalar command on a manager that has handled none before fills the
/// slot of every subcommand. The same command once more finds nothing to do:
/// its result is empty and the cache stays.
///
/// This needs that the subcommands for one slot ask for the same: of two
/// that do not, the first undoes in the second run what the last left in the
/// first.
pub proof fn lemma_scalar_repeat(
    view: GenericCommandManagerView,
    commands: Seq<ScalarSubcommand>,
    match_all: bool,
)
    requires
        view.wf(),
        !view.sent_scalar,
        scalar_request_ok(view.features, commands),
        scalar_uniform(view.features, commands),
    ensures
        scalar_update(view, commands, match_all).result.len() == capable(
            view.features,
            ButtplugDeviceMessageType::ScalarCmd,
        ).len(),
        forall|j: int|
            0 <= j < commands.len() ==> scalar_update(view, commands, match_all).result[(
            #[trigger] commands[j]).index as int] is Some,
        scalar_update(after_scalar(view, commands, match_all), commands, match_all).result
            == Seq::<Option<(ActuatorType, u32)>>::empty(),
        scalar_update(after_scalar(view, commands, match_all), commands, match_all).cache
            == scalar_update(view, commands, match_all).cache,
{
    let positions = capable(view.features, ButtplugDeviceMessageType::ScalarCmd);
    lemma_capable(view.features, ButtplugDeviceMessageType::ScalarCmd);
    let empty = Seq::new(positions.len(), |i: int| None::<(ActuatorType, u32)>);
    let start = ScalarOutcome { cache: view.cache, result: empty };
    lemma_scalar_fold(view.features, positions, false, start, commands);
    let first = scalar_fold(view.features, positions, false, start, commands);
    assert(first.result[commands[0].index as int] is Some);
    assert(!all_none(first.result));
    let restart = ScalarOutcome { cache: first.cache, result: empty };
    lemma_scalar_unchanged(view.features, positions, restart, commands);
    assert(all_none(empty));
}

/// Matching all slots changes nothing but the slots that were left empty:
/// each of them takes the value that was cached for its feature before the
/// command. Without matching they stay empty. A command that changes no slot
/// has an empty result either way.
pub proof fn lemma_scalar_match_all(view: GenericCommandManagerView, commands: Seq<ScalarSubcommand>)
    requires
        view.wf(),
        scalar_request_ok(view.features, commands),
    ensures
        ({
            let positions = capable(view.features, ButtplugDeviceMessageType::ScalarCmd);
            let matched = scalar_update(view, commands, true);
            let plain = scalar_update(view, commands, false);
            &&& matched.cache == plain.cache
            &&& matched.result.len() == plain.result.len()
            &&& plain.result.len() == 0 || plain.result.len() == positions.len()
            &&& forall|i: int|
                0 <= i < plain.result.len() ==> match #[trigger] plain.result[i] {
                    Some(slot) => matched.result[i] == Some(slot),
                    None => matched.result[i] == Some((slot_type(view.features, positions, i), view.cache[positions[i]].scalar)),
                }
        }),
{
    let positions = capable(view.features, ButtplugDeviceMessageType::ScalarCmd);
    lemma_capable(view.features, ButtplugDeviceMessageType::ScalarCmd);
    let empty = Seq::new(positions.len(), |i: int| None::<(ActuatorType, u32)>);
    let start = ScalarOutcome { cache: view.cache, result: empty };
    lemma_scalar_fold(view.features, positions, view.sent_scalar, start, commands);
}

/// The first scalar command that a manager handles, with one subcommand, fills
/// the slot of the subcommand with the step value of its level on the step
/// range of the slot's feature, and no other slot.
pub proof fn lemma_scalar_first_use(view: GenericCommandManagerView, command: ScalarSubcommand)
    requires
        view.wf(),
        !view.sent_scalar,
        scalar_request_ok(view.features, seq![command]),
    ensures
        ({
            let positions = capable(view.features, ButtplugDeviceMessageType::ScalarCmd);
            let feature = view.features[positions[command.index as int]];
            let range = feature.actuator.unwrap().step_range;
            let steps = step_of(command.scalar, range.start, range.end);
            let outcome = scalar_update(view, seq![command], false);
            &&& outcome.result == Seq::new(
                positions.len(),
                |i: int|
                    if i == command.index {
                        Some((feature.feature_type.actuator_type().unwrap(), steps))
                    } else {
                        None
                    },
            )
            &&& outcome.cache == view.cache.update(
                positions[command.index as int],
                CommandCache {
                    scalar: steps,
                    rotation_clockwise: view.cache[positions[command.index as int]].rotation_clockwise,
                },
            )
        }),
{
    let commands = seq![command];
    let positions = capable(view.features, ButtplugDeviceMessageType::ScalarCmd);
    lemma_capable(view.features, ButtplugDeviceMessageType::ScalarCmd);
    let empty = Seq::new(positions.len(), |i: int| None::<(ActuatorType, u32)>);
    let start = ScalarOutcome { cache: view.cache, result: empty };
    assert(commands[0] == command);
    assert(commands.drop_last() =~= Seq::<ScalarSubcommand>::empty());
    assert(commands.last() == command);
    let rest = scalar_fold(view.features, positions, false, start, commands.drop_last());
    assert(rest == start);
    let folded = scalar_fold(view.features, positions, false, start, commands);
    assert(folded == scalar_step(view.features, positions, false, start, command));
    assert(folded.result[command.index as int] is Some);
    let feature = view.features[positions[command.index as int]];
    let range = feature.actuator.unwrap().step_range;
    let steps = step_of(command.scalar, range.start, range.end);
    assert(folded.result =~= Seq::new(
        positions.len(),
        |i: int|
            if i == command.index {
                Some((feature.feature_type.actuator_type().unwrap(), steps))
            } else {
                None
            },
    ));
}

} // verus!
