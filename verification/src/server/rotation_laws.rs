//! What holds of every rotation update.

use vstd::prelude::*;
use crate::message::{ButtplugDeviceMessageType, DeviceFeatureView, RotationSubcommand};
use crate::server::generic_command_manager::{
    all_none, capable, lemma_capable, rotation_fold, rotation_request_ok, rotation_step,
    rotation_update, slot_steps, CommandCache, GenericCommandManagerView, RotationOutcome,
};

verus! {

/// What a subcommand asks for: the step value of its speed on the feature in
/// its slot, and its direction.
pub open spec fn rotation_asked(
    features: Seq<DeviceFeatureView>,
    positions: Seq<int>,
    command: RotationSubcommand,
) -> CommandCache {
    CommandCache {
        scalar: slot_steps(features, positions, command.index as int, command.speed),
        rotation_clockwise: command.clockwise,
    }
}

/// Whether the subcommands that name one slot all ask for the same, where
/// `positions` are the places of the slots in the feature list. Two
/// subcommands that name different slots are never in each other's way.
pub open spec fn rotation_agree(
    features: Seq<DeviceFeatureView>,
    positions: Seq<int>,
    commands: Seq<RotationSubcommand>,
) -> bool {
    forall|a: int, b: int|
        0 <= a < commands.len() && 0 <= b < commands.len()
            && (#[trigger] commands[a]).index == (#[trigger] commands[b]).index
            ==> rotation_asked(features, positions, commands[a]) == rotation_asked(
            features,
            positions,
            commands[b],
        )
}

/// Whether the subcommands that name one slot all ask for the same on the
/// features of a device.
pub open spec fn rotation_uniform(features: Seq<DeviceFeatureView>, commands: Seq<RotationSubcommand>) -> bool {
    rotation_agree(features, capable(features, ButtplugDeviceMessageType::RotateCmd), commands)
}

/// The state of a manager after it has handled a rotation command.
pub open spec fn after_rotation(
    view: GenericCommandManagerView,
    commands: Seq<RotationSubcommand>,
    match_all: bool,
) -> GenericCommandManagerView {
    GenericCommandManagerView {
        features: view.features,
        cache: rotation_update(view, commands, match_all).cache,
        sent_rotation: true,
        sent_scalar: view.sent_scalar,
    }
}

/// What the subcommands of a message leave behind, slot by slot.
///
/// A filled slot holds what the cache holds for its feature. A slot that is
/// not filled has left the cache cell of its feature alone, and so has every
/// feature without a slot. On a manager that has handled no
/// such command before, the slot of every subcommand is filled. Where the
/// subcommands for one slot ask for the same, the cache holds in the end what
/// each subcommand asks for.
pub proof fn lemma_rotation_fold(
    features: Seq<DeviceFeatureView>,
    positions: Seq<int>,
    sent: bool,
    start: RotationOutcome,
    commands: Seq<RotationSubcommand>,
)
    requires
        forall|i: int, j: int| 0 <= i < j < positions.len() ==> positions[i] < positions[j],
        forall|i: int| 0 <= i < positions.len() ==> 0 <= #[trigger] positions[i] < start.cache.len(),
        start.result.len() == positions.len(),
        all_none(start.result),
        forall|j: int| 0 <= j < commands.len() ==> (#[trigger] commands[j]).index < positions.len(),
    ensures
        ({
            let end = rotation_fold(features, positions, sent, start, commands);
            &&& end.cache.len() == start.cache.len()
            &&& end.result.len() == start.result.len()
            &&& forall|i: int|
                0 <= i < positions.len() ==> ((#[trigger] end.result[i]) matches Some(slot)
                    ==> slot == (end.cache[positions[i]].scalar, end.cache[positions[i]].rotation_clockwise))
            &&& forall|i: int|
                0 <= i < positions.len() && (#[trigger] end.result[i]) is None
                    ==> end.cache[positions[i]] == start.cache[positions[i]]
            &&& forall|p: int|
                0 <= p < start.cache.len() && (forall|i: int|
                    0 <= i < positions.len() ==> positions[i] != p) ==> (#[trigger] end.cache[p])
                    == start.cache[p]
            &&& !sent ==> forall|j: int|
                0 <= j < commands.len() ==> end.result[(#[trigger] commands[j]).index as int] is Some
            &&& rotation_agree(features, positions, commands) ==> forall|j: int|
                0 <= j < commands.len() ==> end.cache[positions[(#[trigger] commands[j]).index as int]] == rotation_asked(features, positions, commands[j])
        }),
    decreases commands.len(),
{
    if commands.len() > 0 {
        let rest = commands.drop_last();
        let last = commands.last();
        lemma_rotation_fold(features, positions, sent, start, rest);
        let mid = rotation_fold(features, positions, sent, start, rest);
        let end = rotation_fold(features, positions, sent, start, commands);
        assert(end == rotation_step(features, positions, sent, mid, last));
        let x = last.index as int;
        assert(commands[commands.len() - 1] == last);
        assert forall|j: int| 0 <= j < rest.len() implies rest[j] == commands[j] by {}
        assert forall|i: int| 0 <= i < positions.len() && i != x implies positions[i]
            != positions[x] by {
            if i < x {
                assert(positions[i] < positions[x]);
            } else {
                assert(positions[x] < positions[i]);
            }
        }
        if !sent {
            assert forall|j: int| 0 <= j < commands.len() implies end.result[(
            #[trigger] commands[j]).index as int] is Some by {
                if j < rest.len() {
                    assert(rest[j] == commands[j]);
                    assert(mid.result[rest[j].index as int] is Some);
                }
            }
        }
        if rotation_agree(features, positions, commands) {
            assert(rotation_agree(features, positions, rest)) by {
                assert forall|a: int, b: int|
                    0 <= a < rest.len() && 0 <= b < rest.len()
                        && (#[trigger] rest[a]).index == (#[trigger] rest[b]).index implies rotation_asked(
                    features,
                    positions,
                    rest[a],
                ) == rotation_asked(features, positions, rest[b]) by {
                    assert(rest[a] == commands[a]);
                    assert(rest[b] == commands[b]);
                }
            }
            assert forall|j: int| 0 <= j < commands.len() implies end.cache[positions[(#[trigger] commands[j]).index as int]] == rotation_asked(features, positions, commands[j]) by {
                if j < rest.len() {
                    assert(rest[j] == commands[j]);
                    if commands[j].index == last.index {
                        assert(commands[commands.len() - 1].index == commands[j].index);
                    }
                }
            }
        }
    }
}

/// Subcommands that ask for what the cache holds already change nothing.
pub proof fn lemma_rotation_unchanged(
    features: Seq<DeviceFeatureView>,
    positions: Seq<int>,
    start: RotationOutcome,
    commands: Seq<RotationSubcommand>,
)
    requires
        forall|j: int|
            0 <= j < commands.len() ==> start.cache[positions[(#[trigger] commands[j]).index as int]] == rotation_asked(features, positions, commands[j]),
    ensures
        rotation_fold(features, positions, true, start, commands) == start,
    decreases commands.len(),
{
    if commands.len() > 0 {
        let rest = commands.drop_last();
        assert forall|j: int| 0 <= j < rest.len() implies start.cache[positions[(#[trigger] rest[j]).index as int]] == rotation_asked(features, positions, rest[j]) by {
            assert(rest[j] == commands[j]);
        }
        lemma_rotation_unchanged(features, positions, start, rest);
        assert(commands[commands.len() - 1] == commands.last());
    }
}

/// A rotation command on a manager that has handled none before fills the
/// slot of every subcommand. The same command once more finds nothing to do:
/// its result is empty and the cache stays.
///
/// This needs that the subcommands for one slot ask for the same: of two
/// that do not, the first undoes in the second run what the last left in the
/// first.
pub proof fn lemma_rotation_repeat(
    view: GenericCommandManagerView,
    commands: Seq<RotationSubcommand>,
    match_all: bool,
)
    requires
        view.wf(),
        !view.sent_rotation,
        rotation_request_ok(view.features, commands),
        rotation_uniform(view.features, commands),
    ensures
        rotation_update(view, commands, match_all).result.len() == capable(
            view.features,
            ButtplugDeviceMessageType::RotateCmd,
        ).len(),
        forall|j: int|
            0 <= j < commands.len() ==> rotation_update(view, commands, match_all).result[(
            #[trigger] commands[j]).index as int] is Some,
        rotation_update(after_rotation(view, commands, match_all), commands, match_all).result
            == Seq::<Option<(u32, bool)>>::empty(),
        rotation_update(after_rotation(view, commands, match_all), commands, match_all).cache
            == rotation_update(view, commands, match_all).cache,
{
    let positions = capable(view.features, ButtplugDeviceMessageType::RotateCmd);
    lemma_capable(view.features, ButtplugDeviceMessageType::RotateCmd);
    let empty = Seq::new(positions.len(), |i: int| None::<(u32, bool)>);
    let start = RotationOutcome { cache: view.cache, result: empty };
    lemma_rotation_fold(view.features, positions, false, start, commands);
    let first = rotation_fold(view.features, positions, false, start, commands);
    assert(first.result[commands[0].index as int] is Some);
    assert(!all_none(first.result));
    let restart = RotationOutcome { cache: first.cache, result: empty };
    lemma_rotation_unchanged(view.features, positions, restart, commands);
    assert(all_none(empty));
}

/// Matching all slots changes nothing but the slots that were left empty:
/// each of them takes the value that was cached for its feature before the
/// command. Without matching they stay empty. A command that changes no slot
/// has an empty result either way.
pub proof fn lemma_rotation_match_all(view: GenericCommandManagerView, commands: Seq<RotationSubcommand>)
    requires
        view.wf(),
        rotation_request_ok(view.features, commands),
    ensures
        ({
            let positions = capable(view.features, ButtplugDeviceMessageType::RotateCmd);
            let matched = rotation_update(view, commands, true);
            let plain = rotation_update(view, commands, false);
            &&& matched.cache == plain.cache
            &&& matched.result.len() == plain.result.len()
            &&& plain.result.len() == 0 || plain.result.len() == positions.len()
            &&& forall|i: int|
                0 <= i < plain.result.len() ==> match #[trigger] plain.result[i] {
                    Some(slot) => matched.result[i] == Some(slot),
                    None => matched.result[i] == Some((view.cache[positions[i]].scalar, view.cache[positions[i]].rotation_clockwise)),
                }
        }),
{
    let positions = capable(view.features, ButtplugDeviceMessageType::RotateCmd);
    lemma_capable(view.features, ButtplugDeviceMessageType::RotateCmd);
    let empty = Seq::new(positions.len(), |i: int| None::<(u32, bool)>);
    let start = RotationOutcome { cache: view.cache, result: empty };
    lemma_rotation_fold(view.features, positions, view.sent_rotation, start, commands);
}

} // verus!
