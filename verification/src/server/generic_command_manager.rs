//! The command manager of one connected device.
//!
//! A client sets actuators by index and by a level between zero and one. The
//! manager turns each level into a step value of the feature that the index
//! names, remembers what it last handed out for each feature, and hands out
//! only what has changed: some devices are reached over links so slow that a
//! needless write is felt. It also knows the commands that bring a device to
//! rest.
//!
//! An index in a command counts the features that take the command's type, in
//! the order of the device's feature list. The result of an update has one
//! slot for each such feature, in the same order.
//!
//! The manager is changed by an update and needs exclusive access for it. Two
//! updates of one manager are therefore never interleaved: each sees the
//! cache as the one before it left it.

use vstd::prelude::*;
use vstd::string::StringExecFns;
use crate::double::Double;
use crate::errors::{ButtplugDeviceError, ButtplugError};
use crate::message::{
    ActuatorType, ButtplugDeviceMessageType, DeviceFeature, DeviceFeatureView, LinearCmd,
    RotateCmd, RotationSubcommand, ScalarCmd, ScalarSubcommand,
};
use crate::message::client_device_message_attributes::{index_at, index_of};
use crate::message::unions::ButtplugDeviceCommandMessageUnion;
use crate::scaling::{step_of, step_value};
use crate::text::{decimal, decimal_text};

verus! {

/// What was last handed out for one feature: the step value and the direction
/// of rotation.
#[derive(Debug, Clone, Copy, PartialEq, Eq, Structural)]
pub struct CommandCache {
    pub scalar: u32,
    pub rotation_clockwise: bool,
}

/// The state of a command manager as plain values.
pub struct GenericCommandManagerView {
    /// The features of the device, in the order of their indices.
    pub features: Seq<DeviceFeatureView>,
    /// What was last handed out, feature by feature.
    pub cache: Seq<CommandCache>,
    /// Whether a scalar command has been handled before.
    pub sent_scalar: bool,
    /// Whether a rotation command has been handled before.
    pub sent_rotation: bool,
}

impl GenericCommandManagerView {
    /// The cache has one cell for each feature, and every feature is well
    /// formed.
    pub open spec fn wf(self) -> bool {
        &&& self.cache.len() == self.features.len()
        &&& forall|i: int| 0 <= i < self.features.len() ==> (#[trigger] self.features[i]).wf()
    }
}

/// The positions, in the feature list, of the features that take commands of
/// the given type, in rising order.
pub open spec fn capable(
    features: Seq<DeviceFeatureView>,
    message_type: ButtplugDeviceMessageType,
) -> Seq<int>
    decreases features.len(),
{
    if features.len() == 0 {
        Seq::empty()
    } else {
        let rest = capable(features.drop_last(), message_type);
        if features.last().supports(message_type) {
            rest.push(features.len() - 1)
        } else {
            rest
        }
    }
}

/// Every entry of `capable` is a position of a feature that takes the
/// commands, and the entries rise.
pub proof fn lemma_capable(
    features: Seq<DeviceFeatureView>,
    message_type: ButtplugDeviceMessageType,
)
    ensures
        capable(features, message_type).len() <= features.len(),
        forall|i: int|
            0 <= i < capable(features, message_type).len() ==> 0 <= (#[trigger] capable(
                features,
                message_type,
            )[i]) < features.len() && features[capable(features, message_type)[i]].supports(
                message_type,
            ),
        forall|i: int, j: int|
            0 <= i < j < capable(features, message_type).len() ==> capable(
                features,
                message_type,
            )[i] < capable(features, message_type)[j],
    decreases features.len(),
{
    if features.len() > 0 {
        lemma_capable(features.drop_last(), message_type);
    }
}

/// The kind of actuator of the feature in slot `index`.
pub open spec fn slot_type(
    features: Seq<DeviceFeatureView>,
    positions: Seq<int>,
    index: int,
) -> ActuatorType {
    features[positions[index]].feature_type.actuator_type().unwrap()
}

/// The step value that a level stands for on the feature in slot `index`.
pub open spec fn slot_steps(
    features: Seq<DeviceFeatureView>,
    positions: Seq<int>,
    index: int,
    level: Double,
) -> u32 {
    let range = features[positions[index]].actuator.unwrap().step_range;
    step_of(level, range.start, range.end)
}

/// Whether no slot of a result is filled.
pub open spec fn all_none<T>(slots: Seq<Option<T>>) -> bool {
    forall|i: int| 0 <= i < slots.len() ==> (#[trigger] slots[i]) is None
}

/// A cache together with the slots of a result.
pub struct ScalarOutcome {
    pub cache: Seq<CommandCache>,
    pub result: Seq<Option<(ActuatorType, u32)>>,
}

/// What one subcommand does. Its level becomes a step value of the feature
/// in its slot. If no scalar command was handled before this message, or the
/// step value differs from the cached one, the step value is cached and
/// fills the slot. Otherwise nothing changes.
pub open spec fn scalar_step(
    features: Seq<DeviceFeatureView>,
    positions: Seq<int>,
    sent: bool,
    state: ScalarOutcome,
    command: ScalarSubcommand,
) -> ScalarOutcome {
    let index = command.index as int;
    let position = positions[index];
    let steps = slot_steps(features, positions, index, command.scalar);
    if !sent || steps != state.cache[position].scalar {
        ScalarOutcome {
            cache: state.cache.update(
                position,
                CommandCache {
                    scalar: steps,
                    rotation_clockwise: state.cache[position].rotation_clockwise,
                },
            ),
            result: state.result.update(index, Some((slot_type(features, positions, index), steps))),
        }
    } else {
        state
    }
}

/// What the subcommands of a message do, one after the other.
pub open spec fn scalar_fold(
    features: Seq<DeviceFeatureView>,
    positions: Seq<int>,
    sent: bool,
    state: ScalarOutcome,
    commands: Seq<ScalarSubcommand>,
) -> ScalarOutcome
    decreases commands.len(),
{
    if commands.len() == 0 {
        state
    } else {
        scalar_step(
            features,
            positions,
            sent,
            scalar_fold(features, positions, sent, state, commands.drop_last()),
            commands.last(),
        )
    }
}

/// A scalar command can be handled if it has a subcommand and every
/// subcommand names a slot that the device has.
pub open spec fn scalar_request_ok(
    features: Seq<DeviceFeatureView>,
    commands: Seq<ScalarSubcommand>,
) -> bool {
    commands.len() > 0 && forall|i: int|
        0 <= i < commands.len() ==> (#[trigger] commands[i]).index < capable(
            features,
            ButtplugDeviceMessageType::ScalarCmd,
        ).len()
}

/// The cache and the result of a scalar command that can be handled.
///
/// The subcommands are applied in turn to an empty result. If no slot was
/// filled the result is empty: there is nothing to write. Otherwise, if all
/// slots are to be matched, each slot that was not filled takes the cached
/// step value of its feature.
pub open spec fn scalar_update(
    view: GenericCommandManagerView,
    commands: Seq<ScalarSubcommand>,
    match_all: bool,
) -> ScalarOutcome {
    let positions = capable(view.features, ButtplugDeviceMessageType::ScalarCmd);
    let folded = scalar_fold(
        view.features,
        positions,
        view.sent_scalar,
        ScalarOutcome { cache: view.cache, result: Seq::new(positions.len(), |i: int| None) },
        commands,
    );
    ScalarOutcome {
        cache: folded.cache,
        result: if all_none(folded.result) {
            Seq::empty()
        } else if match_all {
            Seq::new(
                positions.len(),
                |i: int|
                    match folded.result[i] {
                        Some(slot) => Some(slot),
                        None => Some(
                            (
                                slot_type(view.features, positions, i),
                                folded.cache[positions[i]].scalar,
                            ),
                        ),
                    },
            )
        } else {
            folded.result
        },
    }
}

/// Text of the error for a scalar command that cannot be handled.
pub open spec fn scalar_error_text(
    features: Seq<DeviceFeatureView>,
    commands: Seq<ScalarSubcommand>,
) -> Seq<char> {
    if commands.len() == 0 {
        "ScalarCmd has 0 commands, will not do anything."@
    } else {
        "ScalarCmd has "@ + decimal(commands.len()) + " commands, device has "@ + decimal(
            capable(features, ButtplugDeviceMessageType::ScalarCmd).len(),
        ) + " features."@
    }
}

/// A cache together with the slots of a result of a rotation command.
pub struct RotationOutcome {
    pub cache: Seq<CommandCache>,
    pub result: Seq<Option<(u32, bool)>>,
}

/// What one subcommand does. Its speed becomes a step value of the feature
/// in its slot. If no rotation command was handled before this message, or
/// the step value or the direction differs from the cached one, both are
/// cached and fill the slot. Otherwise nothing changes.
pub open spec fn rotation_step(
    features: Seq<DeviceFeatureView>,
    positions: Seq<int>,
    sent: bool,
    state: RotationOutcome,
    command: RotationSubcommand,
) -> RotationOutcome {
    let index = command.index as int;
    let position = positions[index];
    let steps = slot_steps(features, positions, index, command.speed);
    if !sent || steps != state.cache[position].scalar || command.clockwise
        != state.cache[position].rotation_clockwise {
        RotationOutcome {
            cache: state.cache.update(
                position,
                CommandCache { scalar: steps, rotation_clockwise: command.clockwise },
            ),
            result: state.result.update(index, Some((steps, command.clockwise))),
        }
    } else {
        state
    }
}

/// What the subcommands of a message do, one after the other.
pub open spec fn rotation_fold(
    features: Seq<DeviceFeatureView>,
    positions: Seq<int>,
    sent: bool,
    state: RotationOutcome,
    commands: Seq<RotationSubcommand>,
) -> RotationOutcome
    decreases commands.len(),
{
    if commands.len() == 0 {
        state
    } else {
        rotation_step(
            features,
            positions,
            sent,
            rotation_fold(features, positions, sent, state, commands.drop_last()),
            commands.last(),
        )
    }
}

/// A rotation command can be handled if it has a subcommand and every
/// subcommand names a slot that the device has.
pub open spec fn rotation_request_ok(
    features: Seq<DeviceFeatureView>,
    commands: Seq<RotationSubcommand>,
) -> bool {
    commands.len() > 0 && forall|i: int|
        0 <= i < commands.len() ==> (#[trigger] commands[i]).index < capable(
            features,
            ButtplugDeviceMessageType::RotateCmd,
        ).len()
}

/// The cache and the result of a rotation command that can be handled: as
/// for a scalar command, with a speed and a direction in each slot.
pub open spec fn rotation_update(
    view: GenericCommandManagerView,
    commands: Seq<RotationSubcommand>,
    match_all: bool,
) -> RotationOutcome {
    let positions = capable(view.features, ButtplugDeviceMessageType::RotateCmd);
    let folded = rotation_fold(
        view.features,
        positions,
        view.sent_rotation,
        RotationOutcome { cache: view.cache, result: Seq::new(positions.len(), |i: int| None) },
        commands,
    );
    RotationOutcome {
        cache: folded.cache,
        result: if all_none(folded.result) {
            Seq::empty()
        } else if match_all {
            Seq::new(
                positions.len(),
                |i: int|
                    match folded.result[i] {
                        Some(slot) => Some(slot),
                        None => Some(
                            (
                                folded.cache[positions[i]].scalar,
                                folded.cache[positions[i]].rotation_clockwise,
                            ),
                        ),
                    },
            )
        } else {
            folded.result
        },
    }
}

/// Text of the error for a rotation command that cannot be handled.
pub open spec fn rotation_error_text(
    features: Seq<DeviceFeatureView>,
    commands: Seq<RotationSubcommand>,
) -> Seq<char> {
    if commands.len() == 0 {
        "RotateCmd has 0 commands, will not do anything."@
    } else {
        "RotateCmd has "@ + decimal(commands.len()) + " commands, device has "@ + decimal(
            capable(features, ButtplugDeviceMessageType::RotateCmd).len(),
        ) + " rotators."@
    }
}

/// The subcommands that bring every scalar actuator to rest: level zero for
/// each slot, with the kind of the slot's actuator. The index of a slot is
/// its place among the slots, as far as it fits into 32 bits.
pub open spec fn stop_scalars(features: Seq<DeviceFeatureView>) -> Seq<ScalarSubcommand> {
    let positions = capable(features, ButtplugDeviceMessageType::ScalarCmd);
    Seq::new(
        positions.len(),
        |i: int|
            ScalarSubcommand {
                index: index_of(i),
                scalar: Double { bits: 0 },
                actuator_type: slot_type(features, positions, i),
            },
    )
}

/// The subcommands that bring every rotator to rest: speed zero and
/// counter-clockwise for each slot.
pub open spec fn stop_rotations(features: Seq<DeviceFeatureView>) -> Seq<RotationSubcommand> {
    let positions = capable(features, ButtplugDeviceMessageType::RotateCmd);
    Seq::new(
        positions.len(),
        |i: int| RotationSubcommand { index: index_of(i), speed: Double { bits: 0 }, clockwise: false },
    )
}

/// Whether `commands` are the commands that bring a device with the given
/// features to rest: one scalar command if the device has scalar actuators,
/// then one rotation command if it has rotators, each with a subcommand for
/// every slot, and nothing else.
pub open spec fn is_stop_set(
    commands: Seq<ButtplugDeviceCommandMessageUnion>,
    features: Seq<DeviceFeatureView>,
) -> bool {
    let scalars = stop_scalars(features);
    let rotations = stop_rotations(features);
    let first = if scalars.len() > 0 {
        1int
    } else {
        0int
    };
    let second = if rotations.len() > 0 {
        1int
    } else {
        0int
    };
    &&& commands.len() == first + second
    &&& scalars.len() > 0 ==> (commands[0] matches ButtplugDeviceCommandMessageUnion::ScalarCmd(c)
        && c.id == 1 && c.device_index == 0 && c.scalars@ == scalars)
    &&& rotations.len() > 0
        ==> (commands[first] matches ButtplugDeviceCommandMessageUnion::RotateCmd(
        c,
    ) && c.id == 1 && c.device_index == 0 && c.rotations@ == rotations)
}

/// The views of a list of features.
pub open spec fn feature_views(features: Seq<DeviceFeature>) -> Seq<DeviceFeatureView> {
    features.map_values(|f: DeviceFeature| f@)
}

/// Positions as mathematical integers.
pub open spec fn as_ints(positions: Seq<usize>) -> Seq<int> {
    positions.map_values(|p: usize| p as int)
}

/// Keeps, for one connected device, what was last handed out for each
/// feature.
pub struct GenericCommandManager {
    sent_scalar: bool,
    sent_rotation: bool,
    _sent_linear: bool,
    features: Vec<DeviceFeature>,
    cache: Vec<CommandCache>,
    stop_commands: Vec<ButtplugDeviceCommandMessageUnion>,
}

impl View for GenericCommandManager {
    type V = GenericCommandManagerView;

    closed spec fn view(&self) -> GenericCommandManagerView {
        GenericCommandManagerView {
            features: feature_views(self.features@),
            cache: self.cache@,
            sent_scalar: self.sent_scalar,
            sent_rotation: self.sent_rotation,
        }
    }
}

impl GenericCommandManager {
    /// The invariant of the manager: its state is well formed and its stop
    /// commands are those of its features.
    pub closed spec fn wf(&self) -> bool {
        self@.wf() && is_stop_set(self.stop_commands@, self@.features)
    }

    /// A manager that is well formed has a well formed state.
    pub proof fn lemma_wf(&self)
        requires
            self.wf(),
        ensures
            self@.wf(),
    {
    }

    fn positions(
        features: &Vec<DeviceFeature>,
        message_type: ButtplugDeviceMessageType,
    ) -> (r: Vec<usize>)
        ensures
            as_ints(r@) == capable(feature_views(features@), message_type),
    {
        let mut out: Vec<usize> = Vec::new();
        let mut i: usize = 0;
        let ghost views = feature_views(features@);
        while i < features.len()
            invariant
                i <= features.len(),
                views == feature_views(features@),
                as_ints(out@) == capable(views.take(i as int), message_type),
            decreases features.len() - i,
        {
            let supported = features[i].supports(message_type);
            proof {
                assert(views.take(i + 1).drop_last() =~= views.take(i as int));
                assert(views.take(i + 1).last() == features[i as int]@);
            }
            if supported {
                out.push(i);
                assert(as_ints(out@) =~= capable(views.take(i as int), message_type).push(
                    i as int,
                ));
            }
            i = i + 1;
        }
        proof {
            assert(views.take(features.len() as int) =~= views);
        }
        out
    }

    /// The step range and the kind of the actuator in a slot.
    fn slot(
        features: &Vec<DeviceFeature>,
        positions: &Vec<usize>,
        index: usize,
        message_type: ButtplugDeviceMessageType,
    ) -> (r: (u32, u32, ActuatorType))
        requires
            index < positions@.len(),
            message_type == ButtplugDeviceMessageType::ScalarCmd || message_type
                == ButtplugDeviceMessageType::RotateCmd,
            forall|i: int|
                0 <= i < positions@.len() ==> 0 <= (#[trigger] positions@[i]) < features@.len()
                    && (features@[positions@[i] as int])@.supports(message_type),
            forall|i: int| 0 <= i < features@.len() ==> (#[trigger] features@[i])@.wf(),
        ensures
            r.0 == (features@[positions@[index as int] as int])@.actuator.unwrap().step_range.start,
            r.1 == (features@[positions@[index as int] as int])@.actuator.unwrap().step_range.end,
            r.0 <= r.1,
            message_type == ButtplugDeviceMessageType::ScalarCmd ==> r.2 == (features@[positions@[index as int] as int])@.feature_type.actuator_type().unwrap(),
    {
        let feature = &features[positions[index]];
        assert(feature@.wf());
        assert(feature@.supports(message_type));
        let range = match &feature.actuator {
            Some(actuator) => (actuator.step_range.start, actuator.step_range.end),
            None => (0, 0),
        };
        let kind = match ActuatorType::try_from(feature.feature_type) {
            Ok(kind) => kind,
            Err(_) => ActuatorType::Unknown,
        };
        (range.0, range.1, kind)
    }

    /// Sets up the manager of a device with the given features: nothing has
    /// been handed out yet, and every cached value is zero and
    /// counter-clockwise.
    pub fn new(features: &Vec<DeviceFeature>) -> (r: GenericCommandManager)
        requires
            forall|i: int| 0 <= i < features@.len() ==> (#[trigger] features@[i])@.wf(),
        ensures
            r.wf(),
            r@.features == feature_views(features@),
            r@.cache == Seq::new(
                features@.len(),
                |i: int| CommandCache { scalar: 0, rotation_clockwise: false },
            ),
            !r@.sent_scalar,
            !r@.sent_rotation,
    {
        let ghost views = feature_views(features@);
        let mut own: Vec<DeviceFeature> = Vec::new();
        let mut cache: Vec<CommandCache> = Vec::new();
        let mut i: usize = 0;
        while i < features.len()
            invariant
                i <= features.len(),
                own@.len() == i,
                views.len() == features@.len(),
                feature_views(own@) == views.take(i as int),
                views == feature_views(features@),
                cache@ == Seq::new(
                    i as nat,
                    |j: int| CommandCache { scalar: 0, rotation_clockwise: false },
                ),
            decreases features.len() - i,
        {
            let ghost before = own@;
            own.push(features[i].duplicate());
            cache.push(CommandCache { scalar: 0, rotation_clockwise: false });
            proof {
                assert forall|j: int| 0 <= j < i + 1 implies feature_views(own@)[j] == views.take(
                    i + 1,
                )[j] by {
                    if j < i {
                        assert(own@[j] == before[j]);
                        assert(feature_views(before)[j] == views.take(i as int)[j]);
                    } else {
                        assert(views[j] == features@[j]@);
                    }
                }
                assert(feature_views(own@) =~= views.take(i + 1));
                assert(cache@ =~= Seq::new(
                    (i + 1) as nat,
                    |j: int| CommandCache { scalar: 0, rotation_clockwise: false },
                ));
            }
            i = i + 1;
        }
        proof {
            assert(views.take(features.len() as int) =~= views);
            lemma_capable(views, ButtplugDeviceMessageType::ScalarCmd);
            lemma_capable(views, ButtplugDeviceMessageType::RotateCmd);
        }
        let mut stop_commands: Vec<ButtplugDeviceCommandMessageUnion> = Vec::new();
        let scalar_positions = Self::positions(&own, ButtplugDeviceMessageType::ScalarCmd);
        let mut scalar_stop_subcommands: Vec<ScalarSubcommand> = Vec::new();
        let mut index: usize = 0;
        assert forall|i: int| 0 <= i < own@.len() implies (#[trigger] own@[i])@.wf() by {
            assert(feature_views(own@)[i] == views[i]);
            assert(views[i] == features@[i]@);
        }
        assert forall|i: int| 0 <= i < scalar_positions@.len() implies 0 <= (
        #[trigger] scalar_positions@[i]) < own@.len()
            && (own@[scalar_positions@[i] as int])@.supports(ButtplugDeviceMessageType::ScalarCmd) by {
            assert(as_ints(scalar_positions@)[i] == scalar_positions@[i]);
            assert(views[scalar_positions@[i] as int] == own@[scalar_positions@[i] as int]@);
        }
        while index < scalar_positions.len()
            invariant
                index <= scalar_positions.len(),
                scalar_positions@.len() <= own@.len(),
                feature_views(own@) == views,
                as_ints(scalar_positions@) == capable(views, ButtplugDeviceMessageType::ScalarCmd),
                forall|i: int| 0 <= i < own@.len() ==> (#[trigger] own@[i])@.wf(),
                forall|i: int|
                    0 <= i < scalar_positions@.len() ==> 0 <= (#[trigger] scalar_positions@[i])
                        < own@.len() && (own@[scalar_positions@[i] as int])@.supports(ButtplugDeviceMessageType::ScalarCmd),
                scalar_stop_subcommands@ == stop_scalars(views).take(index as int),
            decreases scalar_positions.len() - index,
        {
            let slot = Self::slot(&own, &scalar_positions, index, ButtplugDeviceMessageType::ScalarCmd);
            scalar_stop_subcommands.push(
                ScalarSubcommand::new(index_at(index), Double::from_bits(0), slot.2),
            );
            proof {
                assert(as_ints(scalar_positions@)[index as int] == scalar_positions@[index as int]);
                assert(views[scalar_positions@[index as int] as int]
                    == own@[scalar_positions@[index as int] as int]@);
                assert(scalar_stop_subcommands@ =~= stop_scalars(views).take(index + 1));
            }
            index = index + 1;
        }
        proof {
            assert(as_ints(scalar_positions@).len() == scalar_positions@.len());
            assert(stop_scalars(views).take(scalar_positions@.len() as int) =~= stop_scalars(
                views,
            ));
        }
        if scalar_stop_subcommands.len() > 0 {
            stop_commands.push(
                ButtplugDeviceCommandMessageUnion::ScalarCmd(
                    ScalarCmd::new(0, scalar_stop_subcommands),
                ),
            );
        }
        let rotate_positions = Self::positions(&own, ButtplugDeviceMessageType::RotateCmd);
        let mut rotate_stop_subcommands: Vec<RotationSubcommand> = Vec::new();
        let mut index: usize = 0;
        while index < rotate_positions.len()
            invariant
                index <= rotate_positions.len(),
                rotate_positions@.len() <= own@.len(),
                as_ints(rotate_positions@) == capable(views, ButtplugDeviceMessageType::RotateCmd),
                rotate_stop_subcommands@ == stop_rotations(views).take(index as int),
            decreases rotate_positions.len() - index,
        {
            rotate_stop_subcommands.push(
                RotationSubcommand::new(index_at(index), Double::from_bits(0), false),
            );
            proof {
                assert(rotate_stop_subcommands@ =~= stop_rotations(views).take(index + 1));
            }
            index = index + 1;
        }
        proof {
            assert(as_ints(rotate_positions@).len() == rotate_positions@.len());
            assert(stop_rotations(views).take(rotate_positions@.len() as int) =~= stop_rotations(
                views,
            ));
        }
        if rotate_stop_subcommands.len() > 0 {
            stop_commands.push(
                ButtplugDeviceCommandMessageUnion::RotateCmd(
                    RotateCmd::new(0, rotate_stop_subcommands),
                ),
            );
        }
        GenericCommandManager {
            sent_scalar: false,
            sent_rotation: false,
            _sent_linear: false,
            features: own,
            cache,
            stop_commands,
        }
    }

    /// Handles a scalar command.
    ///
    /// A command without subcommands, or with a subcommand for a slot that
    /// the device lacks, fails, and the manager stays as it was. Any other
    /// command succeeds with the result that `scalar_update` describes, leaves
    /// its step values in the cache, and marks that a scalar command has
    /// been handled.
    #[verifier::loop_isolation(false)]
    pub fn update_scalar(&mut self, msg: &ScalarCmd, match_all: bool) -> (r: Result<
        Vec<Option<(ActuatorType, u32)>>,
        ButtplugError,
    >)
        requires
            old(self).wf(),
        ensures
            final(self).wf(),
            final(self)@.features == old(self)@.features,
            final(self)@.sent_rotation == old(self)@.sent_rotation,
            scalar_request_ok(old(self)@.features, msg.scalars@)
                ==> (r matches Ok(v) && v@ == scalar_update(
                old(self)@,
                msg.scalars@,
                match_all,
            ).result && final(self)@.cache
                == scalar_update(old(self)@, msg.scalars@, match_all).cache
                && final(self)@.sent_scalar),
            !scalar_request_ok(old(self)@.features, msg.scalars@)
                ==> final(self)@ == old(self)@ && (r matches Err(
                ButtplugError::ButtplugDeviceError(ButtplugDeviceError::ProtocolRequirementError(text)),
            ) && text@ == scalar_error_text(old(self)@.features, msg.scalars@)),
    {
        let count = msg.scalars.len();
        if count == 0 {
            return Err(
                ButtplugError::ButtplugDeviceError(
                    ButtplugDeviceError::ProtocolRequirementError(
                        String::from_str("ScalarCmd has 0 commands, will not do anything."),
                    ),
                ),
            );
        }
        let positions = Self::positions(&self.features, ButtplugDeviceMessageType::ScalarCmd);
        let slots = positions.len();
        let ghost views = self@.features;
        let ghost places = capable(views, ButtplugDeviceMessageType::ScalarCmd);
        let ghost commands = msg.scalars@;
        proof {
            lemma_capable(views, ButtplugDeviceMessageType::ScalarCmd);
            assert(as_ints(positions@).len() == positions@.len());
            assert forall|i: int| 0 <= i < self.features@.len() implies (
            #[trigger] self.features@[i])@.wf() by {
                assert(views[i] == self.features@[i]@);
            }
            assert forall|i: int| 0 <= i < positions@.len() implies 0 <= (#[trigger] positions@[i])
                < self.features@.len()
                    && (self.features@[positions@[i] as int])@.supports(ButtplugDeviceMessageType::ScalarCmd) by {
                assert(as_ints(positions@)[i] == positions@[i]);
                assert(views[positions@[i] as int] == self.features@[positions@[i] as int]@);
            }
        }
        let mut checked: usize = 0;
        while checked < count
            invariant
                checked <= count == commands.len(),
                commands == msg.scalars@,
                slots == places.len(),
                places == capable(views, ButtplugDeviceMessageType::ScalarCmd),
                forall|i: int| 0 <= i < checked ==> (#[trigger] commands[i]).index < slots,
            decreases count - checked,
        {
            if msg.scalars[checked].index as usize >= slots {
                assert(commands[checked as int].index >= slots);
                let mut text = String::from_str("ScalarCmd has ");
                let number = decimal_text(count);
                text.append(number.as_str());
                text.append(" commands, device has ");
                let number = decimal_text(slots);
                text.append(number.as_str());
                text.append(" features.");
                proof {
                    assert(text@ =~= scalar_error_text(views, commands));
                }
                return Err(
                    ButtplugError::ButtplugDeviceError(
                        ButtplugDeviceError::ProtocolRequirementError(text),
                    ),
                );
            }
            checked = checked + 1;
        }
        let mut result: Vec<Option<(ActuatorType, u32)>> = Vec::new();
        let mut filled: usize = 0;
        while filled < slots
            invariant
                filled <= slots,
                result@ == Seq::new(filled as nat, |i: int| None::<(ActuatorType, u32)>),
            decreases slots - filled,
        {
            result.push(None);
            assert(result@ =~= Seq::new((filled + 1) as nat, |i: int| None::<(ActuatorType, u32)>));
            filled = filled + 1;
        }
        let sent = self.sent_scalar;
        let ghost start = ScalarOutcome { cache: self.cache@, result: result@ };
        let mut done: usize = 0;
        let mut changed: bool = false;
        while done < count
            invariant
                done <= count == commands.len(),
                commands == msg.scalars@,
                slots == places.len() == positions@.len() == result@.len(),
                as_ints(positions@) == places,
                self.cache@.len() == self.features@.len(),
                self.features == old(self).features,
                self.stop_commands == old(self).stop_commands,
                self.sent_scalar == old(self).sent_scalar,
                self.sent_rotation == old(self).sent_rotation,
                feature_views(self.features@) == views,
                forall|i: int| 0 <= i < commands.len() ==> (#[trigger] commands[i]).index < slots,
                forall|i: int| 0 <= i < self.features@.len()
                    ==> (#[trigger] self.features@[i])@.wf(),
                forall|i: int|
                    0 <= i < positions@.len() ==> 0 <= (#[trigger] positions@[i])
                        < self.features@.len()
                            && (self.features@[positions@[i] as int])@.supports(ButtplugDeviceMessageType::ScalarCmd),
                (ScalarOutcome { cache: self.cache@, result: result@ }) == scalar_fold(
                    views,
                    places,
                    sent,
                    start,
                    commands.take(done as int),
                ),
                changed == !all_none(result@),
            decreases count - done,
        {
            let command = msg.scalars[done];
            let index = command.index as usize;
            let position = positions[index];
            let slot = Self::slot(&self.features, &positions, index, ButtplugDeviceMessageType::ScalarCmd);
            let steps = step_value(command.scalar, slot.0, slot.1);
            let ghost before = ScalarOutcome { cache: self.cache@, result: result@ };
            proof {
                assert(commands.take(done + 1).drop_last() =~= commands.take(done as int));
                assert(commands.take(done + 1).last() == command);
                assert(places[index as int] == position);
                assert(views[position as int] == self.features@[position as int]@);
            }
            let current = self.cache[position];
            if !sent || steps != current.scalar {
                self.cache.set(
                    position,
                    CommandCache { scalar: steps, rotation_clockwise: current.rotation_clockwise },
                );
                result.set(index, Some((slot.2, steps)));
                changed = true;
            }
            proof {
                assert((ScalarOutcome { cache: self.cache@, result: result@ }) == scalar_step(
                    views,
                    places,
                    sent,
                    before,
                    command,
                ));
                if before.result != result@ {
                    assert(result@[index as int] is Some);
                }
            }
            done = done + 1;
        }
        proof {
            assert(commands.take(count as int) =~= commands);
        }
        self.sent_scalar = true;
        if !changed {
            return Ok(Vec::new());
        }
        if match_all {
            let ghost folded = ScalarOutcome { cache: self.cache@, result: result@ };
            let mut index: usize = 0;
            while index < slots
                invariant
                    index <= slots,
                    slots == places.len() == positions@.len() == result@.len()
                        == folded.result.len(),
                    as_ints(positions@) == places,
                    self.cache@ == folded.cache,
                    self.cache@.len() == self.features@.len(),
                    feature_views(self.features@) == views,
                    forall|i: int| 0 <= i < self.features@.len()
                        ==> (#[trigger] self.features@[i])@.wf(),
                    forall|i: int|
                        0 <= i < positions@.len() ==> 0 <= (#[trigger] positions@[i])
                            < self.features@.len()
                                && (self.features@[positions@[i] as int])@.supports(ButtplugDeviceMessageType::ScalarCmd),
                    forall|i: int| index <= i < slots ==> result@[i] == folded.result[i],
                    forall|i: int|
                        0 <= i < index ==> result@[i] == match folded.result[i] {
                            Some(slot) => Some(slot),
                            None => {
                                Some((slot_type(views, places, i), folded.cache[places[i]].scalar))
                            },
                        },
                decreases slots - index,
            {
                if result[index].is_none() {
                    let position = positions[index];
                    let slot = Self::slot(&self.features, &positions, index, ButtplugDeviceMessageType::ScalarCmd);
                    proof {
                        assert(places[index as int] == position);
                        assert(views[position as int] == self.features@[position as int]@);
                    }
                    let cached = self.cache[position];
                    result.set(index, Some((slot.2, cached.scalar)));
                }
                index = index + 1;
            }
            proof {
                assert(result@ =~= scalar_update(old(self)@, commands, match_all).result);
            }
        }
        Ok(result)
    }

    /// Handles a rotation command.
    ///
    /// A command without subcommands, or with a subcommand for a slot that the
    /// device lacks, fails, and the manager stays as it was. Any other command
    /// succeeds with the result that `rotation_update` describes, leaves its
    /// step values in the cache, and marks that a rotation command has been
    /// handled.
    #[verifier::loop_isolation(false)]
    pub fn update_rotation(&mut self, msg: &RotateCmd, match_all: bool) -> (r: Result<
        Vec<Option<(u32, bool)>>,
        ButtplugError,
    >)
        requires
            old(self).wf(),
        ensures
            final(self).wf(),
            final(self)@.features == old(self)@.features,
            final(self)@.sent_scalar == old(self)@.sent_scalar,
            rotation_request_ok(old(self)@.features, msg.rotations@)
                ==> (r matches Ok(v) && v@ == rotation_update(
                old(self)@,
                msg.rotations@,
                match_all,
            ).result && final(self)@.cache
                == rotation_update(old(self)@, msg.rotations@, match_all).cache
                && final(self)@.sent_rotation),
            !rotation_request_ok(old(self)@.features, msg.rotations@)
                ==> final(self)@ == old(self)@ && (r matches Err(
                ButtplugError::ButtplugDeviceError(ButtplugDeviceError::ProtocolRequirementError(text)),
            ) && text@ == rotation_error_text(old(self)@.features, msg.rotations@)),
    {
        let count = msg.rotations.len();
        if count == 0 {
            return Err(
                ButtplugError::ButtplugDeviceError(
                    ButtplugDeviceError::ProtocolRequirementError(
                        String::from_str("RotateCmd has 0 commands, will not do anything."),
                    ),
                ),
            );
        }
        let positions = Self::positions(&self.features, ButtplugDeviceMessageType::RotateCmd);
        let slots = positions.len();
        let ghost views = self@.features;
        let ghost places = capable(views, ButtplugDeviceMessageType::RotateCmd);
        let ghost commands = msg.rotations@;
        proof {
            lemma_capable(views, ButtplugDeviceMessageType::RotateCmd);
            assert(as_ints(positions@).len() == positions@.len());
            assert forall|i: int| 0 <= i < self.features@.len() implies (
            #[trigger] self.features@[i])@.wf() by {
                assert(views[i] == self.features@[i]@);
            }
            assert forall|i: int| 0 <= i < positions@.len() implies 0 <= (#[trigger] positions@[i])
                < self.features@.len()
                    && (self.features@[positions@[i] as int])@.supports(ButtplugDeviceMessageType::RotateCmd) by {
                assert(as_ints(positions@)[i] == positions@[i]);
                assert(views[positions@[i] as int] == self.features@[positions@[i] as int]@);
            }
        }
        let mut checked: usize = 0;
        while checked < count
            invariant
                checked <= count == commands.len(),
                commands == msg.rotations@,
                slots == places.len(),
                places == capable(views, ButtplugDeviceMessageType::RotateCmd),
                forall|i: int| 0 <= i < checked ==> (#[trigger] commands[i]).index < slots,
            decreases count - checked,
        {
            if msg.rotations[checked].index as usize >= slots {
                assert(commands[checked as int].index >= slots);
                let mut text = String::from_str("RotateCmd has ");
                let number = decimal_text(count);
                text.append(number.as_str());
                text.append(" commands, device has ");
                let number = decimal_text(slots);
                text.append(number.as_str());
                text.append(" rotators.");
                proof {
                    assert(text@ =~= rotation_error_text(views, commands));
                }
                return Err(
                    ButtplugError::ButtplugDeviceError(
                        ButtplugDeviceError::ProtocolRequirementError(text),
                    ),
                );
            }
            checked = checked + 1;
        }
        let mut result: Vec<Option<(u32, bool)>> = Vec::new();
        let mut filled: usize = 0;
        while filled < slots
            invariant
                filled <= slots,
                result@ == Seq::new(filled as nat, |i: int| None::<(u32, bool)>),
            decreases slots - filled,
        {
            result.push(None);
            assert(result@ =~= Seq::new((filled + 1) as nat, |i: int| None::<(u32, bool)>));
            filled = filled + 1;
        }
        let sent = self.sent_rotation;
        let ghost start = RotationOutcome { cache: self.cache@, result: result@ };
        let mut done: usize = 0;
        let mut changed: bool = false;
        while done < count
            invariant
                done <= count == commands.len(),
                commands == msg.rotations@,
                slots == places.len() == positions@.len() == result@.len(),
                as_ints(positions@) == places,
                self.cache@.len() == self.features@.len(),
                self.features == old(self).features,
                self.stop_commands == old(self).stop_commands,
                self.sent_scalar == old(self).sent_scalar,
                self.sent_rotation == old(self).sent_rotation,
                feature_views(self.features@) == views,
                forall|i: int| 0 <= i < commands.len() ==> (#[trigger] commands[i]).index < slots,
                forall|i: int| 0 <= i < self.features@.len()
                    ==> (#[trigger] self.features@[i])@.wf(),
                forall|i: int|
                    0 <= i < positions@.len() ==> 0 <= (#[trigger] positions@[i])
                        < self.features@.len()
                            && (self.features@[positions@[i] as int])@.supports(ButtplugDeviceMessageType::RotateCmd),
                (RotationOutcome { cache: self.cache@, result: result@ }) == rotation_fold(
                    views,
                    places,
                    sent,
                    start,
                    commands.take(done as int),
                ),
                changed == !all_none(result@),
            decreases count - done,
        {
            let command = msg.rotations[done];
            let index = command.index as usize;
            let position = positions[index];
            let slot = Self::slot(&self.features, &positions, index, ButtplugDeviceMessageType::RotateCmd);
            let steps = step_value(command.speed, slot.0, slot.1);
            let ghost before = RotationOutcome { cache: self.cache@, result: result@ };
            proof {
                assert(commands.take(done + 1).drop_last() =~= commands.take(done as int));
                assert(commands.take(done + 1).last() == command);
                assert(places[index as int] == position);
                assert(views[position as int] == self.features@[position as int]@);
            }
            let current = self.cache[position];
            if !sent || steps != current.scalar || command.clockwise != current.rotation_clockwise {
                self.cache.set(
                    position,
                    CommandCache { scalar: steps, rotation_clockwise: command.clockwise },
                );
                result.set(index, Some((steps, command.clockwise)));
                changed = true;
            }
            proof {
                assert((RotationOutcome { cache: self.cache@, result: result@ }) == rotation_step(
                    views,
                    places,
                    sent,
                    before,
                    command,
                ));
                if before.result != result@ {
                    assert(result@[index as int] is Some);
                }
            }
            done = done + 1;
        }
        proof {
            assert(commands.take(count as int) =~= commands);
        }
        self.sent_rotation = true;
        if !changed {
            return Ok(Vec::new());
        }
        if match_all {
            let ghost folded = RotationOutcome { cache: self.cache@, result: result@ };
            let mut index: usize = 0;
            while index < slots
                invariant
                    index <= slots,
                    slots == places.len() == positions@.len() == result@.len()
                        == folded.result.len(),
                    as_ints(positions@) == places,
                    self.cache@ == folded.cache,
                    self.cache@.len() == self.features@.len(),
                    feature_views(self.features@) == views,
                    forall|i: int| 0 <= i < self.features@.len()
                        ==> (#[trigger] self.features@[i])@.wf(),
                    forall|i: int|
                        0 <= i < positions@.len() ==> 0 <= (#[trigger] positions@[i])
                            < self.features@.len()
                                && (self.features@[positions@[i] as int])@.supports(ButtplugDeviceMessageType::RotateCmd),
                    forall|i: int| index <= i < slots ==> result@[i] == folded.result[i],
                    forall|i: int|
                        0 <= i < index ==> result@[i] == match folded.result[i] {
                            Some(slot) => Some(slot),
                            None => {
                                Some((folded.cache[places[i]].scalar, folded.cache[places[i]].rotation_clockwise))
                            },
                        },
                decreases slots - index,
            {
                if result[index].is_none() {
                    let position = positions[index];
                    let slot = Self::slot(&self.features, &positions, index, ButtplugDeviceMessageType::RotateCmd);
                    proof {
                        assert(places[index as int] == position);
                        assert(views[position as int] == self.features@[position as int]@);
                    }
                    let cached = self.cache[position];
                    result.set(index, Some((cached.scalar, cached.rotation_clockwise)));
                }
                index = index + 1;
            }
            proof {
                assert(result@ =~= rotation_update(old(self)@, commands, match_all).result);
            }
        }
        Ok(result)
    }

    /// The linear commands have no update of their own yet: nothing is
    /// handed out for them, whatever the command.
    pub fn _update_linear(
        &self,
        _msg: &LinearCmd,
    ) -> (r: Result<Option<Vec<(u32, u32)>>, ButtplugError>)
        ensures
            r matches Ok(None),
    {
        Ok(None)
    }

    /// The commands that bring the device to rest. They are the same for the
    /// whole life of the manager, and to ask for them changes nothing.
    pub fn stop_commands(&self) -> (r: Vec<ButtplugDeviceCommandMessageUnion>)
        requires
            self.wf(),
        ensures
            is_stop_set(r@, self@.features),
    {
        let mut out: Vec<ButtplugDeviceCommandMessageUnion> = Vec::new();
        let mut i: usize = 0;
        while i < self.stop_commands.len()
            invariant
                i <= self.stop_commands.len(),
                self.wf(),
                out@.len() == i,
                forall|j: int|
                    0 <= j < i ==> match self.stop_commands@[j] {
                        ButtplugDeviceCommandMessageUnion::ScalarCmd(c) => (
                        #[trigger] out@[j]) matches ButtplugDeviceCommandMessageUnion::ScalarCmd(d)
                            && d.id == c.id && d.device_index == c.device_index && d.scalars@
                            == c.scalars@,
                        ButtplugDeviceCommandMessageUnion::RotateCmd(c) => (
                        #[trigger] out@[j]) matches ButtplugDeviceCommandMessageUnion::RotateCmd(d)
                            && d.id == c.id && d.device_index == c.device_index && d.rotations@
                            == c.rotations@,
                        _ => false,
                    },
            decreases self.stop_commands.len() - i,
        {
            match &self.stop_commands[i] {
                ButtplugDeviceCommandMessageUnion::ScalarCmd(c) => {
                    let copy = ScalarCmd {
                        id: c.id,
                        device_index: c.device_index,
                        scalars: c.scalars.clone(),
                    };
                    assert(copy.scalars@ =~= c.scalars@);
                    out.push(ButtplugDeviceCommandMessageUnion::ScalarCmd(copy));
                },
                ButtplugDeviceCommandMessageUnion::RotateCmd(c) => {
                    let copy = RotateCmd {
                        id: c.id,
                        device_index: c.device_index,
                        rotations: c.rotations.clone(),
                    };
                    assert(copy.rotations@ =~= c.rotations@);
                    out.push(ButtplugDeviceCommandMessageUnion::RotateCmd(copy));
                },
                _ => {
                    return Vec::new();
                },
            }
            i = i + 1;
        }
        out
    }

    /// The cached step value of every scalar actuator, slot by slot.
    pub fn scalars(&self) -> (r: Vec<Option<(ActuatorType, u32)>>)
        requires
            self.wf(),
        ensures
            r@ == Seq::new(
                capable(self@.features, ButtplugDeviceMessageType::ScalarCmd).len(),
                |i: int|
                    Some(
                        (
                            slot_type(
                                self@.features,
                                capable(self@.features, ButtplugDeviceMessageType::ScalarCmd),
                                i,
                            ),
                            self@.cache[capable(
                                self@.features,
                                ButtplugDeviceMessageType::ScalarCmd,
                            )[i]].scalar,
                        ),
                    ),
            ),
    {
        let positions = Self::positions(&self.features, ButtplugDeviceMessageType::ScalarCmd);
        let ghost views = self@.features;
        let ghost places = capable(views, ButtplugDeviceMessageType::ScalarCmd);
        proof {
            lemma_capable(views, ButtplugDeviceMessageType::ScalarCmd);
            assert(as_ints(positions@).len() == positions@.len());
            assert forall|i: int| 0 <= i < self.features@.len() implies (
            #[trigger] self.features@[i])@.wf() by {
                assert(views[i] == self.features@[i]@);
            }
            assert forall|i: int| 0 <= i < positions@.len() implies 0 <= (#[trigger] positions@[i])
                < self.features@.len()
                    && (self.features@[positions@[i] as int])@.supports(ButtplugDeviceMessageType::ScalarCmd) by {
                assert(as_ints(positions@)[i] == positions@[i]);
                assert(views[positions@[i] as int] == self.features@[positions@[i] as int]@);
            }
        }
        let mut out: Vec<Option<(ActuatorType, u32)>> = Vec::new();
        let mut index: usize = 0;
        while index < positions.len()
            invariant
                index <= positions.len(),
                self.wf(),
                views == self@.features,
                places == capable(views, ButtplugDeviceMessageType::ScalarCmd),
                as_ints(positions@) == places,
                places.len() == positions@.len(),
                forall|i: int| 0 <= i < self.features@.len()
                    ==> (#[trigger] self.features@[i])@.wf(),
                forall|i: int|
                    0 <= i < positions@.len() ==> 0 <= (#[trigger] positions@[i])
                        < self.features@.len()
                            && (self.features@[positions@[i] as int])@.supports(ButtplugDeviceMessageType::ScalarCmd),
                out@.len() == index,
                forall|i: int|
                    0 <= i < index ==> out@[i] == Some(
                        (slot_type(views, places, i), self@.cache[places[i]].scalar),
                    ),
            decreases positions.len() - index,
        {
            let position = positions[index];
            let slot = Self::slot(&self.features, &positions, index, ButtplugDeviceMessageType::ScalarCmd);
            proof {
                assert(places[index as int] == position);
                assert(views[position as int] == self.features@[position as int]@);
            }
            out.push(Some((slot.2, self.cache[position].scalar)));
            index = index + 1;
        }
        out
    }
}

} // verus!
