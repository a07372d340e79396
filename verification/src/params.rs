//! The parameter sets of the two engines: which parameters an engine has,
//! the limits that a written value is clamped to, and the set itself.
use vstd::prelude::*;
use crate::binary32::{Binary32, HALF_BITS, ONE_BITS, ZERO_BITS};
use crate::curve::is_bound;

verus! {

/// The pattern of `0.001`, the floor of both parameters of the simple engine.
pub const SIMPLE_FLOOR_BITS: u32 = 0x3a83_126f;

/// The pattern of `0.05`, the floor of both thresholds of the folding engine.
pub const FOLDING_THRESHOLD_FLOOR_BITS: u32 = 0x3d4c_cccd;

/// The pattern of `0.5`, the ceiling of the folding engine's fold.
pub const FOLD_CEILING_BITS: u32 = HALF_BITS;

/// The pattern of `0.01`, the floor of the folding engine's gain.
pub const FOLDING_GAIN_FLOOR_BITS: u32 = 0x3c23_d70a;

/// The two engines. Each has its own parameters, in a fixed order, and its
/// own limits on them.
#[derive(Clone, Copy, Debug, PartialEq, Eq, Structural)]
pub enum EngineKind {
    /// A symmetric hard clip. Parameters: threshold, gain.
    Simple,
    /// A hard clip with a threshold for each side and a fold-back beyond it.
    /// Parameters: threshold, lower threshold, fold, gain.
    Folding,
}

impl EngineKind {
    pub open spec fn spec_parameter_count(self) -> int {
        match self {
            EngineKind::Simple => 2,
            EngineKind::Folding => 4,
        }
    }

    pub open spec fn spec_is_valid_index(self, index: int) -> bool {
        0 <= index < self.spec_parameter_count()
    }

    /// What a value written to the parameter at `index` is stored as: a
    /// floor raises it, a ceiling lowers it, and a NaN becomes the limit.
    /// The fold has a ceiling and no floor.
    pub open spec fn spec_clamp(self, index: int, value: Binary32) -> Binary32 {
        match self {
            EngineKind::Simple => if index == 0 || index == 1 {
                value.max(Binary32 { bits: SIMPLE_FLOOR_BITS })
            } else {
                value
            },
            EngineKind::Folding => if index == 0 || index == 1 {
                value.max(Binary32 { bits: FOLDING_THRESHOLD_FLOOR_BITS })
            } else if index == 2 {
                value.min(Binary32 { bits: FOLD_CEILING_BITS })
            } else if index == 3 {
                value.max(Binary32 { bits: FOLDING_GAIN_FLOOR_BITS })
            } else {
                value
            },
        }
    }

    /// Whether the parameter at `index` can hold `value`: it is no NaN and
    /// within the parameter's limit.
    pub open spec fn admits(self, index: int, value: Binary32) -> bool {
        match self {
            EngineKind::Simple => index == 0 || index == 1 ==> value.ge(
                Binary32 { bits: SIMPLE_FLOOR_BITS },
            ),
            EngineKind::Folding => {
                &&& index == 0 || index == 1 ==> value.ge(
                    Binary32 { bits: FOLDING_THRESHOLD_FLOOR_BITS },
                )
                &&& index == 2 ==> value.le(Binary32 { bits: FOLD_CEILING_BITS })
                &&& index == 3 ==> value.ge(Binary32 { bits: FOLDING_GAIN_FLOOR_BITS })
            },
        }
    }

    /// The value that the parameter at `index` starts with.
    pub open spec fn spec_default_value(self, index: int) -> Binary32 {
        match self {
            EngineKind::Simple => if index == 0 {
                Binary32 { bits: ONE_BITS }
            } else if index == 1 {
                Binary32 { bits: HALF_BITS }
            } else {
                Binary32 { bits: ZERO_BITS }
            },
            EngineKind::Folding => if index == 0 || index == 1 {
                Binary32 { bits: ONE_BITS }
            } else if index == 3 {
                Binary32 { bits: HALF_BITS }
            } else {
                Binary32 { bits: ZERO_BITS }
            },
        }
    }

    /// The display name of the parameter at `index`; empty for an index that
    /// the engine does not have.
    pub open spec fn spec_name(self, index: int) -> Seq<char> {
        match self {
            EngineKind::Simple => if index == 0 {
                "threshold"@
            } else if index == 1 {
                "gain"@
            } else {
                ""@
            },
            EngineKind::Folding => if index == 0 {
                "threshold"@
            } else if index == 1 {
                "lower_threshold"@
            } else if index == 2 {
                "fold"@
            } else if index == 3 {
                "gain"@
            } else {
                ""@
            },
        }
    }

    /// The unit that the parameter at `index` is displayed in; empty for an
    /// index that the engine does not have.
    pub open spec fn spec_label(self, index: int) -> Seq<char> {
        if self.spec_is_valid_index(index) {
            "%"@
        } else {
            ""@
        }
    }

    /// Whether `values` can be the values of this engine's parameters, in
    /// their order: there is one for each parameter, and each is within
    /// its limits.
    pub open spec fn holds(self, values: Seq<Binary32>) -> bool {
        &&& values.len() == self.spec_parameter_count()
        &&& forall|i: int| 0 <= i < values.len() ==> self.admits(i, #[trigger] values[i])
    }

    /// What a read of the parameter at `index` gives: its value, or `0.0`
    /// for an index that the engine does not have.
    pub open spec fn spec_get(self, values: Seq<Binary32>, index: int) -> Binary32 {
        if self.spec_is_valid_index(index) {
            values[index]
        } else {
            Binary32 { bits: ZERO_BITS }
        }
    }

    /// The values after a write of `value` to the parameter at `index`: the
    /// clamped value in that place, or no change for an index that the
    /// engine does not have.
    pub open spec fn spec_set(self, values: Seq<Binary32>, index: int, value: Binary32) -> Seq<
        Binary32,
    > {
        if self.spec_is_valid_index(index) {
            values.update(index, self.spec_clamp(index, value))
        } else {
            values
        }
    }

    /// The number of parameters of the engine.
    pub fn parameter_count(self) -> (r: i32)
        ensures
            r == self.spec_parameter_count(),
    {
        match self {
            EngineKind::Simple => 2,
            EngineKind::Folding => 4,
        }
    }

    /// Whether the engine has a parameter at `index`.
    pub fn is_valid_index(self, index: i32) -> (r: bool)
        ensures
            r == self.spec_is_valid_index(index as int),
    {
        0 <= index && index < self.parameter_count()
    }

    /// The value that a write of `value` to the parameter at `index` stores,
    /// or `None` where the engine has no such parameter.
    pub fn clamp(self, index: i32, value: Binary32) -> (r: Option<Binary32>)
        ensures
            r == if self.spec_is_valid_index(index as int) {
                Some(self.spec_clamp(index as int, value))
            } else {
                None
            },
            r matches Some(stored) ==> self.admits(index as int, stored),
    {
        match self {
            EngineKind::Simple => match index {
                0 | 1 => Some(value.max(Binary32 { bits: SIMPLE_FLOOR_BITS })),
                _ => None,
            },
            EngineKind::Folding => match index {
                0 | 1 => Some(value.max(Binary32 { bits: FOLDING_THRESHOLD_FLOOR_BITS })),
                2 => Some(value.min(Binary32 { bits: FOLD_CEILING_BITS })),
                3 => Some(value.max(Binary32 { bits: FOLDING_GAIN_FLOOR_BITS })),
                _ => None,
            },
        }
    }

    /// The value that the parameter at `index` starts with, or `None` where
    /// the engine has no such parameter.
    pub fn default_value(self, index: i32) -> (r: Option<Binary32>)
        ensures
            r == if self.spec_is_valid_index(index as int) {
                Some(self.spec_default_value(index as int))
            } else {
                None
            },
            r matches Some(value) ==> self.admits(index as int, value),
    {
        match self {
            EngineKind::Simple => match index {
                0 => Some(Binary32 { bits: ONE_BITS }),
                1 => Some(Binary32 { bits: HALF_BITS }),
                _ => None,
            },
            EngineKind::Folding => match index {
                0 | 1 => Some(Binary32 { bits: ONE_BITS }),
                2 => Some(Binary32 { bits: ZERO_BITS }),
                3 => Some(Binary32 { bits: HALF_BITS }),
                _ => None,
            },
        }
    }

    /// The display name of the parameter at `index`.
    pub fn name(self, index: i32) -> (r: String)
        ensures
            r@ == self.spec_name(index as int),
    {
        match self {
            EngineKind::Simple => match index {
                0 => "threshold".to_owned(),
                1 => "gain".to_owned(),
                _ => "".to_owned(),
            },
            EngineKind::Folding => match index {
                0 => "threshold".to_owned(),
                1 => "lower_threshold".to_owned(),
                2 => "fold".to_owned(),
                3 => "gain".to_owned(),
                _ => "".to_owned(),
            },
        }
    }

    /// The unit that the parameter at `index` is displayed in.
    pub fn label(self, index: i32) -> (r: String)
        ensures
            r@ == self.spec_label(index as int),
    {
        if self.is_valid_index(index) {
            "%".to_owned()
        } else {
            "".to_owned()
        }
    }
}

/// The values of an engine's parameters, in the engine's own shape.
#[derive(Clone, Copy, Debug, PartialEq, Eq, Structural)]
enum Values {
    Simple { threshold: Binary32, gain: Binary32 },
    Folding { threshold: Binary32, lower_threshold: Binary32, fold: Binary32, gain: Binary32 },
}

/// The parameters of one engine: a value for each, in the engine's order.
///
/// A set is made with the engine's defaults or from clamped values, and is
/// changed only by [`ParameterSet::set_parameter`], which clamps; so every
/// value in a set is within its parameter's limits. In particular no
/// threshold and no gain of a set is zero, negative or a NaN.
#[derive(Clone, Copy, Debug, PartialEq, Eq, Structural)]
pub struct ParameterSet {
    values: Values,
}

impl View for ParameterSet {
    type V = Seq<Binary32>;

    /// The values of the parameters, in their order.
    closed spec fn view(&self) -> Seq<Binary32> {
        match self.values {
            Values::Simple { threshold, gain } => seq![threshold, gain],
            Values::Folding { threshold, lower_threshold, fold, gain } => seq![
                threshold,
                lower_threshold,
                fold,
                gain,
            ],
        }
    }
}

impl ParameterSet {
    /// The engine whose parameters these are.
    pub closed spec fn kind(self) -> EngineKind {
        match self.values {
            Values::Simple { .. } => EngineKind::Simple,
            Values::Folding { .. } => EngineKind::Folding,
        }
    }

    /// Whether there is a value for each parameter of the engine, each
    /// within its limits. It is true of every set that a program holds.
    #[verifier::type_invariant]
    pub open spec fn wf(self) -> bool {
        self.kind().holds(self@)
    }

    /// The set of an engine as it is at startup.
    pub fn new(kind: EngineKind) -> (r: ParameterSet)
        ensures
            r.kind() == kind,
            r@ == Seq::new(kind.spec_parameter_count() as nat, |i: int| kind.spec_default_value(i)),
            r.wf(),
    {
        let one = Binary32 { bits: ONE_BITS };
        let half = Binary32 { bits: HALF_BITS };
        let zero = Binary32 { bits: ZERO_BITS };
        let r = match kind {
            EngineKind::Simple => ParameterSet {
                values: Values::Simple { threshold: one, gain: half },
            },
            EngineKind::Folding => ParameterSet {
                values: Values::Folding {
                    threshold: one,
                    lower_threshold: one,
                    fold: zero,
                    gain: half,
                },
            },
        };
        assert(r@ =~= Seq::new(
            kind.spec_parameter_count() as nat,
            |i: int| kind.spec_default_value(i),
        ));
        r
    }

    /// A set of the simple engine with the given values, each clamped as a
    /// write would clamp it.
    pub fn simple(threshold: Binary32, gain: Binary32) -> (r: ParameterSet)
        ensures
            r.kind() == EngineKind::Simple,
            r@ == seq![
                EngineKind::Simple.spec_clamp(0, threshold),
                EngineKind::Simple.spec_clamp(1, gain),
            ],
            r.wf(),
    {
        let floor = Binary32 { bits: SIMPLE_FLOOR_BITS };
        ParameterSet { values: Values::Simple { threshold: threshold.max(floor), gain: gain.max(floor) } }
    }

    /// A set of the folding engine with the given values, each clamped as a
    /// write would clamp it.
    pub fn folding(
        threshold: Binary32,
        lower_threshold: Binary32,
        fold: Binary32,
        gain: Binary32,
    ) -> (r: ParameterSet)
        ensures
            r.kind() == EngineKind::Folding,
            r@ == seq![
                EngineKind::Folding.spec_clamp(0, threshold),
                EngineKind::Folding.spec_clamp(1, lower_threshold),
                EngineKind::Folding.spec_clamp(2, fold),
                EngineKind::Folding.spec_clamp(3, gain),
            ],
            r.wf(),
    {
        let floor = Binary32 { bits: FOLDING_THRESHOLD_FLOOR_BITS };
        ParameterSet {
            values: Values::Folding {
                threshold: threshold.max(floor),
                lower_threshold: lower_threshold.max(floor),
                fold: fold.min(Binary32 { bits: FOLD_CEILING_BITS }),
                gain: gain.max(Binary32 { bits: FOLDING_GAIN_FLOOR_BITS }),
            },
        }
    }

    /// The engine whose parameters these are.
    pub fn engine_kind(&self) -> (r: EngineKind)
        ensures
            r == self.kind(),
            self.wf(),
    {
        proof {
            use_type_invariant(self);
        }
        match self.values {
            Values::Simple { .. } => EngineKind::Simple,
            Values::Folding { .. } => EngineKind::Folding,
        }
    }

    /// The number of parameters in the set.
    pub fn parameter_count(&self) -> (r: i32)
        ensures
            r == self@.len(),
            r == self.kind().spec_parameter_count(),
    {
        self.engine_kind().parameter_count()
    }

    /// The value of the parameter at `index`, or `0.0` for an index that
    /// the set does not have. The value is within its parameter's limits.
    pub fn get_parameter(&self, index: i32) -> (r: Binary32)
        ensures
            r == self.kind().spec_get(self@, index as int),
            self.kind().admits(index as int, r),
            self.wf(),
    {
        proof {
            use_type_invariant(self);
        }
        match self.values {
            Values::Simple { threshold, gain } => match index {
                0 => threshold,
                1 => gain,
                _ => Binary32 { bits: ZERO_BITS },
            },
            Values::Folding { threshold, lower_threshold, fold, gain } => match index {
                0 => threshold,
                1 => lower_threshold,
                2 => fold,
                3 => gain,
                _ => Binary32 { bits: ZERO_BITS },
            },
        }
    }

    /// Writes `value`, clamped to the parameter's limits, to the parameter
    /// at `index`. For an index that the set does not have nothing changes.
    pub fn set_parameter(&mut self, index: i32, value: Binary32)
        ensures
            final(self).kind() == old(self).kind(),
            final(self)@ == old(self).kind().spec_set(old(self)@, index as int, value),
            final(self).wf(),
    {
        proof {
            use_type_invariant(&*self);
        }
        let kind = self.engine_kind();
        match kind.clamp(index, value) {
            Some(stored) => {
                let values = match self.values {
                    Values::Simple { threshold, gain } => if index == 0 {
                        Values::Simple { threshold: stored, gain }
                    } else {
                        Values::Simple { threshold, gain: stored }
                    },
                    Values::Folding { threshold, lower_threshold, fold, gain } => if index == 0 {
                        Values::Folding { threshold: stored, lower_threshold, fold, gain }
                    } else if index == 1 {
                        Values::Folding { threshold, lower_threshold: stored, fold, gain }
                    } else if index == 2 {
                        Values::Folding { threshold, lower_threshold, fold: stored, gain }
                    } else {
                        Values::Folding { threshold, lower_threshold, fold, gain: stored }
                    },
                };
                let ghost before = self@;
                let next = ParameterSet { values };
                assert(next@ =~= kind.spec_set(before, index as int, value));
                *self = next;
            },
            None => {},
        }
    }

    /// The display name of the parameter at `index`; empty for an index that
    /// the set does not have.
    pub fn get_parameter_name(&self, index: i32) -> (r: String)
        ensures
            r@ == self.kind().spec_name(index as int),
    {
        self.engine_kind().name(index)
    }

    /// The unit that the parameter at `index` is displayed in: `%`, or
    /// nothing for an index that the set does not have.
    pub fn get_parameter_label(&self, index: i32) -> (r: String)
        ensures
            r@ == self.kind().spec_label(index as int),
    {
        self.engine_kind().label(index)
    }
}

/// A written value is stored as one that its parameter can hold.
pub proof fn lemma_clamp_is_admitted(kind: EngineKind, index: int, value: Binary32)
    requires
        kind.spec_is_valid_index(index),
    ensures
        kind.admits(index, kind.spec_clamp(index, value)),
{
}

/// A value that its parameter can hold is stored as it is.
pub proof fn lemma_clamp_keeps_admitted(kind: EngineKind, index: int, value: Binary32)
    requires
        kind.admits(index, value),
    ensures
        kind.spec_clamp(index, value) == value,
{
}

/// Clamping twice is clamping once.
pub proof fn lemma_clamp_is_idempotent(kind: EngineKind, index: int, value: Binary32)
    ensures
        kind.spec_clamp(index, kind.spec_clamp(index, value)) == kind.spec_clamp(index, value),
{
}

/// A read after a write gives the clamped value.
pub proof fn lemma_get_after_set(
    kind: EngineKind,
    values: Seq<Binary32>,
    index: int,
    value: Binary32,
)
    requires
        values.len() == kind.spec_parameter_count(),
        kind.spec_is_valid_index(index),
    ensures
        kind.spec_get(kind.spec_set(values, index, value), index) == kind.spec_clamp(index, value),
{
}

/// A write changes no parameter but its own.
pub proof fn lemma_set_leaves_others(
    kind: EngineKind,
    values: Seq<Binary32>,
    index: int,
    value: Binary32,
    other: int,
)
    requires
        values.len() == kind.spec_parameter_count(),
        other != index,
    ensures
        kind.spec_get(kind.spec_set(values, index, value), other) == kind.spec_get(values, other),
{
}

/// A write to an index that the engine does not have changes nothing: the
/// values are the same, and so is every read.
pub proof fn lemma_set_at_invalid_index(
    kind: EngineKind,
    values: Seq<Binary32>,
    index: int,
    value: Binary32,
)
    requires
        !kind.spec_is_valid_index(index),
    ensures
        kind.spec_set(values, index, value) == values,
        forall|i: int| kind.spec_get(kind.spec_set(values, index, value), i) == kind.spec_get(values, i),
{
}

/// A write keeps every value within its limits.
pub proof fn lemma_set_keeps_limits(
    kind: EngineKind,
    values: Seq<Binary32>,
    index: int,
    value: Binary32,
)
    requires
        kind.holds(values),
    ensures
        kind.holds(kind.spec_set(values, index, value)),
{
}

/// Writing the value that a read gives changes nothing.
pub proof fn lemma_set_of_get_changes_nothing(kind: EngineKind, values: Seq<Binary32>, index: int)
    requires
        kind.holds(values),
    ensures
        kind.spec_set(values, index, kind.spec_get(values, index)) == values,
{
    if kind.spec_is_valid_index(index) {
        assert(kind.admits(index, values[index]));
        assert(kind.spec_set(values, index, values[index]) =~= values);
    }
}

/// Every threshold and every gain of a set can bound a curve: it is above
/// zero and no NaN. The fold is no NaN.
pub proof fn lemma_limits_give_bounds(kind: EngineKind, values: Seq<Binary32>, index: int)
    requires
        kind.holds(values),
        kind.spec_is_valid_index(index),
    ensures
        !values[index].is_nan(),
        !(kind == EngineKind::Folding && index == 2) ==> is_bound(values[index]),
{
    assert(kind.admits(index, values[index]));
}

} // verus!
