//! Targets: what a match is replaced with.
//!
//! A target is one of three kinds. What it hands out for a match is described
//! by `can_produce`: a relation, since two of the kinds draw at random.

use std::ops::Range;
use vstd::prelude::*;

use crate::capture::Capture;
use crate::chance::{alias_new, alias_sample, alias_weights, draw_below, weights_fault, AliasTable};
use crate::error::ConfigError;

verus! {

/// Always the same fragment.
#[derive(Debug)]
pub struct DirectTarget {
    pub replacement: &'static str,
}

/// One of several targets, each as likely as the others.
#[derive(Debug)]
pub struct MultiTarget {
    replacement: Vec<Target>,
}

/// One of several targets, each as likely as its weight is large.
#[derive(Debug)]
pub struct MapTarget {
    targets: Vec<Target>,
    weighted_dist: AliasTable,
}

/// A producer of replacement fragments.
#[derive(Debug)]
pub enum Target {
    Fixed(DirectTarget),
    Multi(MultiTarget),
    Weighted(MapTarget),
}

/// The targets of a list of weighted targets, in its order.
pub open spec fn pair_targets(pairs: Seq<(Target, u32)>) -> Seq<Target> {
    pairs.map_values(|pair: (Target, u32)| pair.0)
}

/// The weights of a list of weighted targets, in its order.
pub open spec fn pair_weights(pairs: Seq<(Target, u32)>) -> Seq<u32> {
    pairs.map_values(|pair: (Target, u32)| pair.1)
}

impl DirectTarget {
    /// Whether a call may hand out `fragment`: only the configured one,
    /// whatever was matched and at whatever severity.
    pub open spec fn can_produce(self, matched: Seq<char>, severity: i32, fragment: Seq<char>) -> bool {
        fragment == self.replacement@
    }

    /// The fragment for a match.
    pub fn callback(&self, caps: Capture) -> (fragment: &str)
        ensures
            self.can_produce(caps.spec_original(), caps.spec_severity(), fragment@),
    {
        self.replacement
    }
}

impl MultiTarget {
    /// There is always something to choose from.
    #[verifier::type_invariant]
    pub closed spec fn well_formed(self) -> bool {
        self.replacement@.len() > 0
    }

    /// The targets to choose from, in the order they were given.
    pub closed spec fn choices(self) -> Seq<Target> {
        self.replacement@
    }

    /// Whether a call may hand out `fragment`: one of the choices may, shown
    /// the same match at the same severity.
    pub open spec fn can_produce(self, matched: Seq<char>, severity: i32, fragment: Seq<char>) -> bool
        decreases self,
    {
        exists|i: int|
            0 <= i < self.choices().len() && (#[trigger] self.choices()[i]).can_produce(
                matched,
                severity,
                fragment,
            )
    }

    /// A target that chooses uniformly among `replacement`. An empty list is
    /// refused: there would be nothing to produce.
    pub fn new(replacement: Vec<Target>) -> (r: Result<Self, ConfigError>)
        ensures
            match r {
                Ok(multi) => {
                    &&& replacement@.len() > 0
                    &&& multi.well_formed()
                    &&& multi.choices() == replacement@
                },
                Err(fault) => replacement@.len() == 0 && fault == ConfigError::NoItem,
            },
    {
        if replacement.len() == 0 {
            Err(ConfigError::NoItem)
        } else {
            Ok(MultiTarget { replacement })
        }
    }

    /// How many targets there are to choose from: never zero.
    pub fn len(&self) -> (count: usize)
        ensures
            count == self.choices().len(),
            count > 0,
    {
        proof {
            use_type_invariant(self);
        }
        self.replacement.len()
    }

    /// The target at position `draw`.
    pub fn pick(&self, draw: usize) -> (chosen: &Target)
        requires
            draw < self.choices().len(),
        ensures
            *chosen == self.choices()[draw as int],
    {
        &self.replacement[draw]
    }

    /// The fragment for a match: that of a target drawn afresh at each call.
    pub fn callback(&self, caps: Capture) -> (fragment: &str)
        ensures
            self.can_produce(caps.spec_original(), caps.spec_severity(), fragment@),
        decreases self,
    {
        let draw: usize = draw_below(self.len());
        let fragment = self.pick(draw).callback(caps);
        assert(self.choices()[draw as int].can_produce(
            caps.spec_original(),
            caps.spec_severity(),
            fragment@,
        ));
        fragment
    }
}

impl MapTarget {
    /// Each target has its weight, and the sampling table accepted the
    /// weights.
    #[verifier::type_invariant]
    pub closed spec fn well_formed(self) -> bool {
        &&& self.targets@.len() == alias_weights(self.weighted_dist).len()
        &&& weights_fault(alias_weights(self.weighted_dist)) is None
    }

    /// The targets to choose from, in the order they were given.
    pub closed spec fn choices(self) -> Seq<Target> {
        self.targets@
    }

    /// The weight of each target, in the same order.
    pub closed spec fn weights(self) -> Seq<u32> {
        alias_weights(self.weighted_dist)
    }

    /// Whether a call may hand out `fragment`: one of the choices whose weight
    /// is above zero may, shown the same match at the same severity.
    pub open spec fn can_produce(self, matched: Seq<char>, severity: i32, fragment: Seq<char>) -> bool
        decreases self,
    {
        exists|i: int|
            0 <= i < self.choices().len() && i < self.weights().len() && self.weights()[i] > 0 && (
            #[trigger] self.choices()[i]).can_produce(matched, severity, fragment)
    }

    /// A target that chooses among the first parts of `replacement`, each with
    /// a chance proportional to the weight beside it. The weights need not
    /// add up to anything in particular, and some may be zero; the list is
    /// refused where [`weights_fault`] finds a fault in its weights.
    pub fn new(replacement: Vec<(Target, u32)>) -> (r: Result<Self, ConfigError>)
        ensures
            match r {
                Ok(map) => {
                    &&& weights_fault(pair_weights(replacement@)) is None
                    &&& map.well_formed()
                    &&& map.choices() == pair_targets(replacement@)
                    &&& map.weights() == pair_weights(replacement@)
                },
                Err(fault) => weights_fault(pair_weights(replacement@)) == Some(fault),
            },
    {
        let ghost pairs = replacement@;
        let mut targets: Vec<Target> = Vec::with_capacity(replacement.len());
        let mut weights: Vec<u32> = Vec::with_capacity(replacement.len());
        for pair in it: replacement
            invariant
                it.seq() == pairs,
                targets@ == pair_targets(pairs.take(it.index())),
                weights@ == pair_weights(pairs.take(it.index())),
        {
            let (target, weight) = pair;
            targets.push(target);
            weights.push(weight);
            assert(pairs.take(it.index() + 1) == pairs.take(it.index()).push(pair));
        }
        assert(pairs.take(pairs.len() as int) == pairs);
        match alias_new(weights) {
            Ok(weighted_dist) => Ok(MapTarget { targets, weighted_dist }),
            Err(fault) => Err(fault),
        }
    }

    /// How many targets there are to choose from: never zero.
    pub fn len(&self) -> (count: usize)
        ensures
            count == self.choices().len(),
            count == self.weights().len(),
            count > 0,
    {
        proof {
            use_type_invariant(self);
        }
        self.targets.len()
    }

    /// The target at position `draw`.
    pub fn pick(&self, draw: usize) -> (chosen: &Target)
        requires
            draw < self.choices().len(),
        ensures
            *chosen == self.choices()[draw as int],
    {
        &self.targets[draw]
    }

    /// The fragment for a match: that of a target drawn afresh at each call,
    /// never one of weight zero.
    pub fn callback(&self, caps: Capture) -> (fragment: &str)
        ensures
            self.can_produce(caps.spec_original(), caps.spec_severity(), fragment@),
        decreases self,
    {
        proof {
            use_type_invariant(self);
        }
        let draw: usize = alias_sample(&self.weighted_dist);
        let fragment = self.pick(draw).callback(caps);
        assert(self.choices()[draw as int].can_produce(
            caps.spec_original(),
            caps.spec_severity(),
            fragment@,
        ));
        fragment
    }
}

impl From<&'static str> for Target {
    /// A text by itself stands for the `Fixed` target that hands it out.
    fn from(replacement: &'static str) -> (target: Target) {
        Target::Fixed(DirectTarget { replacement })
    }
}

impl vstd::std_specs::convert::FromSpecImpl<&'static str> for Target {
    open spec fn obeys_from_spec() -> bool {
        true
    }

    open spec fn from_spec(replacement: &'static str) -> Target {
        Target::Fixed(DirectTarget { replacement })
    }
}

impl Target {
    /// Whether a call that is shown the text `matched` at `severity` may hand
    /// out `fragment`.
    pub open spec fn can_produce(self, matched: Seq<char>, severity: i32, fragment: Seq<char>) -> bool
        decreases self,
    {
        match self {
            Target::Fixed(direct) => direct.can_produce(matched, severity, fragment),
            Target::Multi(multi) => multi.can_produce(matched, severity, fragment),
            Target::Weighted(map) => map.can_produce(matched, severity, fragment),
        }
    }

    /// The fragment that replaces one match.
    pub fn callback(&self, caps: Capture) -> (fragment: &str)
        ensures
            self.can_produce(caps.spec_original(), caps.spec_severity(), fragment@),
        decreases self,
    {
        match self {
            Target::Fixed(direct) => direct.callback(caps),
            Target::Multi(multi) => multi.callback(caps),
            Target::Weighted(map) => map.callback(caps),
        }
    }

    /// Prepares the target for the severities it will be called with. No kind
    /// of target keeps anything for that, so the target stays as it is.
    pub fn init(&mut self, _severity_range: Range<i32>)
        ensures
            *final(self) == *old(self),
    {
    }
}

} // verus!
