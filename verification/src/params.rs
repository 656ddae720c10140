//! Named optimizer parameters and their validation.
//!
//! A parameter set is a mapping from well-known keys to tagged values.  Each
//! optimizer validates the keys it requires when it is constructed and fails
//! fast with an error naming the offending key; a missing, mistyped or
//! out-of-range required parameter is a fatal configuration error.

use vstd::prelude::*;
use crate::particle::Behavior;

verus! {

/// The selectable fitness-to-mass normalization strategies.
#[derive(Clone, Copy, PartialEq, Eq, Structural, Debug)]
pub enum Normalizer {
    MinMax,
    ZScore,
    Robust,
    Rank,
    Sigmoid2,
    Sigmoid4,
}

impl Normalizer {
    /// Every strategy, for sweeps over all of them.
    pub fn all() -> (r: Vec<Normalizer>)
        ensures
            r@ == seq![
                Normalizer::MinMax,
                Normalizer::ZScore,
                Normalizer::Robust,
                Normalizer::Rank,
                Normalizer::Sigmoid2,
                Normalizer::Sigmoid4,
            ],
    {
        let mut r: Vec<Normalizer> = Vec::new();
        r.push(Normalizer::MinMax);
        r.push(Normalizer::ZScore);
        r.push(Normalizer::Robust);
        r.push(Normalizer::Rank);
        r.push(Normalizer::Sigmoid2);
        r.push(Normalizer::Sigmoid4);
        proof {
            assert(r@ =~= seq![
                Normalizer::MinMax,
                Normalizer::ZScore,
                Normalizer::Robust,
                Normalizer::Rank,
                Normalizer::Sigmoid2,
                Normalizer::Sigmoid4,
            ]);
        }
        r
    }
}

/// The well-known parameter names.
#[derive(Clone, Copy, PartialEq, Eq, Structural, Debug)]
pub enum ParamKey {
    ParticleCount,
    G0,
    Alpha,
    NormalizerKind,
    Tiled,
    BehaviorKey,
    W,
    PhiP,
    PhiG,
}

impl ParamKey {
    /// The textual name of the key, for configuration files and diagnostics.
    pub fn text(&self) -> (r: &'static str)
        ensures
            r@ == match *self {
                ParamKey::ParticleCount => "particle_count"@,
                ParamKey::G0 => "g0"@,
                ParamKey::Alpha => "alpha"@,
                ParamKey::NormalizerKind => "normalizer"@,
                ParamKey::Tiled => "tiled"@,
                ParamKey::BehaviorKey => "behavior"@,
                ParamKey::W => "w"@,
                ParamKey::PhiP => "phi_p"@,
                ParamKey::PhiG => "phi_g"@,
            },
    {
        match self {
            ParamKey::ParticleCount => "particle_count",
            ParamKey::G0 => "g0",
            ParamKey::Alpha => "alpha",
            ParamKey::NormalizerKind => "normalizer",
            ParamKey::Tiled => "tiled",
            ParamKey::BehaviorKey => "behavior",
            ParamKey::W => "w",
            ParamKey::PhiP => "phi_p",
            ParamKey::PhiG => "phi_g",
        }
    }
}

/// A tagged parameter value.  Floating-point values are carried as the bit
/// pattern of the double.
#[derive(Clone, Copy, PartialEq, Eq, Structural, Debug)]
pub enum ParamValue {
    Float(u64),
    Int(i64),
    Normalizer(Normalizer),
    Bool(bool),
    Behavior(Behavior),
}

/// The map denoted by an association list of parameter entries.
pub open spec fn param_map(entries: Seq<(ParamKey, ParamValue)>) -> Map<ParamKey, ParamValue>
    decreases entries.len(),
{
    if entries.len() == 0 {
        Map::empty()
    } else {
        param_map(entries.drop_last()).insert(entries.last().0, entries.last().1)
    }
}

proof fn lemma_param_map_membership(entries: Seq<(ParamKey, ParamValue)>, k: ParamKey)
    ensures
        param_map(entries).contains_key(k) <==> exists|i: int|
            0 <= i < entries.len() && entries[i].0 == k,
    decreases entries.len(),
{
    if entries.len() > 0 {
        lemma_param_map_membership(entries.drop_last(), k);
        if entries.last().0 != k {
            if exists|i: int| 0 <= i < entries.len() && entries[i].0 == k {
                let i = choose|i: int| 0 <= i < entries.len() && entries[i].0 == k;
                assert(entries.drop_last()[i] == entries[i]);
            }
        }
    }
}

proof fn lemma_param_map_index(entries: Seq<(ParamKey, ParamValue)>, i: int)
    requires
        0 <= i < entries.len(),
        forall|p: int, q: int|
            0 <= p < q < entries.len() ==> (#[trigger] entries[p]).0 != (#[trigger] entries[q]).0,
    ensures
        param_map(entries).contains_key(entries[i].0),
        param_map(entries)[entries[i].0] == entries[i].1,
    decreases entries.len(),
{
    if i < entries.len() - 1 {
        assert(entries.drop_last()[i] == entries[i]);
        lemma_param_map_index(entries.drop_last(), i);
    }
}

/// A set of named parameters; each key occurs at most once.
pub struct Params {
    items: Vec<(ParamKey, ParamValue)>,
}

impl Params {
    pub closed spec fn wf(&self) -> bool {
        forall|p: int, q: int|
            0 <= p < q < self.items@.len() ==> (#[trigger] self.items@[p]).0 != (
            #[trigger] self.items@[q]).0
    }

    /// The parameter set as a mathematical map.
    pub closed spec fn map(&self) -> Map<ParamKey, ParamValue> {
        param_map(self.items@)
    }

    pub fn new() -> (r: Params)
        ensures
            r.wf(),
            r.map() == Map::<ParamKey, ParamValue>::empty(),
    {
        Params { items: Vec::new() }
    }

    fn find(&self, key: ParamKey) -> (r: Option<usize>)
        requires
            self.wf(),
        ensures
            match r {
                Some(i) => i < self.items@.len() && self.items@[i as int].0 == key
                    && self.map().contains_key(key) && self.map()[key] == self.items@[i as int].1,
                None => !self.map().contains_key(key),
            },
    {
        proof {
            lemma_param_map_membership(self.items@, key);
        }
        let n = self.items.len();
        let mut i: usize = 0;
        while i < n
            invariant
                n == self.items@.len(),
                i <= n,
                self.wf(),
                forall|j: int| 0 <= j < i ==> (#[trigger] self.items@[j]).0 != key,
            decreases n - i,
        {
            if self.items[i].0 == key {
                proof {
                    lemma_param_map_index(self.items@, i as int);
                }
                return Some(i);
            }
            i = i + 1;
        }
        None
    }

    /// Look a parameter up.
    pub fn get(&self, key: ParamKey) -> (r: Option<ParamValue>)
        requires
            self.wf(),
        ensures
            match r {
                Some(v) => self.map().contains_key(key) && self.map()[key] == v,
                None => !self.map().contains_key(key),
            },
    {
        match self.find(key) {
            Some(i) => Some(self.items[i].1),
            None => None,
        }
    }

    /// Bind a parameter, replacing any previous value under the same key.
    pub fn set(&mut self, key: ParamKey, value: ParamValue)
        requires
            old(self).wf(),
        ensures
            final(self).wf(),
            final(self).map() == old(self).map().insert(key, value),
    {
        match self.find(key) {
            Some(i) => {
                self.items[i] = (key, value);
                proof {
                    lemma_set_entry(old(self).items@, self.items@, i as int, key, value);
                }
            },
            None => {
                self.items.push((key, value));
                proof {
                    assert(self.items@.drop_last() == old(self).items@);
                    lemma_param_map_membership(old(self).items@, key);
                    assert forall|p: int, q: int|
                        0 <= p < q < self.items@.len() implies (#[trigger] self.items@[p]).0 != (
                    #[trigger] self.items@[q]).0 by {
                        if q < self.items@.len() - 1 {
                            assert(old(self).items@[p] == self.items@[p]);
                            assert(old(self).items@[q] == self.items@[q]);
                        } else {
                            assert(self.items@[p] == old(self).items@[p]);
                        }
                    }
                }
            },
        }
    }
}

/// Overwriting the entry that holds a key denotes inserting into the map.
proof fn lemma_set_entry(
    before: Seq<(ParamKey, ParamValue)>,
    after: Seq<(ParamKey, ParamValue)>,
    i: int,
    key: ParamKey,
    value: ParamValue,
)
    requires
        0 <= i < before.len(),
        after == before.update(i, (key, value)),
        before[i].0 == key,
        forall|p: int, q: int|
            0 <= p < q < before.len() ==> (#[trigger] before[p]).0 != (#[trigger] before[q]).0,
    ensures
        forall|p: int, q: int|
            0 <= p < q < after.len() ==> (#[trigger] after[p]).0 != (#[trigger] after[q]).0,
        param_map(after) == param_map(before).insert(key, value),
    decreases before.len(),
{
    assert(after.len() == before.len());
    assert forall|p: int, q: int|
        0 <= p < q < after.len() implies (#[trigger] after[p]).0 != (#[trigger] after[q]).0 by {
        assert(before[p].0 != before[q].0);
    }
    if i == before.len() - 1 {
        assert(after.drop_last() =~= before.drop_last());
        assert(param_map(after) == param_map(before.drop_last()).insert(key, value));
        assert(param_map(before) == param_map(before.drop_last()).insert(key, before[i].1));
        assert(param_map(before).insert(key, value) =~= param_map(before.drop_last()).insert(
            key,
            value,
        ));
    } else {
        assert(after.drop_last() =~= before.drop_last().update(i, (key, value)));
        lemma_set_entry(before.drop_last(), after.drop_last(), i, key, value);
        assert(after.last() == before.last());
        assert(before.last().0 != key);
        assert(param_map(after) == param_map(before.drop_last()).insert(key, value).insert(
            before.last().0,
            before.last().1,
        ));
        assert(param_map(before).insert(key, value) =~= param_map(before.drop_last()).insert(
            key,
            value,
        ).insert(before.last().0, before.last().1));
    }
}

/// Why a parameter set was rejected: the required key was absent, carried a
/// value of the wrong type, or carried a value outside its allowed range.
#[derive(Clone, Copy, PartialEq, Eq, Structural, Debug)]
pub enum ConfigError {
    MissingKey(ParamKey),
    WrongType(ParamKey),
    InvalidValue(ParamKey),
}

impl ConfigError {
    /// The key the diagnostic is about.
    pub fn key(&self) -> (k: ParamKey)
        ensures
            k == match *self {
                ConfigError::MissingKey(k0) => k0,
                ConfigError::WrongType(k0) => k0,
                ConfigError::InvalidValue(k0) => k0,
            },
    {
        match self {
            ConfigError::MissingKey(k) => *k,
            ConfigError::WrongType(k) => *k,
            ConfigError::InvalidValue(k) => *k,
        }
    }
}

/// The validated configuration of a gravitational-search optimizer.
#[derive(Clone, Copy, PartialEq, Eq, Structural, Debug)]
pub struct GsaConfig {
    pub particle_count: usize,
    pub g0: u64,
    pub alpha: u64,
    pub normalizer: Normalizer,
    pub tiled: bool,
}

/// The diagnostic a gravitational-search parameter set earns: the first
/// missing, mistyped or out-of-range required key in checking order, or
/// nothing when the set is admissible.
pub open spec fn gsa_params_error(m: Map<ParamKey, ParamValue>) -> Option<ConfigError> {
    if !m.contains_key(ParamKey::ParticleCount) {
        Some(ConfigError::MissingKey(ParamKey::ParticleCount))
    } else if !(m[ParamKey::ParticleCount] is Int) {
        Some(ConfigError::WrongType(ParamKey::ParticleCount))
    } else if !(m[ParamKey::ParticleCount] matches ParamValue::Int(c) && 1 <= c <= 0xffff_ffff) {
        Some(ConfigError::InvalidValue(ParamKey::ParticleCount))
    } else if !m.contains_key(ParamKey::G0) {
        Some(ConfigError::MissingKey(ParamKey::G0))
    } else if !(m[ParamKey::G0] is Float) {
        Some(ConfigError::WrongType(ParamKey::G0))
    } else if !m.contains_key(ParamKey::Alpha) {
        Some(ConfigError::MissingKey(ParamKey::Alpha))
    } else if !(m[ParamKey::Alpha] is Float) {
        Some(ConfigError::WrongType(ParamKey::Alpha))
    } else if !m.contains_key(ParamKey::NormalizerKind) {
        Some(ConfigError::MissingKey(ParamKey::NormalizerKind))
    } else if !(m[ParamKey::NormalizerKind] is Normalizer) {
        Some(ConfigError::WrongType(ParamKey::NormalizerKind))
    } else if !m.contains_key(ParamKey::Tiled) {
        Some(ConfigError::MissingKey(ParamKey::Tiled))
    } else if !(m[ParamKey::Tiled] is Bool) {
        Some(ConfigError::WrongType(ParamKey::Tiled))
    } else {
        None
    }
}

/// What a well-formed gravitational-search parameter set must hold: all five
/// required keys, correctly typed, with a population size between one and
/// `u32::MAX`.
pub open spec fn gsa_params_admissible(m: Map<ParamKey, ParamValue>) -> bool {
    &&& m.contains_key(ParamKey::ParticleCount)
    &&& (m[ParamKey::ParticleCount] matches ParamValue::Int(c) && 1 <= c <= 0xffff_ffff)
    &&& m.contains_key(ParamKey::G0)
    &&& m[ParamKey::G0] is Float
    &&& m.contains_key(ParamKey::Alpha)
    &&& m[ParamKey::Alpha] is Float
    &&& m.contains_key(ParamKey::NormalizerKind)
    &&& m[ParamKey::NormalizerKind] is Normalizer
    &&& m.contains_key(ParamKey::Tiled)
    &&& m[ParamKey::Tiled] is Bool
}

/// The validated configuration of a particle-swarm optimizer.
#[derive(Clone, Copy, PartialEq, Eq, Structural, Debug)]
pub struct PsoConfig {
    pub particle_count: usize,
    pub w: u64,
    pub phi_p: u64,
    pub phi_g: u64,
}

/// The diagnostic a particle-swarm parameter set earns: the first missing,
/// mistyped or out-of-range required key in checking order, or nothing when
/// the set is admissible.
pub open spec fn pso_params_error(m: Map<ParamKey, ParamValue>) -> Option<ConfigError> {
    if !m.contains_key(ParamKey::ParticleCount) {
        Some(ConfigError::MissingKey(ParamKey::ParticleCount))
    } else if !(m[ParamKey::ParticleCount] is Int) {
        Some(ConfigError::WrongType(ParamKey::ParticleCount))
    } else if !(m[ParamKey::ParticleCount] matches ParamValue::Int(c) && 1 <= c <= 0xffff_ffff) {
        Some(ConfigError::InvalidValue(ParamKey::ParticleCount))
    } else if !m.contains_key(ParamKey::W) {
        Some(ConfigError::MissingKey(ParamKey::W))
    } else if !(m[ParamKey::W] is Float) {
        Some(ConfigError::WrongType(ParamKey::W))
    } else if !m.contains_key(ParamKey::PhiP) {
        Some(ConfigError::MissingKey(ParamKey::PhiP))
    } else if !(m[ParamKey::PhiP] is Float) {
        Some(ConfigError::WrongType(ParamKey::PhiP))
    } else if !m.contains_key(ParamKey::PhiG) {
        Some(ConfigError::MissingKey(ParamKey::PhiG))
    } else if !(m[ParamKey::PhiG] is Float) {
        Some(ConfigError::WrongType(ParamKey::PhiG))
    } else {
        None
    }
}

/// What a well-formed particle-swarm parameter set must hold: the population
/// size and the three weights, correctly typed.
pub open spec fn pso_params_admissible(m: Map<ParamKey, ParamValue>) -> bool {
    &&& m.contains_key(ParamKey::ParticleCount)
    &&& (m[ParamKey::ParticleCount] matches ParamValue::Int(c) && 1 <= c <= 0xffff_ffff)
    &&& m.contains_key(ParamKey::W)
    &&& m[ParamKey::W] is Float
    &&& m.contains_key(ParamKey::PhiP)
    &&& m[ParamKey::PhiP] is Float
    &&& m.contains_key(ParamKey::PhiG)
    &&& m[ParamKey::PhiG] is Float
}

impl PsoConfig {
    /// Validate a parameter set for the particle-swarm optimizer.  Succeeds
    /// exactly on admissible sets; otherwise the error names the first
    /// offending key, in the order the keys are checked.
    pub fn from_params(params: &Params) -> (r: Result<PsoConfig, ConfigError>)
        requires
            params.wf(),
        ensures
            r.is_ok() <==> pso_params_admissible(params.map()),
            r matches Err(e) ==> Some(e) == pso_params_error(params.map()),
            r matches Ok(c) ==> {
                &&& params.map()[ParamKey::ParticleCount] == ParamValue::Int(
                    c.particle_count as i64,
                )
                &&& 1 <= c.particle_count <= u32::MAX
                &&& params.map()[ParamKey::W] == ParamValue::Float(c.w)
                &&& params.map()[ParamKey::PhiP] == ParamValue::Float(c.phi_p)
                &&& params.map()[ParamKey::PhiG] == ParamValue::Float(c.phi_g)
            },
    {
        let particle_count: usize = match params.get(ParamKey::ParticleCount) {
            None => {
                return Err(ConfigError::MissingKey(ParamKey::ParticleCount));
            },
            Some(ParamValue::Int(c)) => {
                if c < 1 || c > u32::MAX as i64 {
                    return Err(ConfigError::InvalidValue(ParamKey::ParticleCount));
                }
                c as usize
            },
            Some(_) => {
                return Err(ConfigError::WrongType(ParamKey::ParticleCount));
            },
        };
        let w: u64 = match params.get(ParamKey::W) {
            None => {
                return Err(ConfigError::MissingKey(ParamKey::W));
            },
            Some(ParamValue::Float(v)) => v,
            Some(_) => {
                return Err(ConfigError::WrongType(ParamKey::W));
            },
        };
        let phi_p: u64 = match params.get(ParamKey::PhiP) {
            None => {
                return Err(ConfigError::MissingKey(ParamKey::PhiP));
            },
            Some(ParamValue::Float(v)) => v,
            Some(_) => {
                return Err(ConfigError::WrongType(ParamKey::PhiP));
            },
        };
        let phi_g: u64 = match params.get(ParamKey::PhiG) {
            None => {
                return Err(ConfigError::MissingKey(ParamKey::PhiG));
            },
            Some(ParamValue::Float(v)) => v,
            Some(_) => {
                return Err(ConfigError::WrongType(ParamKey::PhiG));
            },
        };
        Ok(PsoConfig { particle_count, w, phi_p, phi_g })
    }
}

impl GsaConfig {
    /// Validate a parameter set for the gravitational-search optimizer.
    /// Succeeds exactly on admissible sets; otherwise the error names the
    /// first offending key, in the order the keys are checked.
    pub fn from_params(params: &Params) -> (r: Result<GsaConfig, ConfigError>)
        requires
            params.wf(),
        ensures
            r.is_ok() <==> gsa_params_admissible(params.map()),
            r matches Err(e) ==> Some(e) == gsa_params_error(params.map()),
            r matches Ok(c) ==> {
                &&& params.map()[ParamKey::ParticleCount] == ParamValue::Int(
                    c.particle_count as i64,
                )
                &&& 1 <= c.particle_count <= u32::MAX
                &&& params.map()[ParamKey::G0] == ParamValue::Float(c.g0)
                &&& params.map()[ParamKey::Alpha] == ParamValue::Float(c.alpha)
                &&& params.map()[ParamKey::NormalizerKind] == ParamValue::Normalizer(c.normalizer)
                &&& params.map()[ParamKey::Tiled] == ParamValue::Bool(c.tiled)
            },
    {
        let particle_count: usize = match params.get(ParamKey::ParticleCount) {
            None => {
                return Err(ConfigError::MissingKey(ParamKey::ParticleCount));
            },
            Some(ParamValue::Int(c)) => {
                if c < 1 || c > u32::MAX as i64 {
                    return Err(ConfigError::InvalidValue(ParamKey::ParticleCount));
                }
                c as usize
            },
            Some(_) => {
                return Err(ConfigError::WrongType(ParamKey::ParticleCount));
            },
        };
        let g0: u64 = match params.get(ParamKey::G0) {
            None => {
                return Err(ConfigError::MissingKey(ParamKey::G0));
            },
            Some(ParamValue::Float(v)) => v,
            Some(_) => {
                return Err(ConfigError::WrongType(ParamKey::G0));
            },
        };
        let alpha: u64 = match params.get(ParamKey::Alpha) {
            None => {
                return Err(ConfigError::MissingKey(ParamKey::Alpha));
            },
            Some(ParamValue::Float(v)) => v,
            Some(_) => {
                return Err(ConfigError::WrongType(ParamKey::Alpha));
            },
        };
        let normalizer: Normalizer = match params.get(ParamKey::NormalizerKind) {
            None => {
                return Err(ConfigError::MissingKey(ParamKey::NormalizerKind));
            },
            Some(ParamValue::Normalizer(v)) => v,
            Some(_) => {
                return Err(ConfigError::WrongType(ParamKey::NormalizerKind));
            },
        };
        let tiled: bool = match params.get(ParamKey::Tiled) {
            None => {
                return Err(ConfigError::MissingKey(ParamKey::Tiled));
            },
            Some(ParamValue::Bool(v)) => v,
            Some(_) => {
                return Err(ConfigError::WrongType(ParamKey::Tiled));
            },
        };
        Ok(GsaConfig { particle_count, g0, alpha, normalizer, tiled })
    }
}

} // verus!
