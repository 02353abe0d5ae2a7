//! The electrical (gap-junction) synapse component.
//!
//! One instance owns six scalar fields. String-keyed configuration and input
//! calls store values into the matching fields (unknown keys are no-ops), one
//! tick call recomputes the output current from the Ohmic gap-junction law,
//! and read calls expose the output port and the internal variables.
//!
//! Every operation's contract is stated over [`ModelView`], the mathematical
//! state: six exact rationals.

use vstd::prelude::*;

use crate::rational::BOUND;
use crate::rational::Rat;
use crate::rational::Rational;
use crate::rational::lemma_mul_bound;
use crate::rational::lemma_mul_pos;
use crate::rational::q_add;
use crate::rational::q_bounded;
use crate::rational::q_int;
use crate::rational::q_mul;
use crate::rational::q_sub;
use crate::rational::q_wf;

verus! {

/// The mathematical state of one synapse instance.
pub struct ModelView {
    pub g_us: Rational,
    pub pre_v: Rational,
    pub post_v: Rational,
    pub scale: Rational,
    pub offset: Rational,
    pub current: Rational,
}

/// The Ohmic gap-junction law: the pre-synaptic voltage is affine-transformed
/// by `scale` and `offset`, and the current is the conductance times the
/// voltage difference across the junction:
/// `g_us * ((scale * pre_v + offset) - post_v)`.
pub open spec fn synapse_current(
    g_us: Rational,
    pre_v: Rational,
    post_v: Rational,
    scale: Rational,
    offset: Rational,
) -> Rational {
    q_mul(g_us, q_sub(q_add(q_mul(scale, pre_v), offset), post_v))
}

/// One tick's state transition: `current` is overwritten with the law's
/// value, every other field is left alone.
pub open spec fn spec_tick(m: ModelView) -> ModelView {
    ModelView { current: synapse_current(m.g_us, m.pre_v, m.post_v, m.scale, m.offset), ..m }
}

/// What a configuration call does to the state: a key naming one of the six
/// internal variables stores the value into that field; any other key leaves
/// the state unchanged.
pub open spec fn config_update(m: ModelView, key: Seq<char>, v: Rational) -> ModelView {
    if key == "post_v"@ {
        ModelView { post_v: v, ..m }
    } else if key == "pre_v"@ {
        ModelView { pre_v: v, ..m }
    } else if key == "scale"@ {
        ModelView { scale: v, ..m }
    } else if key == "offset"@ {
        ModelView { offset: v, ..m }
    } else if key == "g_us"@ {
        ModelView { g_us: v, ..m }
    } else if key == "current"@ {
        ModelView { current: v, ..m }
    } else {
        m
    }
}

/// What an input call does to the state: each declared input-port name feeds
/// one field; any other key leaves the state unchanged.
pub open spec fn input_update(m: ModelView, key: Seq<char>, v: Rational) -> ModelView {
    if key == "Post-synaptic Voltage (V)"@ {
        ModelView { post_v: v, ..m }
    } else if key == "Pre-synaptic Voltage (V)"@ {
        ModelView { pre_v: v, ..m }
    } else if key == "Scale (Pre to Post)"@ {
        ModelView { scale: v, ..m }
    } else if key == "Offset (Pre to Post)"@ {
        ModelView { offset: v, ..m }
    } else {
        m
    }
}

/// What an output read returns: the sole output port yields the last computed
/// current; any other key yields the absent sentinel, zero.
pub open spec fn output_lookup(m: ModelView, key: Seq<char>) -> Rational {
    if key == "Current (nA)"@ {
        m.current
    } else {
        q_int(0)
    }
}

/// What an internal-variable read returns: each of the six declared names
/// yields its field; any other key yields a distinguishable absence.
pub open spec fn internal_lookup(m: ModelView, key: Seq<char>) -> Option<Rational> {
    if key == "post_v"@ {
        Some(m.post_v)
    } else if key == "pre_v"@ {
        Some(m.pre_v)
    } else if key == "scale"@ {
        Some(m.scale)
    } else if key == "offset"@ {
        Some(m.offset)
    } else if key == "g_us"@ {
        Some(m.g_us)
    } else if key == "current"@ {
        Some(m.current)
    } else {
        None
    }
}

/// All six fields hold the zero-initialized value.
pub open spec fn zeroed(m: ModelView) -> bool {
    &&& m.g_us == q_int(0)
    &&& m.pre_v == q_int(0)
    &&& m.post_v == q_int(0)
    &&& m.scale == q_int(0)
    &&& m.offset == q_int(0)
    &&& m.current == q_int(0)
}

/// Whether two string slices hold the same characters.
fn str_equal(a: &str, b: &str) -> (r: bool)
    ensures
        r == (a@ == b@),
{
    let owned_a: String = a.to_owned();
    let owned_b: String = b.to_owned();
    owned_a == owned_b
}

/// The behavioral flags the component declares to its host.
pub struct ModelBehavior {
    pub supports_start_stop: bool,
    pub supports_restart: bool,
    pub supports_apply: bool,
    pub extendable_inputs: bool,
    pub loads_started: bool,
    pub external_window: bool,
    pub starts_expanded: bool,
    pub start_requires_connected_inputs: Vec<&'static str>,
    pub start_requires_connected_outputs: Vec<&'static str>,
}

/// The component class the host files this model under.
pub enum PluginClass {
    Standard,
}

/// One electrical synapse instance: six exact rational scalars.
pub struct ElectricalSynapseModel {
    g_us: Rat,
    pre_v: Rat,
    post_v: Rat,
    scale: Rat,
    offset: Rat,
    current: Rat,
}

impl View for ElectricalSynapseModel {
    type V = ModelView;

    closed spec fn view(&self) -> ModelView {
        ModelView {
            g_us: self.g_us@,
            pre_v: self.pre_v@,
            post_v: self.post_v@,
            scale: self.scale@,
            offset: self.offset@,
            current: self.current@,
        }
    }
}

impl ElectricalSynapseModel {
    /// Well-formed state: the five fields that enter the tick arithmetic are
    /// small enough that a tick cannot overflow, and the stored current is a
    /// well-formed rational.
    pub open spec fn wf(self) -> bool {
        &&& q_bounded(self@.g_us)
        &&& q_bounded(self@.pre_v)
        &&& q_bounded(self@.post_v)
        &&& q_bounded(self@.scale)
        &&& q_bounded(self@.offset)
        &&& q_wf(self@.current)
    }

    /// A fresh instance, zero-initialized.
    pub fn new() -> (r: Self)
        ensures
            r.wf(),
            zeroed(r@),
    {
        ElectricalSynapseModel {
            g_us: Rat::zero(),
            pre_v: Rat::zero(),
            post_v: Rat::zero(),
            scale: Rat::zero(),
            offset: Rat::zero(),
            current: Rat::zero(),
        }
    }

    /// The fixed, human-readable display name.
    pub fn name() -> (r: &'static str)
        ensures
            r@ == "RTHybrid Electrical Synapse"@,
    {
        "RTHybrid Electrical Synapse"
    }

    /// The machine-readable kind identifier.
    pub fn kind() -> (r: &'static str)
        ensures
            r@ == "rthybrid_electrical_synapse"@,
    {
        "rthybrid_electrical_synapse"
    }

    /// The component class.
    pub fn plugin_type() -> (r: PluginClass)
        ensures
            r == PluginClass::Standard,
    {
        PluginClass::Standard
    }

    /// The four declared input-port names, in declaration order.
    pub fn inputs() -> (r: Vec<&'static str>)
        ensures
            r@.len() == 4,
            r@[0]@ == "Post-synaptic Voltage (V)"@,
            r@[1]@ == "Pre-synaptic Voltage (V)"@,
            r@[2]@ == "Scale (Pre to Post)"@,
            r@[3]@ == "Offset (Pre to Post)"@,
    {
        let mut v: Vec<&'static str> = Vec::new();
        v.push("Post-synaptic Voltage (V)");
        v.push("Pre-synaptic Voltage (V)");
        v.push("Scale (Pre to Post)");
        v.push("Offset (Pre to Post)");
        v
    }

    /// The single declared output-port name.
    pub fn outputs() -> (r: Vec<&'static str>)
        ensures
            r@.len() == 1,
            r@[0]@ == "Current (nA)"@,
    {
        let mut v: Vec<&'static str> = Vec::new();
        v.push("Current (nA)");
        v
    }

    /// The six internal-variable names available for introspection.
    pub fn internal_variables() -> (r: Vec<&'static str>)
        ensures
            r@.len() == 6,
            r@[0]@ == "post_v"@,
            r@[1]@ == "pre_v"@,
            r@[2]@ == "scale"@,
            r@[3]@ == "offset"@,
            r@[4]@ == "g_us"@,
            r@[5]@ == "current"@,
    {
        let mut v: Vec<&'static str> = Vec::new();
        v.push("post_v");
        v.push("pre_v");
        v.push("scale");
        v.push("offset");
        v.push("g_us");
        v.push("current");
        v
    }

    /// The default configuration: `g_us = 0`.
    pub fn default_vars() -> (r: Vec<(&'static str, Rat)>)
        ensures
            r@.len() == 1,
            r@[0].0@ == "g_us"@,
            r@[0].1@ == q_int(0),
    {
        let mut v: Vec<(&'static str, Rat)> = Vec::new();
        v.push(("g_us", Rat::zero()));
        v
    }

    /// The behavioral flags: start/stop and restart are supported, nothing
    /// else is, and no port must be connected before the component may start.
    pub fn behavior() -> (r: ModelBehavior)
        ensures
            r.supports_start_stop,
            r.supports_restart,
            !r.supports_apply,
            !r.extendable_inputs,
            !r.loads_started,
            !r.external_window,
            r.starts_expanded,
            r.start_requires_connected_inputs@.len() == 0,
            r.start_requires_connected_outputs@.len() == 0,
    {
        ModelBehavior {
            supports_start_stop: true,
            supports_restart: true,
            supports_apply: false,
            extendable_inputs: false,
            loads_started: false,
            external_window: false,
            starts_expanded: true,
            start_requires_connected_inputs: Vec::new(),
            start_requires_connected_outputs: Vec::new(),
        }
    }

    /// Store a configuration value under one of the six internal-variable
    /// names. An unrecognized key, or an absent (non-numeric) value, is a
    /// silent no-op.
    pub fn set_config_value(&mut self, key: &str, value: Option<Rat>)
        requires
            old(self).wf(),
            match value {
                Some(v) => v.bounded(),
                None => true,
            },
        ensures
            final(self).wf(),
            final(self)@ == match value {
                Some(v) => config_update(old(self)@, key@, v@),
                None => old(self)@,
            },
    {
        match value {
            Some(v) => {
                if str_equal(key, "post_v") {
                    self.post_v = v;
                } else if str_equal(key, "pre_v") {
                    self.pre_v = v;
                } else if str_equal(key, "scale") {
                    self.scale = v;
                } else if str_equal(key, "offset") {
                    self.offset = v;
                } else if str_equal(key, "g_us") {
                    self.g_us = v;
                } else if str_equal(key, "current") {
                    self.current = v;
                }
            },
            None => {},
        }
    }

    /// Store an input value received on one of the four declared input
    /// ports. An unrecognized key is a silent no-op.
    pub fn set_input_value(&mut self, key: &str, value: Rat)
        requires
            old(self).wf(),
            value.bounded(),
        ensures
            final(self).wf(),
            final(self)@ == input_update(old(self)@, key@, value@),
    {
        if str_equal(key, "Post-synaptic Voltage (V)") {
            self.post_v = value;
        } else if str_equal(key, "Pre-synaptic Voltage (V)") {
            self.pre_v = value;
        } else if str_equal(key, "Scale (Pre to Post)") {
            self.scale = value;
        } else if str_equal(key, "Offset (Pre to Post)") {
            self.offset = value;
        }
    }

    /// Advance one tick: recompute `current` from the present field values by
    /// the gap-junction law. The tick index and period are accepted for
    /// interface uniformity; the law is memoryless and time-step-independent,
    /// so neither enters the result.
    pub fn process_tick(&mut self, _tick: u64, _period_seconds: Rat)
        requires
            old(self).wf(),
        ensures
            final(self).wf(),
            final(self)@ == spec_tick(old(self)@),
    {
        self.current = tick_current(self.g_us, self.pre_v, self.post_v, self.scale, self.offset);
    }

    /// Read the output port: the sole output key yields the last computed
    /// current; any other key yields the absent sentinel, zero.
    pub fn get_output_value(&self, key: &str) -> (r: Rat)
        requires
            self.wf(),
        ensures
            r@ == output_lookup(self@, key@),
            q_wf(r@),
    {
        if str_equal(key, "Current (nA)") {
            self.current
        } else {
            Rat::zero()
        }
    }

    /// Read one internal variable by name; an unknown name reports a
    /// distinguishable absence rather than a numeric sentinel.
    pub fn get_internal_value(&self, key: &str) -> (r: Option<Rat>)
        ensures
            internal_lookup(self@, key@) == match r {
                Some(v) => Some(v@),
                None => None::<Rational>,
            },
    {
        if str_equal(key, "post_v") {
            Some(self.post_v)
        } else if str_equal(key, "pre_v") {
            Some(self.pre_v)
        } else if str_equal(key, "scale") {
            Some(self.scale)
        } else if str_equal(key, "offset") {
            Some(self.offset)
        } else if str_equal(key, "g_us") {
            Some(self.g_us)
        } else if str_equal(key, "current") {
            Some(self.current)
        } else {
            None
        }
    }

    /// Restart: return every field to its zero-initialized value.
    pub fn restart(&mut self)
        ensures
            final(self).wf(),
            zeroed(final(self)@),
    {
        self.g_us = Rat::zero();
        self.pre_v = Rat::zero();
        self.post_v = Rat::zero();
        self.scale = Rat::zero();
        self.offset = Rat::zero();
        self.current = Rat::zero();
    }
}

impl Default for ElectricalSynapseModel {
    /// Same as [`ElectricalSynapseModel::new`]: a zero-initialized instance.
    fn default() -> (r: Self)
        ensures
            r.wf(),
            zeroed(r@),
    {
        ElectricalSynapseModel::new()
    }
}

/// Exact evaluation of the gap-junction law. The bounds on the five operands
/// keep every intermediate product inside `i128`, so the computed fraction is
/// exactly [`synapse_current`] of the operands' values.
pub fn tick_current(g_us: Rat, pre_v: Rat, post_v: Rat, scale: Rat, offset: Rat) -> (r: Rat)
    requires
        g_us.bounded(),
        pre_v.bounded(),
        post_v.bounded(),
        scale.bounded(),
        offset.bounded(),
    ensures
        r@ == synapse_current(g_us@, pre_v@, post_v@, scale@, offset@),
        q_wf(r@),
{
    let g_n: i128 = g_us.num();
    let g_d: i128 = g_us.den();
    let p_n: i128 = pre_v.num();
    let p_d: i128 = pre_v.den();
    let q_n: i128 = post_v.num();
    let q_d: i128 = post_v.den();
    let s_n: i128 = scale.num();
    let s_d: i128 = scale.den();
    let o_n: i128 = offset.num();
    let o_d: i128 = offset.den();

    proof {
        lemma_mul_bound(s_n as int, p_n as int, BOUND as int, BOUND as int);
        lemma_mul_bound(s_d as int, p_d as int, BOUND as int, BOUND as int);
    }
    // scale * pre_v
    let a_n: i128 = s_n * p_n;
    let a_d: i128 = s_d * p_d;
    proof {
        lemma_mul_pos(s_d as int, p_d as int);
        lemma_mul_bound(a_n as int, o_d as int, (BOUND * BOUND) as int, BOUND as int);
        lemma_mul_bound(o_n as int, a_d as int, BOUND as int, (BOUND * BOUND) as int);
        lemma_mul_bound(a_d as int, o_d as int, (BOUND * BOUND) as int, BOUND as int);
    }
    // scale * pre_v + offset
    let b_n: i128 = a_n * o_d + o_n * a_d;
    let b_d: i128 = a_d * o_d;
    proof {
        lemma_mul_pos(a_d as int, o_d as int);
        lemma_mul_bound(
            b_n as int,
            q_d as int,
            (2 * BOUND * BOUND * BOUND) as int,
            BOUND as int,
        );
        lemma_mul_bound(
            q_n as int,
            b_d as int,
            BOUND as int,
            (BOUND * BOUND * BOUND) as int,
        );
        lemma_mul_bound(
            b_d as int,
            q_d as int,
            (BOUND * BOUND * BOUND) as int,
            BOUND as int,
        );
    }
    // (scale * pre_v + offset) - post_v
    let c_n: i128 = b_n * q_d - q_n * b_d;
    let c_d: i128 = b_d * q_d;
    proof {
        lemma_mul_pos(b_d as int, q_d as int);
        lemma_mul_bound(
            g_n as int,
            c_n as int,
            BOUND as int,
            (3 * BOUND * BOUND * BOUND * BOUND) as int,
        );
        lemma_mul_bound(
            g_d as int,
            c_d as int,
            BOUND as int,
            (BOUND * BOUND * BOUND * BOUND) as int,
        );
        lemma_mul_pos(g_d as int, c_d as int);
    }
    // g_us * ((scale * pre_v + offset) - post_v)
    let r_n: i128 = g_n * c_n;
    let r_d: i128 = g_d * c_d;
    Rat::new(r_n, r_d)
}

} // verus!
