//! Algebraic laws of the synapse model.
//!
//! Each law is stated over the mathematical state [`ModelView`] and the exact
//! rational model, so it holds of every instance through the contracts of the
//! executable operations.

use vstd::prelude::*;

use crate::rational::Rational;
use crate::rational::lemma_mul_pos;
use crate::rational::lemma_q_eq_trans;
use crate::rational::lemma_q_mul_assoc;
use crate::rational::lemma_q_mul_congruence;
use crate::rational::lemma_q_mul_sub_distrib;
use crate::rational::lemma_q_sub_add_common;
use crate::rational::lemma_q_sub_common_minuend;
use crate::rational::lemma_q_sub_common_sub;
use crate::rational::q_add;
use crate::rational::q_eq;
use crate::rational::q_int;
use crate::rational::q_mul;
use crate::rational::q_sub;
use crate::rational::q_wf;
use crate::synapse::ModelView;
use crate::synapse::config_update;
use crate::synapse::input_update;
use crate::synapse::internal_lookup;
use crate::synapse::spec_tick;
use crate::synapse::synapse_current;

verus! {

/// Determinism: a tick is memoryless. Advancing twice without intervening
/// mutation is the same as advancing once — the second tick recomputes the
/// identical current from the unchanged inputs and changes nothing.
pub proof fn lemma_tick_deterministic(m: ModelView)
    ensures
        spec_tick(spec_tick(m)) == spec_tick(m),
{
}

/// Linearity in the pre-synaptic voltage: for fixed conductance, scale,
/// offset and post-synaptic voltage, the difference between the currents at
/// two pre-synaptic voltages is `g_us * scale` times the difference of the
/// voltages.
pub proof fn lemma_linear_in_pre_v(
    g: Rational,
    p1: Rational,
    p2: Rational,
    q: Rational,
    s: Rational,
    o: Rational,
)
    requires
        q_wf(g),
        q_wf(p1),
        q_wf(p2),
        q_wf(q),
        q_wf(s),
        q_wf(o),
    ensures
        q_eq(
            q_sub(synapse_current(g, p1, q, s, o), synapse_current(g, p2, q, s, o)),
            q_mul(q_mul(g, s), q_sub(p1, p2)),
        ),
{
    let m1 = q_mul(s, p1);
    let m2 = q_mul(s, p2);
    let a1 = q_add(m1, o);
    let a2 = q_add(m2, o);
    let d1 = q_sub(a1, q);
    let d2 = q_sub(a2, q);
    let x = q_sub(p1, p2);
    // Denominators of the intermediate values are positive.
    lemma_mul_pos(s.d, p1.d);
    lemma_mul_pos(s.d, p2.d);
    lemma_mul_pos(m1.d, o.d);
    lemma_mul_pos(m2.d, o.d);
    lemma_mul_pos(a1.d, q.d);
    lemma_mul_pos(a2.d, q.d);
    lemma_mul_pos(m1.d, m2.d);
    lemma_mul_pos(a1.d, a2.d);
    lemma_mul_pos(d1.d, d2.d);
    lemma_mul_pos(g.d, d1.d * d2.d);
    // (g*d1) - (g*d2)  ~  g * (d1 - d2)
    lemma_q_mul_sub_distrib(g, d1, d2);
    // d1 - d2  ~  a1 - a2  ~  m1 - m2  ~  s * (p1 - p2)
    lemma_q_sub_common_sub(a1, a2, q);
    lemma_q_sub_add_common(m1, m2, o);
    lemma_q_mul_sub_distrib(s, p1, p2);
    lemma_q_eq_trans(q_sub(d1, d2), q_sub(a1, a2), q_sub(m1, m2));
    lemma_q_eq_trans(q_sub(d1, d2), q_sub(m1, m2), q_mul(s, x));
    // g * (d1 - d2)  ~  g * (s * (p1 - p2))  ==  (g * s) * (p1 - p2)
    lemma_q_mul_congruence(g, q_sub(d1, d2), q_mul(s, x));
    lemma_q_mul_assoc(g, s, x);
    lemma_q_eq_trans(
        q_sub(q_mul(g, d1), q_mul(g, d2)),
        q_mul(g, q_sub(d1, d2)),
        q_mul(q_mul(g, s), x),
    );
}

/// Linearity in the post-synaptic voltage: for fixed conductance, scale,
/// offset and pre-synaptic voltage, the difference between the currents at
/// two post-synaptic voltages is `g_us` times the opposite difference of the
/// voltages.
pub proof fn lemma_linear_in_post_v(
    g: Rational,
    p: Rational,
    q1: Rational,
    q2: Rational,
    s: Rational,
    o: Rational,
)
    requires
        q_wf(g),
        q_wf(p),
        q_wf(q1),
        q_wf(q2),
        q_wf(s),
        q_wf(o),
    ensures
        q_eq(
            q_sub(synapse_current(g, p, q1, s, o), synapse_current(g, p, q2, s, o)),
            q_mul(g, q_sub(q2, q1)),
        ),
{
    let a = q_add(q_mul(s, p), o);
    let d1 = q_sub(a, q1);
    let d2 = q_sub(a, q2);
    // Denominators of the intermediate values are positive.
    lemma_mul_pos(s.d, p.d);
    lemma_mul_pos(q_mul(s, p).d, o.d);
    lemma_mul_pos(a.d, q1.d);
    lemma_mul_pos(a.d, q2.d);
    lemma_mul_pos(d1.d, d2.d);
    lemma_mul_pos(g.d, d1.d * d2.d);
    // (g*d1) - (g*d2)  ~  g * (d1 - d2)  ~  g * (q2 - q1)
    lemma_q_mul_sub_distrib(g, d1, d2);
    lemma_q_sub_common_minuend(a, q1, q2);
    lemma_q_mul_congruence(g, q_sub(d1, d2), q_sub(q2, q1));
    lemma_q_eq_trans(
        q_sub(q_mul(g, d1), q_mul(g, d2)),
        q_mul(g, q_sub(d1, d2)),
        q_mul(g, q_sub(q2, q1)),
    );
}

/// Unknown-key robustness: a configuration or input call whose key matches
/// none of the declared names leaves the state exactly as it was.
pub proof fn lemma_unknown_key_is_noop(m: ModelView, key: Seq<char>, v: Rational)
    requires
        key != "post_v"@,
        key != "pre_v"@,
        key != "scale"@,
        key != "offset"@,
        key != "g_us"@,
        key != "current"@,
        key != "Post-synaptic Voltage (V)"@,
        key != "Pre-synaptic Voltage (V)"@,
        key != "Scale (Pre to Post)"@,
        key != "Offset (Pre to Post)"@,
    ensures
        config_update(m, key, v) == m,
        input_update(m, key, v) == m,
{
}

/// Introspection completeness: an internal-variable read is present exactly
/// for the six declared names, and absent for every other key.
pub proof fn lemma_internal_lookup_complete(m: ModelView, key: Seq<char>)
    ensures
        internal_lookup(m, key) is Some <==> (key == "post_v"@ || key == "pre_v"@ || key
            == "scale"@ || key == "offset"@ || key == "g_us"@ || key == "current"@),
{
}

/// Zero-difference law: whenever the affine-transformed pre-synaptic voltage
/// equals the post-synaptic voltage, the current is zero, whatever the
/// conductance.
pub proof fn lemma_zero_difference(
    g: Rational,
    p: Rational,
    q: Rational,
    s: Rational,
    o: Rational,
)
    requires
        q_eq(q_add(q_mul(s, p), o), q),
    ensures
        q_eq(synapse_current(g, p, q, s, o), q_int(0)),
{
    let an: int = (s.n * p.n) * o.d + o.n * (s.d * p.d);
    let ad: int = (s.d * p.d) * o.d;
    let c = synapse_current(g, p, q, s, o);
    assert(an * q.d == q.n * ad);
    assert(c.n == g.n * (an * q.d - q.n * ad));
    assert(c.n == 0) by (nonlinear_arith)
        requires
            c.n == g.n * (an * q.d - q.n * ad),
            an * q.d == q.n * ad,
    ;
}

/// Conductance scaling: multiplying the conductance by any factor multiplies
/// the current by the same factor; in particular, doubling `g_us` exactly
/// doubles the current for fixed voltages.
pub proof fn lemma_conductance_scaling(
    k: Rational,
    g: Rational,
    p: Rational,
    q: Rational,
    s: Rational,
    o: Rational,
)
    ensures
        synapse_current(q_mul(k, g), p, q, s, o) == q_mul(k, synapse_current(g, p, q, s, o)),
{
    let l = synapse_current(q_mul(k, g), p, q, s, o);
    let r = q_mul(k, synapse_current(g, p, q, s, o));
    assert(l.n == r.n) by (nonlinear_arith)
        requires
            l.n == (k.n * g.n) * ((((s.n * p.n) * o.d + o.n * (s.d * p.d)) * q.d - q.n * ((s.d
                * p.d) * o.d))),
            r.n == k.n * (g.n * ((((s.n * p.n) * o.d + o.n * (s.d * p.d)) * q.d - q.n * ((s.d
                * p.d) * o.d)))),
    ;
    assert(l.d == r.d) by (nonlinear_arith)
        requires
            l.d == (k.d * g.d) * ((((s.d * p.d) * o.d)) * q.d),
            r.d == k.d * (g.d * ((((s.d * p.d) * o.d)) * q.d)),
    ;
}

} // verus!
