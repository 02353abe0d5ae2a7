use rthybrid_electrical_synapse::rational::Rat;
use rthybrid_electrical_synapse::synapse::ElectricalSynapseModel;
use rthybrid_electrical_synapse::synapse::PluginClass;

fn internal(m: &ElectricalSynapseModel, key: &str) -> (i128, i128) {
    let v = m.get_internal_value(key).expect("declared internal variable");
    (v.num(), v.den())
}

#[test]
fn concrete_scenario_yields_1_6_nanoamps() {
    let mut m = ElectricalSynapseModel::new();
    m.set_config_value("g_us", Some(Rat::from_int(2)));
    m.set_input_value("Pre-synaptic Voltage (V)", Rat::from_int(1));
    m.set_input_value("Post-synaptic Voltage (V)", Rat::new(1, 5));
    m.set_input_value("Scale (Pre to Post)", Rat::from_int(1));
    m.set_input_value("Offset (Pre to Post)", Rat::from_int(0));
    m.process_tick(0, Rat::new(1, 1000));
    let out = m.get_output_value("Current (nA)");
    // 2 * ((1 * 1 + 0) - 1/5) = 8/5 = 1.6
    assert!(out.eq_value(&Rat::new(8, 5)));
    assert_eq!(out.num() as f64 / out.den() as f64, 1.6);
}

#[test]
fn repeated_ticks_are_deterministic() {
    let mut m = ElectricalSynapseModel::new();
    m.set_config_value("g_us", Some(Rat::new(3, 7)));
    m.set_input_value("Pre-synaptic Voltage (V)", Rat::new(5, 2));
    m.set_input_value("Post-synaptic Voltage (V)", Rat::new(-1, 3));
    m.set_input_value("Scale (Pre to Post)", Rat::new(2, 1));
    m.set_input_value("Offset (Pre to Post)", Rat::new(1, 4));
    m.process_tick(0, Rat::new(1, 1000));
    let first = m.get_output_value("Current (nA)");
    m.process_tick(1, Rat::new(1, 1000));
    m.process_tick(2, Rat::new(7, 1000));
    let later = m.get_output_value("Current (nA)");
    assert!(first.eq_value(&later) || (first.num() == later.num() && first.den() == later.den()));
    assert_eq!(first.num() * later.den(), later.num() * first.den());
}

#[test]
fn current_is_linear_in_each_voltage() {
    // With g_us = 3, scale = 2, offset = 0, post_v = 0:
    // current(pre_v) = 3 * 2 * pre_v, so pre_v 1 -> 6 and pre_v 4 -> 24.
    let mut m = ElectricalSynapseModel::new();
    m.set_config_value("g_us", Some(Rat::from_int(3)));
    m.set_input_value("Scale (Pre to Post)", Rat::from_int(2));
    m.set_input_value("Pre-synaptic Voltage (V)", Rat::from_int(1));
    m.process_tick(0, Rat::new(1, 1000));
    let at_one = m.get_output_value("Current (nA)");
    assert!(at_one.eq_value(&Rat::from_int(6)));
    m.set_input_value("Pre-synaptic Voltage (V)", Rat::from_int(4));
    m.process_tick(1, Rat::new(1, 1000));
    let at_four = m.get_output_value("Current (nA)");
    assert!(at_four.eq_value(&Rat::from_int(24)));
    // Linear in post_v with slope -g_us: post_v 1 -> 24 - 3, post_v 3 -> 24 - 9.
    m.set_input_value("Post-synaptic Voltage (V)", Rat::from_int(1));
    m.process_tick(2, Rat::new(1, 1000));
    assert!(m.get_output_value("Current (nA)").eq_value(&Rat::from_int(21)));
    m.set_input_value("Post-synaptic Voltage (V)", Rat::from_int(3));
    m.process_tick(3, Rat::new(1, 1000));
    assert!(m.get_output_value("Current (nA)").eq_value(&Rat::from_int(15)));
}

#[test]
fn matched_voltages_give_zero_current() {
    // scale * pre_v + offset == post_v  (2 * 1 + 3 == 5) forces zero current
    // whatever the conductance.
    let mut m = ElectricalSynapseModel::new();
    m.set_config_value("g_us", Some(Rat::from_int(7)));
    m.set_input_value("Scale (Pre to Post)", Rat::from_int(2));
    m.set_input_value("Pre-synaptic Voltage (V)", Rat::from_int(1));
    m.set_input_value("Offset (Pre to Post)", Rat::from_int(3));
    m.set_input_value("Post-synaptic Voltage (V)", Rat::from_int(5));
    m.process_tick(0, Rat::new(1, 1000));
    let out = m.get_output_value("Current (nA)");
    assert_eq!(out.num(), 0);
    assert!(out.eq_value(&Rat::from_int(0)));
}

#[test]
fn doubling_conductance_doubles_current() {
    let mut m = ElectricalSynapseModel::new();
    m.set_input_value("Scale (Pre to Post)", Rat::from_int(1));
    m.set_input_value("Pre-synaptic Voltage (V)", Rat::new(3, 2));
    m.set_input_value("Post-synaptic Voltage (V)", Rat::new(1, 2));
    m.set_config_value("g_us", Some(Rat::new(5, 4)));
    m.process_tick(0, Rat::new(1, 1000));
    let single = m.get_output_value("Current (nA)");
    m.set_config_value("g_us", Some(Rat::new(10, 4)));
    m.process_tick(1, Rat::new(1, 1000));
    let doubled = m.get_output_value("Current (nA)");
    // doubled == 2 * single, compared exactly by cross multiplication
    assert_eq!(doubled.num() * single.den(), 2 * single.num() * doubled.den());
}

#[test]
fn unknown_keys_are_silent_no_ops() {
    let mut m = ElectricalSynapseModel::new();
    m.set_config_value("g_us", Some(Rat::from_int(2)));
    m.set_input_value("Pre-synaptic Voltage (V)", Rat::from_int(1));
    let names = ["post_v", "pre_v", "scale", "offset", "g_us", "current"];
    let before: Vec<(i128, i128)> = names.iter().map(|k| internal(&m, k)).collect();
    m.set_config_value("bogus", Some(Rat::from_int(1)));
    m.set_input_value("bogus", Rat::from_int(1));
    let after: Vec<(i128, i128)> = names.iter().map(|k| internal(&m, k)).collect();
    assert_eq!(before, after);
}

#[test]
fn absent_config_value_is_a_no_op() {
    let mut m = ElectricalSynapseModel::new();
    m.set_config_value("g_us", Some(Rat::from_int(2)));
    m.set_config_value("g_us", None);
    assert_eq!(internal(&m, "g_us"), (2, 1));
}

#[test]
fn introspection_covers_exactly_the_six_names() {
    let m = ElectricalSynapseModel::new();
    for key in ["post_v", "pre_v", "scale", "offset", "g_us", "current"] {
        let v = m.get_internal_value(key);
        assert!(v.is_some(), "missing internal variable {key}");
        assert_eq!(v.unwrap().num(), 0);
    }
    assert!(m.get_internal_value("bogus").is_none());
    assert!(m.get_internal_value("Current (nA)").is_none());
    assert!(m.get_internal_value("").is_none());
}

#[test]
fn configure_reaches_every_field() {
    let mut m = ElectricalSynapseModel::new();
    m.set_config_value("post_v", Some(Rat::from_int(1)));
    m.set_config_value("pre_v", Some(Rat::from_int(2)));
    m.set_config_value("scale", Some(Rat::from_int(3)));
    m.set_config_value("offset", Some(Rat::from_int(4)));
    m.set_config_value("g_us", Some(Rat::from_int(5)));
    m.set_config_value("current", Some(Rat::from_int(6)));
    assert_eq!(internal(&m, "post_v"), (1, 1));
    assert_eq!(internal(&m, "pre_v"), (2, 1));
    assert_eq!(internal(&m, "scale"), (3, 1));
    assert_eq!(internal(&m, "offset"), (4, 1));
    assert_eq!(internal(&m, "g_us"), (5, 1));
    assert_eq!(internal(&m, "current"), (6, 1));
}

#[test]
fn inputs_reach_their_fields() {
    let mut m = ElectricalSynapseModel::new();
    m.set_input_value("Post-synaptic Voltage (V)", Rat::new(1, 2));
    m.set_input_value("Pre-synaptic Voltage (V)", Rat::new(3, 4));
    m.set_input_value("Scale (Pre to Post)", Rat::new(5, 6));
    m.set_input_value("Offset (Pre to Post)", Rat::new(7, 8));
    assert_eq!(internal(&m, "post_v"), (1, 2));
    assert_eq!(internal(&m, "pre_v"), (3, 4));
    assert_eq!(internal(&m, "scale"), (5, 6));
    assert_eq!(internal(&m, "offset"), (7, 8));
}

#[test]
fn unknown_output_key_yields_zero_sentinel() {
    let mut m = ElectricalSynapseModel::new();
    m.set_config_value("current", Some(Rat::from_int(9)));
    assert_eq!(m.get_output_value("bogus").num(), 0);
    assert_eq!(m.get_output_value("Current (nA)").num(), 9);
}

#[test]
fn restart_returns_to_the_zero_initialized_state() {
    let mut m = ElectricalSynapseModel::new();
    m.set_config_value("g_us", Some(Rat::from_int(2)));
    m.set_input_value("Pre-synaptic Voltage (V)", Rat::from_int(1));
    m.set_input_value("Scale (Pre to Post)", Rat::from_int(1));
    m.process_tick(0, Rat::new(1, 1000));
    let out = m.get_output_value("Current (nA)");
    assert_ne!(out.num(), 0, "tick must have produced a nonzero current");
    m.restart();
    for key in ["post_v", "pre_v", "scale", "offset", "g_us", "current"] {
        let v = m.get_internal_value(key).unwrap();
        assert_eq!(v.num(), 0);
        assert_eq!(v.den(), 1);
    }
}

#[test]
fn fresh_instance_is_zero_initialized() {
    let m = ElectricalSynapseModel::new();
    for key in ["post_v", "pre_v", "scale", "offset", "g_us", "current"] {
        assert_eq!(internal(&m, key), (0, 1));
    }
    let d = ElectricalSynapseModel::default();
    assert_eq!(internal(&d, "g_us"), (0, 1));
}

#[test]
fn declared_metadata_matches_the_interface() {
    assert_eq!(ElectricalSynapseModel::name(), "RTHybrid Electrical Synapse");
    assert_eq!(ElectricalSynapseModel::kind(), "rthybrid_electrical_synapse");
    assert!(matches!(ElectricalSynapseModel::plugin_type(), PluginClass::Standard));
    assert_eq!(
        ElectricalSynapseModel::inputs(),
        vec![
            "Post-synaptic Voltage (V)",
            "Pre-synaptic Voltage (V)",
            "Scale (Pre to Post)",
            "Offset (Pre to Post)",
        ],
    );
    assert_eq!(ElectricalSynapseModel::outputs(), vec!["Current (nA)"]);
    assert_eq!(
        ElectricalSynapseModel::internal_variables(),
        vec!["post_v", "pre_v", "scale", "offset", "g_us", "current"],
    );
    let defaults = ElectricalSynapseModel::default_vars();
    assert_eq!(defaults.len(), 1);
    assert_eq!(defaults[0].0, "g_us");
    assert_eq!(defaults[0].1.num(), 0);
}

#[test]
fn declared_behavior_matches_the_interface() {
    let b = ElectricalSynapseModel::behavior();
    assert!(b.supports_start_stop);
    assert!(b.supports_restart);
    assert!(!b.supports_apply);
    assert!(!b.extendable_inputs);
    assert!(!b.loads_started);
    assert!(!b.external_window);
    assert!(b.starts_expanded);
    assert!(b.start_requires_connected_inputs.is_empty());
    assert!(b.start_requires_connected_outputs.is_empty());
}

#[test]
fn rational_values_compare_by_value() {
    assert!(Rat::new(1, 2).eq_value(&Rat::new(2, 4)));
    assert!(!Rat::new(1, 2).eq_value(&Rat::new(2, 3)));
    assert!(Rat::new(-3, 6).eq_value(&Rat::new(-1, 2)));
    assert!(Rat::zero().eq_value(&Rat::new(0, 7)));
    assert_eq!(Rat::from_int(-4).num(), -4);
    assert_eq!(Rat::from_int(-4).den(), 1);
}
