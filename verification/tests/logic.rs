use flight_warning::logic::{
    ConfirmationNode, HysteresisNode, MemoryNode, MonostableTriggerNode, PreceedingValueNode,
    TransientDetectionNode, UpdateContext,
};

fn context(delta_ms: u64) -> UpdateContext {
    UpdateContext::new(delta_ms)
}

#[test]
fn when_condition_fails_stays_lo() {
    let mut node = ConfirmationNode::new_leading(1000);
    assert_eq!(node.update(&context(1000), false), false);
}

#[test]
fn when_condition_passes_first_then_output_lo() {
    let mut node = ConfirmationNode::new_leading(1000);
    assert_eq!(node.update(&context(100), true), false);
}

#[test]
fn when_condition_passes_long_enough_then_output_hi() {
    let mut node = ConfirmationNode::new_leading(1000);
    assert_eq!(node.update(&context(1000), true), true);
}

#[test]
fn when_condition_resets_then_output_hi() {
    let mut node = ConfirmationNode::new_leading(1000);
    node.update(&context(1000), true);
    node.update(&context(100), false);
    assert_eq!(node.update(&context(100), true), false);
}

#[test]
fn when_created_outputs_lo() {
    let mut node = MonostableTriggerNode::new(true, 1000);
    assert_eq!(node.update(&context(1000), false), false);
}

#[test]
fn when_triggered_outputs_hi() {
    let mut node = MonostableTriggerNode::new(true, 1000);
    assert_eq!(node.update(&context(1000), true), true);
}

#[test]
fn when_triggered_and_elapses_outputs_lo() {
    let mut node = MonostableTriggerNode::new(true, 1000);
    node.update(&context(1000), true);
    assert_eq!(node.update(&context(1000), false), false);
}

#[test]
fn when_retriggered_and_elapses_outputs_lo() {
    let mut node = MonostableTriggerNode::new(true, 1000);
    node.update(&context(1000), true);
    node.update(&context(500), false);
    node.update(&context(400), true);
    assert_eq!(node.update(&context(100), false), false);
}

#[test]
fn when_retriggerable_retriggered_and_elapses_outputs_lo() {
    let mut node = MonostableTriggerNode::new_retriggerable(true, 1000);
    node.update(&context(1000), true);
    node.update(&context(500), false);
    node.update(&context(400), true);
    assert_eq!(node.update(&context(100), false), true);
}

#[test]
fn logic_when_created_outputs_lo() {
    let mut node = MemoryNode::new(true);
    assert_eq!(node.update(&context(1000), false, false), false);
}

#[test]
fn when_set_outputs_lo() {
    let mut node = MemoryNode::new(true);
    assert_eq!(node.update(&context(1000), true, false), true);
}

#[test]
fn when_set_keeps_lo() {
    let mut node = MemoryNode::new(true);
    node.update(&context(1000), true, false);

    assert_eq!(node.update(&context(1000), false, false), true);
}

#[test]
fn when_reset_outputs_lo() {
    let mut node = MemoryNode::new(true);
    assert_eq!(node.update(&context(1000), false, true), false);

    node.update(&context(1000), true, false);
    assert_eq!(node.update(&context(1000), false, true), false);
}

#[test]
fn when_set_precedence_and_both_hi_outputs_hi() {
    let mut node = MemoryNode::new(true);
    assert_eq!(node.update(&context(1000), true, true), true);
}

#[test]
fn when_no_set_precedence_and_both_hi_outputs_lo() {
    let mut node = MemoryNode::new(false);
    assert_eq!(node.update(&context(1000), true, true), false);
}

#[test]
fn when_stays_below_up_stays_lo() {
    let mut node = HysteresisNode::new(-1000, 1000);
    assert_eq!(node.update(&context(1000), 990), false);
}

#[test]
fn when_above_up_becomes_hi() {
    let mut node = HysteresisNode::new(-1000, 1000);
    assert_eq!(node.update(&context(1000), 1000), true);
}

#[test]
fn when_exceeds_up_stays_hi() {
    let mut node = HysteresisNode::new(-1000, 1000);
    node.update(&context(1000), 1000);
    assert_eq!(node.update(&context(1000), 990), true);
}

#[test]
fn when_falls_below_dn_returns_to_lo() {
    let mut node = HysteresisNode::new(-1000, 1000);
    node.update(&context(1000), 1000);
    assert_eq!(node.update(&context(1000), -1000), false);
}

#[test]
fn when_lo_then_lo() {
    let mut node = PreceedingValueNode::new();
    node.update(&context(1000), false);
    assert_eq!(node.get(), false);
}

#[test]
fn when_hi_then_hi() {
    let mut node = PreceedingValueNode::new();
    node.update(&context(1000), true);
    assert_eq!(node.get(), true);
}

#[test]
fn when_lo_then_lo_emits_lo() {
    let mut node = TransientDetectionNode::new(true);
    node.update(&context(1000), false);
    assert_eq!(node.update(&context(1000), false), false);
}

#[test]
fn when_lo_then_hi_emits_hi() {
    let mut node = TransientDetectionNode::new(true);
    node.update(&context(1000), false);
    assert_eq!(node.update(&context(1000), true), true);
}

#[test]
fn when_hi_then_hi_emits_lo() {
    let mut node = TransientDetectionNode::new(true);
    node.update(&context(1000), true);
    assert_eq!(node.update(&context(1000), true), false);
}

#[test]
fn when_hi_then_lo_emits_hi() {
    let mut node = TransientDetectionNode::new(true);
    node.update(&context(1000), true);
    assert_eq!(node.update(&context(1000), false), true);
}

#[test]
fn confirmation_output_stays_high_while_input_holds() {
    let mut node = ConfirmationNode::new_leading(1000);
    assert_eq!(node.update(&context(1000), true), true);
    for _ in 0..10 {
        assert_eq!(node.update(&context(250), true), true);
    }
    assert_eq!(node.update(&context(250), false), false);
}

#[test]
fn monostable_pulse_lasts_exactly_the_delay() {
    let mut node = MonostableTriggerNode::new(true, 1000);
    assert_eq!(node.update(&context(300), true), true);
    assert_eq!(node.update(&context(300), true), true);
    assert_eq!(node.update(&context(300), true), true);
    assert_eq!(node.update(&context(300), true), true);
    assert_eq!(node.update(&context(300), true), false);
}

#[test]
fn memory_keeps_outcome_through_idle_ticks() {
    let mut node = MemoryNode::new(true);
    node.update(&context(1000), true, false);
    for _ in 0..5 {
        assert_eq!(node.update(&context(1000), false, false), true);
    }
    node.update(&context(1000), false, true);
    for _ in 0..5 {
        assert_eq!(node.update(&context(1000), false, false), false);
    }
}

#[test]
fn hysteresis_holds_inside_the_band() {
    let mut node = HysteresisNode::new(-1000, 1000);
    assert_eq!(node.update(&context(1000), 999), false);
    assert_eq!(node.update(&context(1000), -999), false);
    node.update(&context(1000), 1000);
    assert_eq!(node.update(&context(1000), -999), true);
    assert_eq!(node.update(&context(1000), 999), true);
}

#[test]
fn nvm_memory_latches_like_a_plain_one() {
    let mut node = MemoryNode::new_nvm(true);
    assert_eq!(node.update(&context(1000), false, false), false);
    assert_eq!(node.update(&context(1000), true, true), true);
    assert_eq!(node.update(&context(1000), false, false), true);
    assert_eq!(node.update(&context(1000), false, true), false);
}
