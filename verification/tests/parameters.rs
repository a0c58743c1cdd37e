use flight_warning::parameters::{
    Arinc429Parameter, DiscreteParameter, FwcSsm, SignStatusMatrix, SynchroParameter, Value,
};

#[test]
fn normal_parameter_reads_no_and_valid() {
    let parameter: Arinc429Parameter<bool> = Arinc429Parameter::new(true);
    assert_eq!(parameter.is_no(), true);
    assert_eq!(parameter.is_ft(), false);
    assert_eq!(parameter.is_ncd(), false);
    assert_eq!(parameter.is_fw(), false);
    assert_eq!(parameter.is_val(), true);
    assert_eq!(parameter.is_inv(), false);
    assert_eq!(parameter.value(), true);
    assert_eq!(parameter.as_bool(), true);
}

#[test]
fn functional_test_parameter_reads_ft_and_valid() {
    let parameter = Arinc429Parameter { value: 0i64, ssm1: false, ssm2: true };
    assert_eq!(parameter.is_no(), false);
    assert_eq!(parameter.is_ft(), true);
    assert_eq!(parameter.is_ncd(), false);
    assert_eq!(parameter.is_fw(), false);
    assert_eq!(parameter.is_val(), true);
    assert_eq!(parameter.is_inv(), false);
}

#[test]
fn ncd_parameter_reads_ncd_only() {
    let parameter: Arinc429Parameter<i64> = Arinc429Parameter::new_ncd(0);
    assert_eq!(parameter.is_no(), false);
    assert_eq!(parameter.is_ft(), false);
    assert_eq!(parameter.is_ncd(), true);
    assert_eq!(parameter.is_fw(), false);
    assert_eq!(parameter.is_inv(), false);
}

#[test]
fn failure_warning_parameter_reads_fw_and_invalid() {
    let parameter: Arinc429Parameter<bool> = Arinc429Parameter::new_inv(true);
    assert_eq!(parameter.is_no(), false);
    assert_eq!(parameter.is_ft(), false);
    assert_eq!(parameter.is_ncd(), false);
    assert_eq!(parameter.is_fw(), true);
    assert_eq!(parameter.is_val(), false);
    assert_eq!(parameter.is_inv(), true);
    assert_eq!(parameter.as_bool(), false);
}

#[test]
fn discrete_parameter_states() {
    let normal = DiscreteParameter::new(true);
    assert_eq!(normal.is_no(), true);
    assert_eq!(normal.is_fw(), false);
    assert_eq!(normal.is_val(), true);
    assert_eq!(normal.parity(), true);
    assert_eq!(normal.value(), true);
    assert_eq!(normal.as_bool(), true);

    let invalid = DiscreteParameter::new_inv(true);
    assert_eq!(invalid.is_no(), false);
    assert_eq!(invalid.is_fw(), true);
    assert_eq!(invalid.is_inv(), true);
    assert_eq!(invalid.value(), true);
    assert_eq!(invalid.as_bool(), false);
}

#[test]
fn synchro_parameter_reads_normal_and_carries_angle() {
    let synchro = SynchroParameter::new_synchro(9000);
    assert_eq!(synchro.is_no(), true);
    assert_eq!(synchro.is_val(), true);
    assert_eq!(synchro.value(), 9000);
    let rvdt = SynchroParameter::new_rvdt(-3500);
    assert_eq!(rvdt.is_no(), true);
    assert_eq!(rvdt.value(), -3500);
}

#[test]
fn ssm_bits_follow_the_table() {
    let ncd: Arinc429Parameter<bool> = Arinc429Parameter::new_ncd(false);
    assert_eq!(ncd.ssm1(), true);
    assert_eq!(ncd.ssm2(), false);
    let fw: Arinc429Parameter<bool> = Arinc429Parameter::new_inv(false);
    assert_eq!(fw.ssm1(), true);
    assert_eq!(fw.ssm2(), true);
    let no: Arinc429Parameter<bool> = Arinc429Parameter::new(false);
    assert_eq!(no.ssm1(), false);
    assert_eq!(no.ssm2(), false);
}
