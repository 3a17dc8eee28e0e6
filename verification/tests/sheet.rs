use iupitermag::sheet::{build_custom, find_param, resolve_current_sheet, SheetError, SheetParams};

const PI: f64 = std::f64::consts::PI;

fn con2020() -> SheetParams<f64> {
    SheetParams {
        r_0: 7.8,
        r_1: 51.4,
        d: 3.6,
        mu0_i_2: 139.6,
        theta_d: 9.3 * PI / 180.0,
        phi_d: 204.2 * PI / 180.0,
        i_rho: 16.7,
    }
}

fn custom_entries() -> Vec<(String, f64)> {
    vec![
        ("r_0".to_owned(), 8.0),
        ("r_1".to_owned(), 50.0),
        ("d".to_owned(), 3.0),
        ("mu0_i_2".to_owned(), 120.0),
        ("theta_d".to_owned(), 0.15),
        ("phi_d".to_owned(), 3.5),
        ("i_rho".to_owned(), 10.0),
    ]
}

#[test]
fn preset_name_returns_preset_values() {
    let preset = con2020();
    let r = resolve_current_sheet("CON2020", None, &preset).unwrap();
    assert_eq!(r, preset);
    // The preset ignores any parameter list handed along.
    let entries = custom_entries();
    let r = resolve_current_sheet("CON2020", Some(&entries), &preset).unwrap();
    assert_eq!(r, preset);
}

#[test]
fn custom_name_reads_all_seven_parameters() {
    let entries = custom_entries();
    let r = resolve_current_sheet("Custom", Some(&entries), &con2020()).unwrap();
    assert_eq!(r.r_0, 8.0);
    assert_eq!(r.r_1, 50.0);
    assert_eq!(r.d, 3.0);
    assert_eq!(r.mu0_i_2, 120.0);
    assert_eq!(r.theta_d, 0.15);
    assert_eq!(r.phi_d, 3.5);
    assert_eq!(r.i_rho, 10.0);
}

#[test]
fn custom_without_parameter_list_is_missing() {
    let r = resolve_current_sheet::<f64>("Custom", None, &con2020());
    assert_eq!(r.unwrap_err(), SheetError::MissingParameter);
}

#[test]
fn custom_with_absent_key_is_missing() {
    for dropped in 0..7 {
        let mut entries = custom_entries();
        entries.remove(dropped);
        let r = resolve_current_sheet("Custom", Some(&entries), &con2020());
        assert_eq!(r.unwrap_err(), SheetError::MissingParameter);
    }
}

#[test]
fn unknown_field_type_is_rejected() {
    let r = resolve_current_sheet::<f64>("VIP4", None, &con2020());
    assert_eq!(r.unwrap_err(), SheetError::UnknownFieldType);
    let r = resolve_current_sheet::<f64>("con2020", None, &con2020());
    assert_eq!(r.unwrap_err(), SheetError::UnknownFieldType);
}

#[test]
fn sheet_error_messages() {
    assert_eq!(
        SheetError::UnknownFieldType.message(),
        "unknown field type: supported (CON2020, Custom)"
    );
    assert_eq!(
        SheetError::MissingParameter.message(),
        "custom field type requires all seven parameters"
    );
}

#[test]
fn find_param_takes_first_match() {
    let mut entries = custom_entries();
    entries.push(("r_0".to_owned(), 99.0));
    assert_eq!(find_param(&entries, "r_0"), Some(8.0));
    assert_eq!(find_param(&entries, "absent"), None);
}

#[test]
fn to_pairs_round_trips_through_custom_construction() {
    let preset = con2020();
    let pairs = preset.to_pairs();
    assert_eq!(pairs.len(), 7);
    assert_eq!(pairs[0], ("r_0".to_owned(), 7.8));
    assert_eq!(pairs[3], ("mu0_i_2".to_owned(), 139.6));
    assert_eq!(pairs[6], ("i_rho".to_owned(), 16.7));
    let rebuilt = build_custom(&pairs).unwrap();
    assert_eq!(rebuilt, preset);
}
