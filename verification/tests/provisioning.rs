use cert_status::provision::{provision_plan, ProvisionAction};

#[test]
fn disabled_provisioning_plans_nothing() {
    assert!(provision_plan(false, false, false).is_empty());
    assert!(provision_plan(false, true, true).is_empty());
    assert!(provision_plan(false, false, true).is_empty());
    assert!(provision_plan(false, true, false).is_empty());
}

#[test]
fn existing_table_plans_nothing() {
    assert!(provision_plan(true, true, true).is_empty());
    assert!(provision_plan(true, true, false).is_empty());
}

#[test]
fn missing_table_with_types_plans_table_only() {
    let plan = provision_plan(true, false, true);
    assert_eq!(plan, vec![ProvisionAction::CreateTable]);
}

#[test]
fn missing_table_and_types_plans_types_then_table() {
    let plan = provision_plan(true, false, false);
    assert_eq!(plan, vec![ProvisionAction::CreateTypes, ProvisionAction::CreateTable]);
}

#[test]
fn provisioning_twice_never_errors_and_never_duplicates() {
    for &enabled in &[false, true] {
        for &table in &[false, true] {
            for &types in &[false, true] {
                let plan = provision_plan(enabled, table, types);
                let mut table_now = table;
                let mut types_now = types;
                for action in &plan {
                    match action {
                        ProvisionAction::CreateTypes => {
                            // Creating an existing object would error.
                            assert!(!types_now);
                            types_now = true;
                        }
                        ProvisionAction::CreateTable => {
                            assert!(!table_now);
                            table_now = true;
                        }
                    }
                }
                // Nothing is ever dropped.
                assert!(!table || table_now);
                assert!(!types || types_now);
                if enabled {
                    assert!(table_now);
                }
                // The second run has nothing left to do.
                let second = provision_plan(enabled, table_now, types_now);
                assert!(second.is_empty());
            }
        }
    }
}
