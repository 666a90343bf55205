use sync_config::Configuration;

fn text(s: &str) -> Option<String> {
    Some(String::from(s))
}

fn record(
    client_id: Option<&str>,
    client_secret: Option<&str>,
    input_files: Option<&str>,
    drive_id: Option<&str>,
) -> Configuration {
    Configuration {
        client_id: client_id.map(String::from),
        client_secret: client_secret.map(String::from),
        input_files: input_files.map(String::from),
        drive_id: drive_id.map(String::from),
    }
}

#[test]
fn empty_record_has_no_setting() {
    let c = Configuration::empty();
    assert_eq!(c.client_id, None);
    assert_eq!(c.client_secret, None);
    assert_eq!(c.input_files, None);
    assert_eq!(c.drive_id, None);
}

#[test]
fn empty_record_is_empty() {
    assert!(Configuration::empty().is_empty());
}

#[test]
fn record_with_only_client_id_is_not_empty() {
    assert!(!record(Some("a"), None, None, None).is_empty());
}

#[test]
fn record_with_only_client_secret_is_not_empty() {
    assert!(!record(None, Some("s"), None, None).is_empty());
}

#[test]
fn record_with_only_input_files_is_not_empty() {
    assert!(!record(None, None, Some("*.txt"), None).is_empty());
}

#[test]
fn record_with_only_drive_id_is_not_empty() {
    assert!(!record(None, None, None, Some("drive")).is_empty());
}

#[test]
fn full_record_is_not_empty() {
    assert!(!record(Some("a"), Some("s"), Some("*.txt"), Some("drive")).is_empty());
}

#[test]
fn empty_text_is_a_present_setting() {
    let c = record(Some(""), None, None, None);
    assert!(!c.is_empty());
    assert_ne!(c, Configuration::empty());
    let all = record(Some(""), Some(""), Some(""), None);
    assert_eq!(all.is_complete(), (true, ""));
}

#[test]
fn empty_record_lacks_client_id() {
    assert_eq!(Configuration::empty().is_complete(), (false, "'client_id' is empty"));
}

#[test]
fn record_with_client_id_lacks_client_secret() {
    let c = record(Some("a"), None, None, None);
    assert_eq!(c.is_complete(), (false, "'client_secret' is empty"));
}

#[test]
fn record_with_credentials_lacks_input_files() {
    let c = record(Some("a"), Some("s"), None, None);
    assert_eq!(c.is_complete(), (false, "'input_files' is empty"));
}

#[test]
fn record_without_drive_id_is_complete() {
    let c = record(Some("a"), Some("s"), Some("*.txt"), None);
    assert_eq!(c.is_complete(), (true, ""));
}

#[test]
fn record_with_every_setting_is_complete() {
    let c = record(Some("a"), Some("s"), Some("*.txt"), Some("drive"));
    assert_eq!(c.is_complete(), (true, ""));
}

#[test]
fn diagnostic_names_the_first_absent_setting() {
    assert_eq!(
        record(None, Some("s"), Some("*.txt"), Some("d")).is_complete(),
        (false, "'client_id' is empty")
    );
    assert_eq!(
        record(None, None, Some("*.txt"), None).is_complete(),
        (false, "'client_id' is empty")
    );
    assert_eq!(
        record(Some("a"), None, Some("*.txt"), Some("d")).is_complete(),
        (false, "'client_secret' is empty")
    );
    assert_eq!(
        record(Some("a"), Some("s"), None, Some("d")).is_complete(),
        (false, "'input_files' is empty")
    );
}

#[test]
fn drive_id_alone_does_not_complete_a_record() {
    let c = record(None, None, None, Some("drive"));
    assert_eq!(c.is_complete(), (false, "'client_id' is empty"));
}

#[test]
fn diagnostic_is_blank_exactly_for_complete_records() {
    let options = [None, Some("x")];
    for id in options {
        for secret in options {
            for files in options {
                for drive in options {
                    let c = record(id, secret, files, drive);
                    let (complete, reason) = c.is_complete();
                    assert_eq!(complete, id.is_some() && secret.is_some() && files.is_some());
                    assert_eq!(complete, reason.is_empty());
                }
            }
        }
    }
}

#[test]
fn merge_over_empty_gives_the_primary() {
    let a = record(Some("a"), None, Some("*.txt"), Some("drive"));
    assert_eq!(Configuration::merge(a.clone(), Configuration::empty()), a);
}

#[test]
fn merge_of_empty_gives_the_secondary() {
    let b = record(None, Some("s"), Some("*.txt"), None);
    assert_eq!(Configuration::merge(Configuration::empty(), b.clone()), b);
}

#[test]
fn merge_of_two_empty_records_is_empty() {
    let merged = Configuration::merge(Configuration::empty(), Configuration::empty());
    assert!(merged.is_empty());
    assert_eq!(merged, Configuration::empty());
}

#[test]
fn merge_takes_the_primary_where_both_are_set() {
    let a = record(Some("x"), None, None, None);
    let b = record(Some("y"), None, None, None);
    assert_eq!(Configuration::merge(a, b).client_id, text("x"));
}

#[test]
fn merge_takes_the_primary_in_every_setting() {
    let a = record(Some("a1"), Some("a2"), Some("a3"), Some("a4"));
    let b = record(Some("b1"), Some("b2"), Some("b3"), Some("b4"));
    assert_eq!(Configuration::merge(a.clone(), b.clone()), a);
    assert_eq!(Configuration::merge(b.clone(), a), b);
}

#[test]
fn merge_is_field_wise() {
    let a = record(Some("id"), None, None, None);
    let b = record(None, Some("secret"), Some("*.txt"), Some("drive"));
    let merged = Configuration::merge(a, b);
    assert_eq!(merged, record(Some("id"), Some("secret"), Some("*.txt"), Some("drive")));
}

#[test]
fn merge_mixes_both_records() {
    let a = record(Some("a1"), None, Some("a3"), None);
    let b = record(Some("b1"), Some("b2"), None, None);
    let merged = Configuration::merge(a, b);
    assert_eq!(merged, record(Some("a1"), Some("b2"), Some("a3"), None));
}

#[test]
fn merge_keeps_an_empty_text_of_the_primary() {
    let a = record(Some(""), None, None, None);
    let b = record(Some("y"), Some("s"), None, None);
    let merged = Configuration::merge(a, b);
    assert_eq!(merged, record(Some(""), Some("s"), None, None));
}

#[test]
fn merge_commutes_on_disjoint_records() {
    let a = record(Some("id"), None, Some("*.txt"), None);
    let b = record(None, Some("secret"), None, Some("drive"));
    assert_eq!(
        Configuration::merge(a.clone(), b.clone()),
        Configuration::merge(b, a)
    );
}

#[test]
fn merge_does_not_commute_on_overlapping_records() {
    let a = record(Some("x"), None, None, None);
    let b = record(Some("y"), None, None, None);
    assert_ne!(
        Configuration::merge(a.clone(), b.clone()),
        Configuration::merge(b, a)
    );
}

#[test]
fn merge_can_complete_a_record() {
    let a = record(Some("id"), None, None, None);
    let b = record(None, Some("secret"), Some("*.txt"), None);
    assert_eq!(a.is_complete(), (false, "'client_secret' is empty"));
    assert_eq!(b.is_complete(), (false, "'client_id' is empty"));
    assert_eq!(Configuration::merge(a, b).is_complete(), (true, ""));
}

#[test]
fn no_row_stands_for_the_empty_record() {
    assert_eq!(Configuration::from_row(None), Configuration::empty());
}

#[test]
fn row_of_nulls_stands_for_the_empty_record() {
    let c = Configuration::from_row(Some((None, None, None, None)));
    assert!(c.is_empty());
}

#[test]
fn columns_become_settings_in_order() {
    let c = Configuration::from_row(Some((text("1"), text("2"), text("3"), text("4"))));
    assert_eq!(c, record(Some("1"), Some("2"), Some("3"), Some("4")));
    let d = Configuration::from_row(Some((None, text("2"), None, text("4"))));
    assert_eq!(d, record(None, Some("2"), None, Some("4")));
}

#[test]
fn bindings_name_each_column() {
    let c = record(Some("1"), None, Some("3"), Some("4"));
    let params = c.bindings();
    assert_eq!(params[0], (":client_id", &text("1")));
    assert_eq!(params[1], (":client_secret", &None));
    assert_eq!(params[2], (":input_files", &text("3")));
    assert_eq!(params[3], (":drive_id", &text("4")));
}

#[test]
fn bound_columns_restore_the_record() {
    let c = record(Some("id"), Some("secret"), None, Some("drive"));
    let params = c.bindings();
    let row = (
        params[0].1.clone(),
        params[1].1.clone(),
        params[2].1.clone(),
        params[3].1.clone(),
    );
    assert_eq!(Configuration::from_row(Some(row)), c);
}

#[test]
fn clone_is_the_same_record() {
    let c = record(Some("id"), None, Some(""), Some("drive"));
    assert_eq!(c.clone(), c);
    assert_eq!(Configuration::empty().clone(), Configuration::empty());
}

#[test]
fn merge_is_empty_only_for_two_empty_records() {
    let a = record(None, None, None, Some("drive"));
    assert!(!Configuration::merge(a.clone(), Configuration::empty()).is_empty());
    assert!(!Configuration::merge(Configuration::empty(), a).is_empty());
    assert!(Configuration::merge(Configuration::empty(), Configuration::empty()).is_empty());
}

#[test]
fn merge_of_three_records_does_not_depend_on_grouping() {
    let a = record(Some("a1"), None, None, None);
    let b = record(Some("b1"), Some("b2"), None, None);
    let c = record(Some("c1"), Some("c2"), Some("c3"), None);
    let left = Configuration::merge(Configuration::merge(a.clone(), b.clone()), c.clone());
    let right = Configuration::merge(a, Configuration::merge(b, c));
    assert_eq!(left, right);
    assert_eq!(left, record(Some("a1"), Some("b2"), Some("c3"), None));
}
