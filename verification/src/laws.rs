//! What holds of every record, stated over the model of the record and
//! proved.

use vstd::prelude::*;
use crate::config::ConfigurationView;

verus! {

/// The empty record is empty.
pub proof fn empty_record_is_empty()
    ensures
        ConfigurationView::empty().is_empty(),
{
}

/// A record in which at least one setting is present is not empty.
pub proof fn record_with_a_setting_is_not_empty(record: ConfigurationView)
    requires
        record.client_id is Some || record.client_secret is Some || record.input_files is Some
            || record.drive_id is Some,
    ensures
        !record.is_empty(),
{
}

/// Only the empty record is empty.
pub proof fn empty_is_the_only_empty_record(record: ConfigurationView)
    ensures
        record.is_empty() <==> record == ConfigurationView::empty(),
{
}

/// The diagnostic is the empty text exactly where the record is complete.
pub proof fn diagnostic_is_blank_iff_complete(record: ConfigurationView)
    ensures
        record.diagnostic().len() == 0 <==> record.is_complete(),
{
    reveal_strlit("'client_id' is empty");
    reveal_strlit("'client_secret' is empty");
    reveal_strlit("'input_files' is empty");
    reveal_strlit("");
}

/// Whether the drive identifier is present changes neither the completeness
/// of a record nor its diagnostic.
pub proof fn drive_is_never_required(record: ConfigurationView, drive_id: Option<Seq<char>>)
    ensures
        (ConfigurationView { drive_id, ..record }).is_complete() == record.is_complete(),
        (ConfigurationView { drive_id, ..record }).diagnostic() == record.diagnostic(),
{
}

/// Merging a record over the empty record gives the record back.
pub proof fn merge_over_empty_is_identity(primary: ConfigurationView)
    ensures
        primary.merge(ConfigurationView::empty()) == primary,
{
}

/// Merging the empty record over a record gives the record back.
pub proof fn merge_of_empty_is_identity(secondary: ConfigurationView)
    ensures
        ConfigurationView::empty().merge(secondary) == secondary,
{
}

/// In a merge, every setting that the primary record has is the primary's,
/// whatever the secondary holds; every other setting is the secondary's.
pub proof fn merge_prefers_primary(primary: ConfigurationView, secondary: ConfigurationView)
    ensures
        primary.client_id is Some ==> primary.merge(secondary).client_id == primary.client_id,
        primary.client_secret is Some ==> primary.merge(secondary).client_secret
            == primary.client_secret,
        primary.input_files is Some ==> primary.merge(secondary).input_files
            == primary.input_files,
        primary.drive_id is Some ==> primary.merge(secondary).drive_id == primary.drive_id,
        primary.client_id is None ==> primary.merge(secondary).client_id == secondary.client_id,
        primary.client_secret is None ==> primary.merge(secondary).client_secret
            == secondary.client_secret,
        primary.input_files is None ==> primary.merge(secondary).input_files
            == secondary.input_files,
        primary.drive_id is None ==> primary.merge(secondary).drive_id == secondary.drive_id,
{
}

/// A merge has a setting exactly where one of the two records has it: a
/// record with one setting, merged over a record with the other three, has
/// all four.
pub proof fn merge_has_what_either_has(primary: ConfigurationView, secondary: ConfigurationView)
    ensures
        primary.merge(secondary).client_id is Some <==> primary.client_id is Some
            || secondary.client_id is Some,
        primary.merge(secondary).client_secret is Some <==> primary.client_secret is Some
            || secondary.client_secret is Some,
        primary.merge(secondary).input_files is Some <==> primary.input_files is Some
            || secondary.input_files is Some,
        primary.merge(secondary).drive_id is Some <==> primary.drive_id is Some
            || secondary.drive_id is Some,
{
}

/// A merge is empty exactly where both records are.
pub proof fn merge_is_empty_iff_both_are(primary: ConfigurationView, secondary: ConfigurationView)
    ensures
        primary.merge(secondary).is_empty() <==> primary.is_empty() && secondary.is_empty(),
{
}

/// A merge with a complete record, on either side, is complete.
pub proof fn merge_keeps_completeness(primary: ConfigurationView, secondary: ConfigurationView)
    requires
        primary.is_complete() || secondary.is_complete(),
    ensures
        primary.merge(secondary).is_complete(),
{
}

/// Merging three records in a row gives the same record however the merges
/// are grouped: the first record that has a setting decides it.
pub proof fn merge_is_associative(
    a: ConfigurationView,
    b: ConfigurationView,
    c: ConfigurationView,
)
    ensures
        a.merge(b).merge(c) == a.merge(b.merge(c)),
{
}

/// Two records that have no setting in common merge to the same record in
/// either order.
pub proof fn merge_commutes_on_disjoint_records(a: ConfigurationView, b: ConfigurationView)
    requires
        a.client_id is None || b.client_id is None,
        a.client_secret is None || b.client_secret is None,
        a.input_files is None || b.input_files is None,
        a.drive_id is None || b.drive_id is None,
    ensures
        a.merge(b) == b.merge(a),
{
}

/// A query that finds no row stands for the empty record.
pub proof fn no_row_is_the_empty_record()
    ensures
        ConfigurationView::from_row(None) == ConfigurationView::empty(),
{
}

/// The row that stands for a record, read back, is the record: what an
/// insertion binds and what a query decodes are inverse to each other.
pub proof fn columns_restore_the_record(record: ConfigurationView)
    ensures
        ConfigurationView::from_row(Some(record.columns())) == record,
{
}

} // verus!
