//! The configuration record, its mathematical model, and the rules for
//! emptiness, completeness and merging.

use vstd::prelude::*;

verus! {

/// The settings of the synchronisation tool. Every field may be absent.
#[derive(Debug, PartialEq, Eq)]
pub struct Configuration {
    /// Application identifier issued by the identity provider.
    pub client_id: Option<String>,
    /// Application secret issued by the identity provider.
    pub client_secret: Option<String>,
    /// Pattern that selects the local files to synchronise.
    pub input_files: Option<String>,
    /// Identifier of the shared drive to synchronise with; absent for the
    /// default drive.
    pub drive_id: Option<String>,
}

/// The mathematical model of a [`Configuration`]: each setting is either
/// absent or a sequence of characters.
pub ghost struct ConfigurationView {
    pub client_id: Option<Seq<char>>,
    pub client_secret: Option<Seq<char>>,
    pub input_files: Option<Seq<char>>,
    pub drive_id: Option<Seq<char>>,
}

/// The model of one optional text setting.
pub open spec fn text_of(field: Option<String>) -> Option<Seq<char>> {
    match field {
        Some(s) => Some(s@),
        None => None,
    }
}

impl ConfigurationView {
    /// The record in which every setting is absent.
    pub open spec fn empty() -> ConfigurationView {
        ConfigurationView { client_id: None, client_secret: None, input_files: None, drive_id: None }
    }

    /// Whether every setting is absent.
    pub open spec fn is_empty(self) -> bool {
        &&& self.client_id is None
        &&& self.client_secret is None
        &&& self.input_files is None
        &&& self.drive_id is None
    }

    /// Whether the three required settings are present. The drive
    /// identifier is never required.
    pub open spec fn is_complete(self) -> bool {
        &&& self.client_id is Some
        &&& self.client_secret is Some
        &&& self.input_files is Some
    }

    /// The diagnostic for the first required setting that is absent, in the
    /// order client identifier, client secret, input files; the empty text
    /// when none is absent.
    pub open spec fn diagnostic(self) -> Seq<char> {
        if self.client_id is None {
            "'client_id' is empty"@
        } else if self.client_secret is None {
            "'client_secret' is empty"@
        } else if self.input_files is None {
            "'input_files' is empty"@
        } else {
            ""@
        }
    }

    /// The field-wise merge of two records: each setting is taken from
    /// `self` where it is present there, and from `other` otherwise.
    pub open spec fn merge(self, other: ConfigurationView) -> ConfigurationView {
        ConfigurationView {
            client_id: prefer(self.client_id, other.client_id),
            client_secret: prefer(self.client_secret, other.client_secret),
            input_files: prefer(self.input_files, other.input_files),
            drive_id: prefer(self.drive_id, other.drive_id),
        }
    }
}

/// The first of two optional values that is present.
pub open spec fn prefer(primary: Option<Seq<char>>, secondary: Option<Seq<char>>) -> Option<
    Seq<char>,
> {
    if primary is Some {
        primary
    } else {
        secondary
    }
}

impl View for Configuration {
    type V = ConfigurationView;

    open spec fn view(&self) -> ConfigurationView {
        ConfigurationView {
            client_id: text_of(self.client_id),
            client_secret: text_of(self.client_secret),
            input_files: text_of(self.input_files),
            drive_id: text_of(self.drive_id),
        }
    }
}

impl Clone for Configuration {
    /// A copy of the record, setting by setting.
    fn clone(&self) -> (c: Configuration)
        ensures
            c@ == self@,
    {
        Configuration {
            client_id: self.client_id.clone(),
            client_secret: self.client_secret.clone(),
            input_files: self.input_files.clone(),
            drive_id: self.drive_id.clone(),
        }
    }
}

impl Configuration {
    /// Whether every setting of the record is absent.
    pub fn is_empty(&self) -> (b: bool)
        ensures
            b == self@.is_empty(),
    {
        self.input_files.is_none() && self.client_id.is_none() && self.client_secret.is_none()
            && self.drive_id.is_none()
    }

    /// The record in which every setting is absent.
    pub fn empty() -> (c: Configuration)
        ensures
            c@ == ConfigurationView::empty(),
    {
        Configuration { client_id: None, client_secret: None, input_files: None, drive_id: None }
    }

    /// Whether the record holds every required setting, together with a
    /// diagnostic that names the first one that is absent.
    ///
    /// The required settings are checked in the order client identifier,
    /// client secret, input files. The drive identifier is optional.
    pub fn is_complete(&self) -> (r: (bool, &str))
        ensures
            r.0 == self@.is_complete(),
            r.1@ == self@.diagnostic(),
    {
        if self.client_id.is_none() {
            (false, "'client_id' is empty")
        } else if self.client_secret.is_none() {
            (false, "'client_secret' is empty")
        } else if self.input_files.is_none() {
            (false, "'input_files' is empty")
        } else {
            (true, "")
        }
    }

    /// Merges two records, where the settings of `a` take precedence over
    /// those of `b`: each setting is that of `a` where `a` has it, and that
    /// of `b` otherwise.
    pub fn merge(a: Configuration, b: Configuration) -> (c: Configuration)
        ensures
            c@ == a@.merge(b@),
    {
        let mut output = Configuration::empty();
        match a.client_id {
            Some(s) => output.client_id = Some(s),
            None => output.client_id = b.client_id,
        }
        match a.client_secret {
            Some(s) => output.client_secret = Some(s),
            None => output.client_secret = b.client_secret,
        }
        match a.input_files {
            Some(s) => output.input_files = Some(s),
            None => output.input_files = b.input_files,
        }
        match a.drive_id {
            Some(s) => output.drive_id = Some(s),
            None => output.drive_id = b.drive_id,
        }
        output
    }
}

} // verus!
