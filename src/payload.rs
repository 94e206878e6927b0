use vstd::prelude::*;
use crate::json::{
    empty_object, insert_field, json_object, json_string, object_entries, object_value, string_value,
};

verus! {

/// A named workflow state.
#[derive(Debug, Clone, PartialEq, Eq)]
pub struct WorkflowStatusUpdate {
    pub name: String,
}

/// The release-notes custom field, sent as `release_notes1`.
#[derive(Debug, Clone, PartialEq, Eq)]
pub struct CustomNotes {
    pub notes: String,
}

/// The pull-request custom field, sent as `pull_request`.
#[derive(Debug, Clone, PartialEq, Eq)]
pub struct CustomFieldGithub {
    pub github_url: String,
}

/// The payload that creates a feature.
#[derive(Debug, Clone, PartialEq, Eq)]
pub struct FeatureCreate {
    pub name: String,
    pub release_id: String,
    pub custom_fields: Option<CustomNotes>,
}

/// A partial update that may also carry a description.
#[derive(Debug, Clone, PartialEq, Eq)]
pub struct FeatureUpdateCreate {
    pub description: Option<String>,
    pub assigned_to_user: Option<String>,
    pub custom_fields: Option<CustomFieldGithub>,
    pub workflow_status: Option<WorkflowStatusUpdate>,
}

/// A partial update of a feature or requirement.
#[derive(Debug, Clone, PartialEq, Eq)]
pub struct FeatureUpdate {
    pub assigned_to_user: Option<String>,
    pub custom_fields: Option<CustomFieldGithub>,
    pub workflow_status: Option<WorkflowStatusUpdate>,
}

/// JSON object entries, by key.
pub type Entries = Map<Seq<char>, serde_json::Value>;

/// `entries` with `key` holding `value` when `present` holds.
pub open spec fn with_entry_if(entries: Entries, present: bool, key: Seq<char>, value: serde_json::Value) -> Entries {
    if present {
        entries.insert(key, value)
    } else {
        entries
    }
}

impl WorkflowStatusUpdate {
    /// The entries sent for a workflow status: its name.
    pub open spec fn wire_entries(&self) -> Entries {
        Map::empty().insert("name"@, json_string(self.name@))
    }

    /// The JSON object `{"name": ...}`.
    pub fn to_json_object(&self) -> (r: serde_json::Map<String, serde_json::Value>)
        ensures
            object_entries(r) == self.wire_entries(),
    {
        let mut m = empty_object();
        insert_field(&mut m, "name", string_value(self.name.clone()));
        m
    }
}

impl CustomNotes {
    /// The entries sent for release notes, under `release_notes1`.
    pub open spec fn wire_entries(&self) -> Entries {
        Map::empty().insert("release_notes1"@, json_string(self.notes@))
    }

    /// The JSON object `{"release_notes1": ...}`.
    pub fn to_json_object(&self) -> (r: serde_json::Map<String, serde_json::Value>)
        ensures
            object_entries(r) == self.wire_entries(),
    {
        let mut m = empty_object();
        insert_field(&mut m, "release_notes1", string_value(self.notes.clone()));
        m
    }
}

impl CustomFieldGithub {
    /// The entries sent for a pull-request link, under `pull_request`.
    pub open spec fn wire_entries(&self) -> Entries {
        Map::empty().insert("pull_request"@, json_string(self.github_url@))
    }

    /// The JSON object `{"pull_request": ...}`.
    pub fn to_json_object(&self) -> (r: serde_json::Map<String, serde_json::Value>)
        ensures
            object_entries(r) == self.wire_entries(),
    {
        let mut m = empty_object();
        insert_field(&mut m, "pull_request", string_value(self.github_url.clone()));
        m
    }
}

impl FeatureCreate {
    /// The entries this payload carries: the name and release always, the
    /// custom field only when set.
    pub open spec fn wire_entries(&self) -> Entries {
        let base = Map::empty().insert("name"@, json_string(self.name@)).insert(
            "release_id"@,
            json_string(self.release_id@),
        );
        with_entry_if(
            base,
            self.custom_fields is Some,
            "custom_fields"@,
            json_object(self.custom_fields->Some_0.wire_entries()),
        )
    }

    /// The keys this payload carries.
    pub open spec fn wire_keys(&self) -> Set<Seq<char>> {
        self.wire_entries().dom()
    }

    /// The JSON object sent to create a feature.
    pub fn to_json_object(&self) -> (r: serde_json::Map<String, serde_json::Value>)
        ensures
            object_entries(r) == self.wire_entries(),
    {
        let mut m = empty_object();
        insert_field(&mut m, "name", string_value(self.name.clone()));
        insert_field(&mut m, "release_id", string_value(self.release_id.clone()));
        match &self.custom_fields {
            Some(c) => insert_field(&mut m, "custom_fields", object_value(c.to_json_object())),
            None => {},
        }
        m
    }
}

impl FeatureUpdateCreate {
    /// The entries this payload carries: exactly the fields that are set.
    pub open spec fn wire_entries(&self) -> Entries {
        let e0 = with_entry_if(
            Map::empty(),
            self.description is Some,
            "description"@,
            json_string(self.description->Some_0@),
        );
        let e1 = with_entry_if(
            e0,
            self.assigned_to_user is Some,
            "assigned_to_user"@,
            json_string(self.assigned_to_user->Some_0@),
        );
        let e2 = with_entry_if(
            e1,
            self.custom_fields is Some,
            "custom_fields"@,
            json_object(self.custom_fields->Some_0.wire_entries()),
        );
        with_entry_if(
            e2,
            self.workflow_status is Some,
            "workflow_status"@,
            json_object(self.workflow_status->Some_0.wire_entries()),
        )
    }

    /// The keys this payload carries.
    pub open spec fn wire_keys(&self) -> Set<Seq<char>> {
        self.wire_entries().dom()
    }

    /// The JSON object sent for this update; unset fields are left out.
    pub fn to_json_object(&self) -> (r: serde_json::Map<String, serde_json::Value>)
        ensures
            object_entries(r) == self.wire_entries(),
    {
        let mut m = empty_object();
        match &self.description {
            Some(d) => insert_field(&mut m, "description", string_value(d.clone())),
            None => {},
        }
        match &self.assigned_to_user {
            Some(a) => insert_field(&mut m, "assigned_to_user", string_value(a.clone())),
            None => {},
        }
        match &self.custom_fields {
            Some(c) => insert_field(&mut m, "custom_fields", object_value(c.to_json_object())),
            None => {},
        }
        match &self.workflow_status {
            Some(w) => insert_field(&mut m, "workflow_status", object_value(w.to_json_object())),
            None => {},
        }
        m
    }
}

impl FeatureUpdate {
    /// The entries this payload carries: exactly the fields that are set.
    pub open spec fn wire_entries(&self) -> Entries {
        let e0 = with_entry_if(
            Map::empty(),
            self.assigned_to_user is Some,
            "assigned_to_user"@,
            json_string(self.assigned_to_user->Some_0@),
        );
        let e1 = with_entry_if(
            e0,
            self.custom_fields is Some,
            "custom_fields"@,
            json_object(self.custom_fields->Some_0.wire_entries()),
        );
        with_entry_if(
            e1,
            self.workflow_status is Some,
            "workflow_status"@,
            json_object(self.workflow_status->Some_0.wire_entries()),
        )
    }

    /// The keys this payload carries.
    pub open spec fn wire_keys(&self) -> Set<Seq<char>> {
        self.wire_entries().dom()
    }

    /// The JSON object sent for this update; unset fields are left out, so
    /// the server keeps its values for them.
    pub fn to_json_object(&self) -> (r: serde_json::Map<String, serde_json::Value>)
        ensures
            object_entries(r) == self.wire_entries(),
    {
        let mut m = empty_object();
        match &self.assigned_to_user {
            Some(a) => insert_field(&mut m, "assigned_to_user", string_value(a.clone())),
            None => {},
        }
        match &self.custom_fields {
            Some(c) => insert_field(&mut m, "custom_fields", object_value(c.to_json_object())),
            None => {},
        }
        match &self.workflow_status {
            Some(w) => insert_field(&mut m, "workflow_status", object_value(w.to_json_object())),
            None => {},
        }
        m
    }
}

/// An update with no field set is sent as an object with no keys at all.
pub proof fn lemma_empty_update_has_no_keys(u: FeatureUpdate)
    requires
        u.assigned_to_user is None,
        u.custom_fields is None,
        u.workflow_status is None,
    ensures
        u.wire_keys() == Set::<Seq<char>>::empty(),
{
    assert(u.wire_keys() =~= Set::<Seq<char>>::empty());
}

/// A field of an update is on the wire exactly when it is set.
pub proof fn lemma_update_keys_follow_fields(u: FeatureUpdate)
    ensures
        u.wire_keys().contains("assigned_to_user"@) <==> u.assigned_to_user is Some,
        u.wire_keys().contains("custom_fields"@) <==> u.custom_fields is Some,
        u.wire_keys().contains("workflow_status"@) <==> u.workflow_status is Some,
{
    reveal_strlit("assigned_to_user");
    reveal_strlit("custom_fields");
    reveal_strlit("workflow_status");
    assert("assigned_to_user"@.len() == 16);
    assert("custom_fields"@.len() == 13);
    assert("workflow_status"@.len() == 15);
}

} // verus!
