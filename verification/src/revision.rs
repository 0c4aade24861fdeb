//! The payload that registers a revision.

use crate::error::ClientError;
use crate::json::{encode_string, json_string};
use vstd::prelude::*;
use vstd::string::*;

verus! {

/// What a request to register a revision holds.
pub struct RevisionPayload {
    /// The identifier of the application, where the revision is registered
    /// for an application.
    pub app_id: Option<Seq<char>>,
    /// The storage identifier, where the revision is registered for one.
    pub app_storage_id: Option<Seq<char>>,
    /// The number of the revision.
    pub revision_number: Seq<char>,
}

impl RevisionPayload {
    /// Exactly one of the two identifiers is present.
    pub open spec fn names_one_target(self) -> bool {
        (self.app_id is Some) != (self.app_storage_id is Some)
    }
}

/// The JSON text for `text`: a JSON string, or `null` where there is none.
pub open spec fn json_string_or_null(text: Option<Seq<char>>) -> Seq<char> {
    match text {
        Some(text) => json_string(text),
        None => "null"@,
    }
}

/// The JSON object that is sent for `payload`.
pub open spec fn revision_json(payload: RevisionPayload) -> Seq<char> {
    "{\"appId\":"@ + json_string_or_null(payload.app_id) + ",\"appStorageId\":"@
        + json_string_or_null(payload.app_storage_id) + ",\"revisionNumber\":"@ + json_string(
        payload.revision_number,
    ) + "}"@
}

/// A payload for an application is written with the application's identifier
/// and with `null` for the storage identifier; a payload for a storage
/// identifier is written the other way round.
pub proof fn lemma_one_identifier_is_null(payload: RevisionPayload)
    requires
        payload.names_one_target(),
    ensures
        payload.app_id matches Some(id) ==> revision_json(payload) == "{\"appId\":"@ + json_string(id)
            + ",\"appStorageId\":null,\"revisionNumber\":"@ + json_string(payload.revision_number)
            + "}"@,
        payload.app_storage_id matches Some(id) ==> revision_json(payload)
            == "{\"appId\":null,\"appStorageId\":"@ + json_string(id) + ",\"revisionNumber\":"@
            + json_string(payload.revision_number) + "}"@,
{
    reveal_strlit("null");
    reveal_strlit("{\"appId\":");
    reveal_strlit(",\"appStorageId\":");
    reveal_strlit(",\"revisionNumber\":");
    reveal_strlit(",\"appStorageId\":null,\"revisionNumber\":");
    reveal_strlit("{\"appId\":null,\"appStorageId\":");
    match payload.app_id {
        Some(id) => {
            assert(",\"appStorageId\":"@ + "null"@ + ",\"revisionNumber\":"@
                =~= ",\"appStorageId\":null,\"revisionNumber\":"@);
            assert(revision_json(payload) =~= "{\"appId\":"@ + json_string(id) + (
            ",\"appStorageId\":"@ + "null"@ + ",\"revisionNumber\":"@) + json_string(
                payload.revision_number,
            ) + "}"@);
        },
        None => {
            assert("{\"appId\":"@ + "null"@ + ",\"appStorageId\":"@
                =~= "{\"appId\":null,\"appStorageId\":"@);
            assert(revision_json(payload) =~= ("{\"appId\":"@ + "null"@ + ",\"appStorageId\":"@)
                + json_string(payload.app_storage_id->0) + ",\"revisionNumber\":"@ + json_string(
                payload.revision_number,
            ) + "}"@);
        },
    }
}

/// A request to register a revision, either for an application or for a
/// storage identifier.
pub struct RegisterRevisionRequest {
    app_id: Option<String>,
    app_storage_id: Option<String>,
    revision_number: String,
}

impl View for RegisterRevisionRequest {
    type V = RevisionPayload;

    closed spec fn view(&self) -> RevisionPayload {
        RevisionPayload {
            app_id: self.app_id.deep_view(),
            app_storage_id: self.app_storage_id.deep_view(),
            revision_number: self.revision_number@,
        }
    }
}

impl RegisterRevisionRequest {
    #[verifier::type_invariant]
    spec fn names_one_target(self) -> bool {
        (self.app_id is Some) != (self.app_storage_id is Some)
    }

    /// A request that registers the revision `revision_number` for the
    /// application `app_id`.
    pub fn for_app(app_id: &str, revision_number: &str) -> (request: Self)
        ensures
            request@ == (RevisionPayload {
                app_id: Some(app_id@),
                app_storage_id: None,
                revision_number: revision_number@,
            }),
    {
        Self {
            app_id: Some(String::from_str(app_id)),
            app_storage_id: None,
            revision_number: String::from_str(revision_number),
        }
    }

    /// A request that registers the revision `revision_number` for the
    /// storage identifier `bindle_name`.
    pub fn for_bindle_name(bindle_name: &str, revision_number: &str) -> (request: Self)
        ensures
            request@ == (RevisionPayload {
                app_id: None,
                app_storage_id: Some(bindle_name@),
                revision_number: revision_number@,
            }),
    {
        Self {
            app_id: None,
            app_storage_id: Some(String::from_str(bindle_name)),
            revision_number: String::from_str(revision_number),
        }
    }

    /// The identifier of the application, if the request names one.
    pub fn app_id(&self) -> (id: Option<&str>)
        ensures
            self@.names_one_target(),
            match id {
                Some(id) => self@.app_id == Some(id@),
                None => self@.app_id is None,
            },
    {
        proof {
            use_type_invariant(self);
        }
        match &self.app_id {
            Some(id) => Some(id.as_str()),
            None => None,
        }
    }

    /// The storage identifier, if the request names one.
    pub fn app_storage_id(&self) -> (id: Option<&str>)
        ensures
            self@.names_one_target(),
            match id {
                Some(id) => self@.app_storage_id == Some(id@),
                None => self@.app_storage_id is None,
            },
    {
        proof {
            use_type_invariant(self);
        }
        match &self.app_storage_id {
            Some(id) => Some(id.as_str()),
            None => None,
        }
    }

    /// The number of the revision.
    pub fn revision_number(&self) -> (number: &str)
        ensures
            number@ == self@.revision_number,
    {
        self.revision_number.as_str()
    }

    /// The JSON object that is sent for this request. One of the two
    /// identifiers is written as a string and the other as `null`.
    pub fn to_json(&self) -> (json: Result<String, ClientError>)
        ensures
            self@.names_one_target(),
            json matches Ok(text) && text@ == revision_json(self@),
    {
        proof {
            use_type_invariant(self);
        }
        let app_id = json_text_or_null(&self.app_id)?;
        let app_storage_id = json_text_or_null(&self.app_storage_id)?;
        let revision_number = match encode_string(self.revision_number.as_str()) {
            Ok(text) => text,
            Err(error) => { return Err(ClientError::SerializationError(error)); },
        };
        let mut text = String::from_str("{\"appId\":");
        text.append(app_id.as_str());
        text.append(",\"appStorageId\":");
        text.append(app_storage_id.as_str());
        text.append(",\"revisionNumber\":");
        text.append(revision_number.as_str());
        text.append("}");
        Ok(text)
    }
}

/// Writes `text` as a JSON string, or `null` where there is none.
fn json_text_or_null(text: &Option<String>) -> (json: Result<String, ClientError>)
    ensures
        json matches Ok(json) && json@ == json_string_or_null(text.deep_view()),
{
    match text {
        Some(text) => match encode_string(text.as_str()) {
            Ok(json) => Ok(json),
            Err(error) => Err(ClientError::SerializationError(error)),
        },
        None => Ok(String::from_str("null")),
    }
}

} // verus!
