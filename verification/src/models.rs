//! The records that the case API sends back, and the envelope around them.
use crate::text::{int_dec, owned, push_dec, push_int, push_str};
use vstd::prelude::*;

verus! {

/// The envelope around every API answer.
#[derive(Clone, Debug, PartialEq)]
pub struct ApiEnvelope<T> {
    pub code: u16,
    pub message: String,
    pub data: Option<T>,
    pub timestamp: i64,
    pub error_code: Option<i32>,
}

/// The `Debug` text of an optional error code: `Some(n)` or `None`.
pub open spec fn error_code_text(error_code: Option<i32>) -> Seq<char> {
    match error_code {
        Some(v) => "Some("@ + int_dec(v as int) + ")"@,
        None => "None"@,
    }
}

/// The error text of a failed envelope.
pub open spec fn envelope_error_text(message: Seq<char>, code: u16, error_code: Option<i32>) -> Seq<char> {
    message + " (http_code="@ + int_dec(code as int) + ", error_code="@ + error_code_text(error_code)
        + ")"@
}

impl<T> ApiEnvelope<T> {
    /// The payload of a successful (2xx) answer; the missing payload or the
    /// server's message otherwise.
    pub fn into_data(self) -> (r: Result<T, String>)
        ensures
            200 <= self.code < 300 && self.data is Some ==> r == Ok::<T, String>(self.data->0),
            200 <= self.code < 300 && self.data is None ==> r is Err && r->Err_0@ == "missing data"@,
            !(200 <= self.code < 300) ==> r is Err && r->Err_0@ == envelope_error_text(
                self.message@,
                self.code,
                self.error_code,
            ),
    {
        if self.code >= 200 && self.code < 300 {
            match self.data {
                Some(d) => Ok(d),
                None => Err(owned("missing data")),
            }
        } else {
            let mut s = self.message;
            push_str(&mut s, " (http_code=");
            push_dec(&mut s, self.code as u64);
            push_str(&mut s, ", error_code=");
            match self.error_code {
                Some(v) => {
                    push_str(&mut s, "Some(");
                    push_int(&mut s, v as i64);
                    push_str(&mut s, ")");
                },
                None => push_str(&mut s, "None"),
            }
            push_str(&mut s, ")");
            assert(s@ =~= envelope_error_text(self.message@, self.code, self.error_code));
            Err(s)
        }
    }
}

/// The translation status a file has before the server reports one.
pub fn default_translation_status() -> (r: String)
    ensures
        r@ == "pending"@,
{
    owned("pending")
}

impl Default for EvidenceFileTranslationSummary {
    fn default() -> (r: Self)
        ensures
            r.translation_status@ == "pending"@,
            r.translation_error is None,
            r.source_language is None,
            r.target_language is None,
            r.chunk_count == 0,
            r.translated_chunk_count == 0,
            r.failed_chunk_count == 0,
            r.translation_provider is None,
            r.translation_model is None,
            !r.translation_incomplete,
    {
        EvidenceFileTranslationSummary {
            translation_status: default_translation_status(),
            translation_error: None,
            source_language: None,
            target_language: None,
            chunk_count: 0,
            translated_chunk_count: 0,
            failed_chunk_count: 0,
            translation_provider: None,
            translation_model: None,
            translation_incomplete: false,
        }
    }
}

/// The fields of a person-graph edge that the graph reads: each is the string
/// the edge holds under that key, or `None` where the key is missing or holds
/// no string.
#[derive(Clone, Debug, PartialEq)]
pub struct GraphEdgeFields {
    pub id: Option<String>,
    pub from_person_id: Option<String>,
    pub to_person_id: Option<String>,
    pub rel_type: Option<String>,
    pub rel_detail: Option<String>,
}

#[derive(Clone, Debug, PartialEq)]
pub struct UserInfo {
    pub id: String,
    pub username: String,
    pub email: String,
    pub real_name: Option<String>,
    pub roles: Vec<String>,
}

#[derive(Clone, Debug, PartialEq)]
pub struct LoginResponseData {
    pub user: UserInfo,
    pub access_token: String,
    pub refresh_token: String,
    pub expires_in: i64,
}

#[derive(Clone, Debug, PartialEq)]
pub struct ExportRecordItem {
    pub id: String,
    pub case_id: String,
    pub export_type: String,
    pub file_name: String,
    pub storage_path: String,
    pub file_size: Option<i64>,
    pub generated_by: String,
    pub generated_at: String,
    pub node_ids: Option<Vec<String>>,
    pub evidence_ids: Option<Vec<String>>,
}

#[derive(Clone, Debug, PartialEq)]
pub struct ExportHistoryData {
    pub records: Vec<ExportRecordItem>,
    pub total: i64,
    pub page: i64,
    pub page_size: i64,
}

#[derive(Clone, Debug, PartialEq)]
pub struct EvidenceFileSummary {
    pub id: String,
    pub original_name: String,
    pub file_type: String,
    pub file_size: i64,
    pub storage_path: String,
    pub parse_status: String,
    pub parse_error: Option<String>,
    pub translation: EvidenceFileTranslationSummary,
    pub created_at: String,
}

#[derive(Clone, Debug, PartialEq)]
pub struct EvidenceFileListData {
    pub files: Vec<EvidenceFileSummary>,
    pub total: i64,
    pub page: i64,
    pub page_size: i64,
}

#[derive(Clone, Debug, PartialEq)]
pub struct EvidenceFileDetail {
    pub id: String,
    pub case_id: String,
    pub original_name: String,
    pub file_type: String,
    pub file_size: i64,
    pub storage_path: String,
    pub parse_status: String,
    pub parse_error: Option<String>,
    pub parsed_text: Option<String>,
    pub page_count: Option<i64>,
    pub duration: Option<i64>,
    pub translation: EvidenceFileTranslationSummary,
    pub created_at: String,
}

#[derive(Clone, Debug, PartialEq)]
pub struct EvidenceFileTranslationSummary {
    pub translation_status: String,
    pub translation_error: Option<String>,
    pub source_language: Option<String>,
    pub target_language: Option<String>,
    pub chunk_count: i64,
    pub translated_chunk_count: i64,
    pub failed_chunk_count: i64,
    pub translation_provider: Option<String>,
    pub translation_model: Option<String>,
    pub translation_incomplete: bool,
}

#[derive(Clone, Debug, PartialEq)]
pub struct EvidenceFileTranslationDetail {
    pub id: String,
    pub translation: EvidenceFileTranslationSummary,
}

#[derive(Clone, Debug, PartialEq)]
pub struct EvidenceFileChunkListData {
    pub items: Vec<EvidenceFileChunkItem>,
    pub total: i64,
    pub page: i64,
    pub page_size: i64,
    pub view_mode: String,
}

#[derive(Clone, Debug, PartialEq)]
pub struct EvidenceFileChunkItem {
    pub id: String,
    pub chunk_index: i64,
    pub page_number: i64,
    pub segment_number: i64,
    pub chunk_kind: String,
    pub display_label: String,
    pub source_text: Option<String>,
    pub translated_text: Option<String>,
    pub translation_status: String,
    pub translation_error: Option<String>,
    /// The chunk's anchor, as JSON text.
    pub anchor_json: String,
}

#[derive(Clone, Debug, PartialEq)]
pub struct RetryTranslationResult {
    pub file_id: String,
    pub scope: String,
    pub retried_count: i64,
    pub skipped_count: i64,
    pub retried_chunk_ids: Vec<String>,
    pub skipped_chunk_ids: Vec<String>,
}

#[derive(Clone, Debug, PartialEq)]
pub struct OperationLogItem {
    pub id: String,
    pub user_id: String,
    pub user_name: String,
    pub case_id: Option<String>,
    pub action: String,
    pub module: String,
    pub target_type: String,
    pub target_id: Option<String>,
    pub target_title: Option<String>,
    pub changed_fields: Option<String>,
    pub ip_address: Option<String>,
    pub created_at: String,
}

#[derive(Clone, Debug, PartialEq)]
pub struct LogsListData {
    pub logs: Vec<OperationLogItem>,
    pub total: i64,
    pub page: i64,
    pub page_size: i64,
}

#[derive(Clone, Debug, PartialEq)]
pub struct HistoryItem {
    pub action: String,
    pub user_name: String,
    pub created_at: String,
    /// The recorded changes, as JSON text.
    pub changes: Option<String>,
}

#[derive(Clone, Debug, PartialEq)]
pub struct TargetHistoryData {
    pub target_type: String,
    pub target_id: String,
    pub history: Vec<HistoryItem>,
}

#[derive(Clone, Debug, PartialEq)]
pub struct CaseSummary {
    pub id: String,
    pub name: String,
    pub description: Option<String>,
    pub status: String,
    pub created_at: String,
    pub member_count: i64,
    pub evidence_count: i64,
    pub node_count: i64,
}

#[derive(Clone, Debug, PartialEq)]
pub struct CaseListData {
    pub cases: Vec<CaseSummary>,
    pub total: i64,
    pub page: i64,
    pub page_size: i64,
}

#[derive(Clone, Debug, PartialEq)]
pub struct CaseDetail {
    pub id: String,
    pub name: String,
    pub description: Option<String>,
    pub status: String,
    pub tags: Option<Vec<String>>,
    pub owner_id: String,
    pub created_at: String,
    pub updated_at: String,
}

#[derive(Clone, Debug, PartialEq)]
pub struct CaseMemberMeData {
    pub case_id: String,
    pub user_id: String,
    pub username: String,
    pub role_in_case: String,
}

#[derive(Clone, Debug, PartialEq)]
pub struct TimelineEvidenceLink {
    pub id: String,
    pub evidence_id: String,
    pub evidence_name: String,
    pub anchor_type: String,
    /// The anchor data, as JSON text.
    pub anchor_data: Option<String>,
}

#[derive(Clone, Debug, PartialEq)]
pub struct TimelineNode {
    pub id: String,
    pub case_id: String,
    pub title: String,
    pub description: Option<String>,
    pub event_time: String,
    pub sort_order: i64,
    pub tags: Vec<String>,
    pub evidence_links: Vec<TimelineEvidenceLink>,
    pub created_at: String,
    pub updated_at: String,
}

#[derive(Clone, Debug, PartialEq)]
pub struct TimelineNodeListData {
    pub nodes: Vec<TimelineNode>,
    pub total: i64,
    pub page: i64,
    pub page_size: i64,
}

#[derive(Clone, Debug, PartialEq)]
pub struct CasePersonItem {
    pub id: String,
    pub name: String,
    pub gender: Option<String>,
    pub phone: Option<String>,
    pub email: Option<String>,
    pub organization: Option<String>,
    pub position: Option<String>,
    pub role_type: String,
    pub role_detail: Option<String>,
    pub involved_date: Option<String>,
    pub created_at: String,
    pub updated_at: String,
}

#[derive(Clone, Debug, PartialEq)]
pub struct CasePersonListData {
    pub persons: Vec<CasePersonItem>,
    pub total: i64,
    pub page: i64,
    pub page_size: i64,
}

#[derive(Clone, Debug, PartialEq)]
pub struct PersonCaseLink {
    pub case_id: String,
    pub role_type: String,
    pub role_detail: Option<String>,
    pub involved_date: Option<String>,
    pub created_at: String,
}

#[derive(Clone, Debug, PartialEq)]
pub struct PersonDetail {
    pub id: String,
    pub name: String,
    pub gender: Option<String>,
    pub phone: Option<String>,
    pub email: Option<String>,
    pub organization: Option<String>,
    pub position: Option<String>,
    pub notes: Option<String>,
    pub status: String,
    pub created_at: String,
    pub updated_at: String,
    pub cases: Vec<PersonCaseLink>,
}

#[derive(Clone, Debug, PartialEq)]
pub struct PersonGraphNode {
    pub id: String,
    pub name: String,
    pub role_type: String,
}

#[derive(Clone, Debug, PartialEq)]
pub struct PersonGraphData {
    pub nodes: Vec<PersonGraphNode>,
    pub edges: Vec<GraphEdgeFields>,
}

#[derive(Clone, Debug, PartialEq)]
pub struct DedupeCandidatePerson {
    pub id: String,
    pub name: String,
    pub phone: Option<String>,
    pub email: Option<String>,
    pub organization: Option<String>,
    pub position: Option<String>,
    pub roles: Vec<String>,
}

#[derive(Clone, Debug, PartialEq)]
pub struct DedupeCandidateGroup {
    pub key: String,
    pub reason: String,
    pub persons: Vec<DedupeCandidatePerson>,
}

#[derive(Clone, Debug, PartialEq)]
pub struct DedupeCandidatesData {
    pub groups: Vec<DedupeCandidateGroup>,
}

#[derive(Clone, Debug, PartialEq)]
pub struct MergeCasePersonsData {
    pub source_person_id: String,
    pub target_person_id: String,
    pub moved_links: i64,
    pub updated_links: i64,
    pub moved_relationships: i64,
    pub dropped_relationships: i64,
}

#[derive(Clone, Debug, PartialEq)]
pub struct RelationshipItem {
    pub id: String,
    pub case_id: String,
    pub from_person_id: String,
    pub from_person_name: String,
    pub to_person_id: String,
    pub to_person_name: String,
    pub rel_type: String,
    pub rel_detail: Option<String>,
    pub created_at: String,
    pub updated_at: String,
}

#[derive(Clone, Debug, PartialEq)]
pub struct RelationshipListData {
    pub relationships: Vec<RelationshipItem>,
    pub total: i64,
}

#[derive(Clone, Debug, PartialEq)]
pub struct SearchBilingualSnippet {
    pub snippet_source: Option<String>,
    pub snippet_translated: Option<String>,
    pub matched_language: Option<String>,
    pub source_fallback: Option<bool>,
}

#[derive(Clone, Debug, PartialEq)]
pub struct SuggestionsData {
    pub suggestions: Vec<String>,
}

#[derive(Clone, Debug, PartialEq)]
pub struct SearchHistoryItem {
    pub id: String,
    pub keyword: String,
    pub object_types: Option<String>,
    pub case_id: Option<String>,
    pub result_count: Option<i64>,
    pub searched_at: String,
}

#[derive(Clone, Debug, PartialEq)]
pub struct SearchHistoryData {
    pub items: Vec<SearchHistoryItem>,
    pub total: i64,
    pub page: i64,
    pub page_size: i64,
}

} // verus!
