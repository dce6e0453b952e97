//! Which handler a tool call goes to, by the tool's name, and the answer
//! to a name that no handler serves.

use vstd::prelude::*;
use crate::text::str_eq;
use crate::protocol::{CallToolResult, ToolContent};

verus! {

/// The handler of a tool call: one for each tool the server runs, and
/// `Unknown` for any other name.
#[derive(Debug, Clone, Copy, PartialEq, Eq, Structural)]
pub enum ToolRoute {
    GetNotifications,
    CreateCustomTool,
    UpdateCustomTool,
    ListCustomTools,
    GetCustomTool,
    RunCustomTool,
    DeleteCustomTool,
    RequestSecret,
    ListSecrets,
    PostToBluesky,
    ReplyToBluesky,
    SendBlueskyDm,
    ReplyToDm,
    LikePost,
    FollowUser,
    GetTimeline,
    SearchPosts,
    SearchUsers,
    GetThreadContext,
    MuteUser,
    UnmuteUser,
    BlockUser,
    UnblockUser,
    MuteThread,
    UnmuteThread,
    DeletePost,
    CreateFact,
    CreateFacts,
    UpdateFact,
    DeleteFact,
    QueryFacts,
    ListPredicates,
    ListValidationErrors,
    QueryAndEnrich,
    CreateRule,
    CreateRules,
    ListRules,
    ToggleRule,
    CreateNote,
    GetNote,
    ListNotes,
    ScheduleJob,
    ScheduleRecurring,
    ListJobs,
    CancelJob,
    GetJob,
    GetIdentity,
    RecordThought,
    ListThoughts,
    GetThought,
    PublishBlogPost,
    UpdateBlogPost,
    ListBlogPosts,
    GetBlogPost,
    CreateTrigger,
    UpdateTrigger,
    DeleteTrigger,
    ListTriggers,
    TestTrigger,
    CreateWikiEntry,
    UpdateWikiEntry,
    DeleteWikiEntry,
    GetWikiEntry,
    GetWikiEntryBySlug,
    ListWikiEntries,
    CreateWikiLink,
    DeleteWikiLink,
    ListWikiLinks,
    CreateDirective,
    CreateDirectives,
    UpdateDirective,
    DeactivateDirective,
    ListDirectives,
    PdsListRecords,
    PdsGetRecord,
    PdsGetRecords,
    PdsPutRecord,
    PdsDeleteRecord,
    CreateFactDeclaration,
    CreateFactDeclarations,
    UpdateFactDeclaration,
    DeleteFactDeclaration,
    ListFactDeclarations,
    CheckInbox,
    AcknowledgeInbox,
    CheckInterruption,
    SetActiveContext,
    SessionStats,
    Unknown,
}

/// The handler for the tool named `name`.
pub open spec fn tool_route_spec(name: Seq<char>) -> ToolRoute {
    if name == "get_notifications"@ {
        ToolRoute::GetNotifications
    } else if name == "create_custom_tool"@ {
        ToolRoute::CreateCustomTool
    } else if name == "update_custom_tool"@ {
        ToolRoute::UpdateCustomTool
    } else if name == "list_custom_tools"@ {
        ToolRoute::ListCustomTools
    } else if name == "get_custom_tool"@ {
        ToolRoute::GetCustomTool
    } else if name == "run_custom_tool"@ {
        ToolRoute::RunCustomTool
    } else if name == "delete_custom_tool"@ {
        ToolRoute::DeleteCustomTool
    } else if name == "request_secret"@ {
        ToolRoute::RequestSecret
    } else if name == "list_secrets"@ {
        ToolRoute::ListSecrets
    } else if name == "post_to_bluesky"@ {
        ToolRoute::PostToBluesky
    } else if name == "reply_to_bluesky"@ {
        ToolRoute::ReplyToBluesky
    } else if name == "send_bluesky_dm"@ {
        ToolRoute::SendBlueskyDm
    } else if name == "reply_to_dm"@ {
        ToolRoute::ReplyToDm
    } else if name == "like_post"@ {
        ToolRoute::LikePost
    } else if name == "follow_user"@ {
        ToolRoute::FollowUser
    } else if name == "get_timeline"@ {
        ToolRoute::GetTimeline
    } else if name == "search_posts"@ {
        ToolRoute::SearchPosts
    } else if name == "search_users"@ {
        ToolRoute::SearchUsers
    } else if name == "get_thread_context"@ {
        ToolRoute::GetThreadContext
    } else if name == "mute_user"@ {
        ToolRoute::MuteUser
    } else if name == "unmute_user"@ {
        ToolRoute::UnmuteUser
    } else if name == "block_user"@ {
        ToolRoute::BlockUser
    } else if name == "unblock_user"@ {
        ToolRoute::UnblockUser
    } else if name == "mute_thread"@ {
        ToolRoute::MuteThread
    } else if name == "unmute_thread"@ {
        ToolRoute::UnmuteThread
    } else if name == "delete_post"@ {
        ToolRoute::DeletePost
    } else if name == "create_fact"@ {
        ToolRoute::CreateFact
    } else if name == "create_facts"@ {
        ToolRoute::CreateFacts
    } else if name == "update_fact"@ {
        ToolRoute::UpdateFact
    } else if name == "delete_fact"@ {
        ToolRoute::DeleteFact
    } else if name == "query_facts"@ {
        ToolRoute::QueryFacts
    } else if name == "list_predicates"@ {
        ToolRoute::ListPredicates
    } else if name == "list_validation_errors"@ {
        ToolRoute::ListValidationErrors
    } else if name == "query_and_enrich"@ {
        ToolRoute::QueryAndEnrich
    } else if name == "create_rule"@ {
        ToolRoute::CreateRule
    } else if name == "create_rules"@ {
        ToolRoute::CreateRules
    } else if name == "list_rules"@ {
        ToolRoute::ListRules
    } else if name == "toggle_rule"@ {
        ToolRoute::ToggleRule
    } else if name == "create_note"@ {
        ToolRoute::CreateNote
    } else if name == "get_note"@ {
        ToolRoute::GetNote
    } else if name == "list_notes"@ {
        ToolRoute::ListNotes
    } else if name == "schedule_job"@ {
        ToolRoute::ScheduleJob
    } else if name == "schedule_recurring"@ {
        ToolRoute::ScheduleRecurring
    } else if name == "list_jobs"@ {
        ToolRoute::ListJobs
    } else if name == "cancel_job"@ {
        ToolRoute::CancelJob
    } else if name == "get_job"@ {
        ToolRoute::GetJob
    } else if name == "get_identity"@ {
        ToolRoute::GetIdentity
    } else if name == "record_thought"@ {
        ToolRoute::RecordThought
    } else if name == "list_thoughts"@ {
        ToolRoute::ListThoughts
    } else if name == "get_thought"@ {
        ToolRoute::GetThought
    } else if name == "publish_blog_post"@ {
        ToolRoute::PublishBlogPost
    } else if name == "update_blog_post"@ {
        ToolRoute::UpdateBlogPost
    } else if name == "list_blog_posts"@ {
        ToolRoute::ListBlogPosts
    } else if name == "get_blog_post"@ {
        ToolRoute::GetBlogPost
    } else if name == "create_trigger"@ {
        ToolRoute::CreateTrigger
    } else if name == "update_trigger"@ {
        ToolRoute::UpdateTrigger
    } else if name == "delete_trigger"@ {
        ToolRoute::DeleteTrigger
    } else if name == "list_triggers"@ {
        ToolRoute::ListTriggers
    } else if name == "test_trigger"@ {
        ToolRoute::TestTrigger
    } else if name == "create_wiki_entry"@ {
        ToolRoute::CreateWikiEntry
    } else if name == "update_wiki_entry"@ {
        ToolRoute::UpdateWikiEntry
    } else if name == "delete_wiki_entry"@ {
        ToolRoute::DeleteWikiEntry
    } else if name == "get_wiki_entry"@ {
        ToolRoute::GetWikiEntry
    } else if name == "get_wiki_entry_by_slug"@ {
        ToolRoute::GetWikiEntryBySlug
    } else if name == "list_wiki_entries"@ {
        ToolRoute::ListWikiEntries
    } else if name == "create_wiki_link"@ {
        ToolRoute::CreateWikiLink
    } else if name == "delete_wiki_link"@ {
        ToolRoute::DeleteWikiLink
    } else if name == "list_wiki_links"@ {
        ToolRoute::ListWikiLinks
    } else if name == "create_directive"@ {
        ToolRoute::CreateDirective
    } else if name == "create_directives"@ {
        ToolRoute::CreateDirectives
    } else if name == "update_directive"@ {
        ToolRoute::UpdateDirective
    } else if name == "deactivate_directive"@ {
        ToolRoute::DeactivateDirective
    } else if name == "list_directives"@ {
        ToolRoute::ListDirectives
    } else if name == "pds_list_records"@ {
        ToolRoute::PdsListRecords
    } else if name == "pds_get_record"@ {
        ToolRoute::PdsGetRecord
    } else if name == "pds_get_records"@ {
        ToolRoute::PdsGetRecords
    } else if name == "pds_put_record"@ {
        ToolRoute::PdsPutRecord
    } else if name == "pds_delete_record"@ {
        ToolRoute::PdsDeleteRecord
    } else if name == "create_fact_declaration"@ {
        ToolRoute::CreateFactDeclaration
    } else if name == "create_fact_declarations"@ {
        ToolRoute::CreateFactDeclarations
    } else if name == "update_fact_declaration"@ {
        ToolRoute::UpdateFactDeclaration
    } else if name == "delete_fact_declaration"@ {
        ToolRoute::DeleteFactDeclaration
    } else if name == "list_fact_declarations"@ {
        ToolRoute::ListFactDeclarations
    } else if name == "check_inbox"@ {
        ToolRoute::CheckInbox
    } else if name == "acknowledge_inbox"@ {
        ToolRoute::AcknowledgeInbox
    } else if name == "check_interruption"@ {
        ToolRoute::CheckInterruption
    } else if name == "set_active_context"@ {
        ToolRoute::SetActiveContext
    } else if name == "session_stats"@ {
        ToolRoute::SessionStats
    } else {
        ToolRoute::Unknown
    }
}

/// The handler for the tool named `name`; `Unknown` for a name that no
/// handler serves.
#[verifier::rlimit(50)]
pub fn route_tool(name: &str) -> (r: ToolRoute)
    ensures
        r == tool_route_spec(name@),
{
    if str_eq(name, "get_notifications") {
        ToolRoute::GetNotifications
    } else if str_eq(name, "create_custom_tool") {
        ToolRoute::CreateCustomTool
    } else if str_eq(name, "update_custom_tool") {
        ToolRoute::UpdateCustomTool
    } else if str_eq(name, "list_custom_tools") {
        ToolRoute::ListCustomTools
    } else if str_eq(name, "get_custom_tool") {
        ToolRoute::GetCustomTool
    } else if str_eq(name, "run_custom_tool") {
        ToolRoute::RunCustomTool
    } else if str_eq(name, "delete_custom_tool") {
        ToolRoute::DeleteCustomTool
    } else if str_eq(name, "request_secret") {
        ToolRoute::RequestSecret
    } else if str_eq(name, "list_secrets") {
        ToolRoute::ListSecrets
    } else if str_eq(name, "post_to_bluesky") {
        ToolRoute::PostToBluesky
    } else if str_eq(name, "reply_to_bluesky") {
        ToolRoute::ReplyToBluesky
    } else if str_eq(name, "send_bluesky_dm") {
        ToolRoute::SendBlueskyDm
    } else if str_eq(name, "reply_to_dm") {
        ToolRoute::ReplyToDm
    } else if str_eq(name, "like_post") {
        ToolRoute::LikePost
    } else if str_eq(name, "follow_user") {
        ToolRoute::FollowUser
    } else if str_eq(name, "get_timeline") {
        ToolRoute::GetTimeline
    } else if str_eq(name, "search_posts") {
        ToolRoute::SearchPosts
    } else if str_eq(name, "search_users") {
        ToolRoute::SearchUsers
    } else if str_eq(name, "get_thread_context") {
        ToolRoute::GetThreadContext
    } else if str_eq(name, "mute_user") {
        ToolRoute::MuteUser
    } else if str_eq(name, "unmute_user") {
        ToolRoute::UnmuteUser
    } else if str_eq(name, "block_user") {
        ToolRoute::BlockUser
    } else if str_eq(name, "unblock_user") {
        ToolRoute::UnblockUser
    } else if str_eq(name, "mute_thread") {
        ToolRoute::MuteThread
    } else if str_eq(name, "unmute_thread") {
        ToolRoute::UnmuteThread
    } else if str_eq(name, "delete_post") {
        ToolRoute::DeletePost
    } else if str_eq(name, "create_fact") {
        ToolRoute::CreateFact
    } else if str_eq(name, "create_facts") {
        ToolRoute::CreateFacts
    } else if str_eq(name, "update_fact") {
        ToolRoute::UpdateFact
    } else if str_eq(name, "delete_fact") {
        ToolRoute::DeleteFact
    } else if str_eq(name, "query_facts") {
        ToolRoute::QueryFacts
    } else if str_eq(name, "list_predicates") {
        ToolRoute::ListPredicates
    } else if str_eq(name, "list_validation_errors") {
        ToolRoute::ListValidationErrors
    } else if str_eq(name, "query_and_enrich") {
        ToolRoute::QueryAndEnrich
    } else if str_eq(name, "create_rule") {
        ToolRoute::CreateRule
    } else if str_eq(name, "create_rules") {
        ToolRoute::CreateRules
    } else if str_eq(name, "list_rules") {
        ToolRoute::ListRules
    } else if str_eq(name, "toggle_rule") {
        ToolRoute::ToggleRule
    } else if str_eq(name, "create_note") {
        ToolRoute::CreateNote
    } else if str_eq(name, "get_note") {
        ToolRoute::GetNote
    } else if str_eq(name, "list_notes") {
        ToolRoute::ListNotes
    } else if str_eq(name, "schedule_job") {
        ToolRoute::ScheduleJob
    } else if str_eq(name, "schedule_recurring") {
        ToolRoute::ScheduleRecurring
    } else if str_eq(name, "list_jobs") {
        ToolRoute::ListJobs
    } else if str_eq(name, "cancel_job") {
        ToolRoute::CancelJob
    } else if str_eq(name, "get_job") {
        ToolRoute::GetJob
    } else if str_eq(name, "get_identity") {
        ToolRoute::GetIdentity
    } else if str_eq(name, "record_thought") {
        ToolRoute::RecordThought
    } else if str_eq(name, "list_thoughts") {
        ToolRoute::ListThoughts
    } else if str_eq(name, "get_thought") {
        ToolRoute::GetThought
    } else if str_eq(name, "publish_blog_post") {
        ToolRoute::PublishBlogPost
    } else if str_eq(name, "update_blog_post") {
        ToolRoute::UpdateBlogPost
    } else if str_eq(name, "list_blog_posts") {
        ToolRoute::ListBlogPosts
    } else if str_eq(name, "get_blog_post") {
        ToolRoute::GetBlogPost
    } else if str_eq(name, "create_trigger") {
        ToolRoute::CreateTrigger
    } else if str_eq(name, "update_trigger") {
        ToolRoute::UpdateTrigger
    } else if str_eq(name, "delete_trigger") {
        ToolRoute::DeleteTrigger
    } else if str_eq(name, "list_triggers") {
        ToolRoute::ListTriggers
    } else if str_eq(name, "test_trigger") {
        ToolRoute::TestTrigger
    } else if str_eq(name, "create_wiki_entry") {
        ToolRoute::CreateWikiEntry
    } else if str_eq(name, "update_wiki_entry") {
        ToolRoute::UpdateWikiEntry
    } else if str_eq(name, "delete_wiki_entry") {
        ToolRoute::DeleteWikiEntry
    } else if str_eq(name, "get_wiki_entry") {
        ToolRoute::GetWikiEntry
    } else if str_eq(name, "get_wiki_entry_by_slug") {
        ToolRoute::GetWikiEntryBySlug
    } else if str_eq(name, "list_wiki_entries") {
        ToolRoute::ListWikiEntries
    } else if str_eq(name, "create_wiki_link") {
        ToolRoute::CreateWikiLink
    } else if str_eq(name, "delete_wiki_link") {
        ToolRoute::DeleteWikiLink
    } else if str_eq(name, "list_wiki_links") {
        ToolRoute::ListWikiLinks
    } else if str_eq(name, "create_directive") {
        ToolRoute::CreateDirective
    } else if str_eq(name, "create_directives") {
        ToolRoute::CreateDirectives
    } else if str_eq(name, "update_directive") {
        ToolRoute::UpdateDirective
    } else if str_eq(name, "deactivate_directive") {
        ToolRoute::DeactivateDirective
    } else if str_eq(name, "list_directives") {
        ToolRoute::ListDirectives
    } else if str_eq(name, "pds_list_records") {
        ToolRoute::PdsListRecords
    } else if str_eq(name, "pds_get_record") {
        ToolRoute::PdsGetRecord
    } else if str_eq(name, "pds_get_records") {
        ToolRoute::PdsGetRecords
    } else if str_eq(name, "pds_put_record") {
        ToolRoute::PdsPutRecord
    } else if str_eq(name, "pds_delete_record") {
        ToolRoute::PdsDeleteRecord
    } else if str_eq(name, "create_fact_declaration") {
        ToolRoute::CreateFactDeclaration
    } else if str_eq(name, "create_fact_declarations") {
        ToolRoute::CreateFactDeclarations
    } else if str_eq(name, "update_fact_declaration") {
        ToolRoute::UpdateFactDeclaration
    } else if str_eq(name, "delete_fact_declaration") {
        ToolRoute::DeleteFactDeclaration
    } else if str_eq(name, "list_fact_declarations") {
        ToolRoute::ListFactDeclarations
    } else if str_eq(name, "check_inbox") {
        ToolRoute::CheckInbox
    } else if str_eq(name, "acknowledge_inbox") {
        ToolRoute::AcknowledgeInbox
    } else if str_eq(name, "check_interruption") {
        ToolRoute::CheckInterruption
    } else if str_eq(name, "set_active_context") {
        ToolRoute::SetActiveContext
    } else if str_eq(name, "session_stats") {
        ToolRoute::SessionStats
    } else {
        ToolRoute::Unknown
    }
}

/// Only `get_notifications` changes the server's state (it moves the
/// notification cursor); every other tool reads it.
pub fn needs_write(route: ToolRoute) -> (r: bool)
    ensures
        r == (route == ToolRoute::GetNotifications),
{
    match route {
        ToolRoute::GetNotifications => true,
        _ => false,
    }
}

/// The answer to a call of a tool that no handler serves.
pub fn unknown_tool_result(name: &str) -> (r: CallToolResult)
    ensures
        r.is_error == Some(true),
        r.content@.len() == 1,
        r.content@[0] matches ToolContent::Text { text } && text@ == "Unknown tool: "@ + name@,
{
    let mut text = String::from_str("Unknown tool: ");
    text.append(name);
    CallToolResult::error(text)
}

} // verus!
