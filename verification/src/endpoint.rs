//! The endpoints of the HTTP API: where each one is served and with which method.
use vstd::prelude::*;

use crate::http::Method;
use crate::text::lies_within;

verus! {

/// Commands of the kernel: accounts, sessions, groups and billing.
/// Each is served at `/api/kernel/commands/` followed by its name in snake case.
#[derive(Clone, Copy, Debug, PartialEq, Eq, Structural)]
pub enum KernelCommand {
    Register,
    CompleteRegistration,
    SignIn,
    CompleteSignIn,
    RevokeSession,
    VerifyEmail,
    DeleteMyAccount,
    CompleteTwoFaSetup,
    SetupTwoFa,
    DisableTwoFa,
    CompleteTwoFaChallenge,
    UpdateMyProfile,
    CreateGroup,
    DeleteGroup,
    UpdateGroupProfile,
    QuitGroup,
    InvitePeopleInGroup,
    AcceptGroupInvitation,
    DeclineGroupInvitation,
    CancelGroupInvitation,
    RemoveMemberFromGroup,
    UpdateBillingInformation,
    SyncCustomerWithProvider,
}

impl KernelCommand {
    /// The last segment of the path: the snake-case name of the handler, or
    /// for analytics its one-letter short form.
    pub open spec fn spec_segment(self) -> Seq<char> {
        match self {
            KernelCommand::Register => "register"@,
            KernelCommand::CompleteRegistration => "complete_registration"@,
            KernelCommand::SignIn => "sign_in"@,
            KernelCommand::CompleteSignIn => "complete_sign_in"@,
            KernelCommand::RevokeSession => "revoke_session"@,
            KernelCommand::VerifyEmail => "verify_email"@,
            KernelCommand::DeleteMyAccount => "delete_my_account"@,
            KernelCommand::CompleteTwoFaSetup => "complete_two_fa_setup"@,
            KernelCommand::SetupTwoFa => "setup_two_fa"@,
            KernelCommand::DisableTwoFa => "disable_two_fa"@,
            KernelCommand::CompleteTwoFaChallenge => "complete_two_fa_challenge"@,
            KernelCommand::UpdateMyProfile => "update_my_profile"@,
            KernelCommand::CreateGroup => "create_group"@,
            KernelCommand::DeleteGroup => "delete_group"@,
            KernelCommand::UpdateGroupProfile => "update_group_profile"@,
            KernelCommand::QuitGroup => "quit_group"@,
            KernelCommand::InvitePeopleInGroup => "invite_people_in_group"@,
            KernelCommand::AcceptGroupInvitation => "accept_group_invitation"@,
            KernelCommand::DeclineGroupInvitation => "decline_group_invitation"@,
            KernelCommand::CancelGroupInvitation => "cancel_group_invitation"@,
            KernelCommand::RemoveMemberFromGroup => "remove_member_from_group"@,
            KernelCommand::UpdateBillingInformation => "update_billing_information"@,
            KernelCommand::SyncCustomerWithProvider => "sync_customer_with_provider"@,
        }
    }

    /// The last segment of the path.
    pub fn segment(&self) -> (s: &'static str)
        ensures
            s@ == self.spec_segment(),
    {
        match self {
            KernelCommand::Register => "register",
            KernelCommand::CompleteRegistration => "complete_registration",
            KernelCommand::SignIn => "sign_in",
            KernelCommand::CompleteSignIn => "complete_sign_in",
            KernelCommand::RevokeSession => "revoke_session",
            KernelCommand::VerifyEmail => "verify_email",
            KernelCommand::DeleteMyAccount => "delete_my_account",
            KernelCommand::CompleteTwoFaSetup => "complete_two_fa_setup",
            KernelCommand::SetupTwoFa => "setup_two_fa",
            KernelCommand::DisableTwoFa => "disable_two_fa",
            KernelCommand::CompleteTwoFaChallenge => "complete_two_fa_challenge",
            KernelCommand::UpdateMyProfile => "update_my_profile",
            KernelCommand::CreateGroup => "create_group",
            KernelCommand::DeleteGroup => "delete_group",
            KernelCommand::UpdateGroupProfile => "update_group_profile",
            KernelCommand::QuitGroup => "quit_group",
            KernelCommand::InvitePeopleInGroup => "invite_people_in_group",
            KernelCommand::AcceptGroupInvitation => "accept_group_invitation",
            KernelCommand::DeclineGroupInvitation => "decline_group_invitation",
            KernelCommand::CancelGroupInvitation => "cancel_group_invitation",
            KernelCommand::RemoveMemberFromGroup => "remove_member_from_group",
            KernelCommand::UpdateBillingInformation => "update_billing_information",
            KernelCommand::SyncCustomerWithProvider => "sync_customer_with_provider",
        }
    }
}

/// Queries of the kernel.
/// Each is served at `/api/kernel/queries/` followed by its name in snake case.
#[derive(Clone, Copy, Debug, PartialEq, Eq, Structural)]
pub enum KernelQuery {
    SignedUploadUrl,
    Me,
    Markdown,
    GenerateQrCode,
    MyGroupInvitations,
    MySessions,
    Group,
    GroupWithMembersAndInvitations,
    StripePublicKey,
    BillingInformation,
    CheckoutSession,
    CustomerPortal,
}

impl KernelQuery {
    /// The last segment of the path: the snake-case name of the handler, or
    /// for analytics its one-letter short form.
    pub open spec fn spec_segment(self) -> Seq<char> {
        match self {
            KernelQuery::SignedUploadUrl => "signed_upload_url"@,
            KernelQuery::Me => "me"@,
            KernelQuery::Markdown => "markdown"@,
            KernelQuery::GenerateQrCode => "generate_qr_code"@,
            KernelQuery::MyGroupInvitations => "my_group_invitations"@,
            KernelQuery::MySessions => "my_sessions"@,
            KernelQuery::Group => "group"@,
            KernelQuery::GroupWithMembersAndInvitations => "group_with_members_and_invitations"@,
            KernelQuery::StripePublicKey => "stripe_public_key"@,
            KernelQuery::BillingInformation => "billing_information"@,
            KernelQuery::CheckoutSession => "checkout_session"@,
            KernelQuery::CustomerPortal => "customer_portal"@,
        }
    }

    /// The last segment of the path.
    pub fn segment(&self) -> (s: &'static str)
        ensures
            s@ == self.spec_segment(),
    {
        match self {
            KernelQuery::SignedUploadUrl => "signed_upload_url",
            KernelQuery::Me => "me",
            KernelQuery::Markdown => "markdown",
            KernelQuery::GenerateQrCode => "generate_qr_code",
            KernelQuery::MyGroupInvitations => "my_group_invitations",
            KernelQuery::MySessions => "my_sessions",
            KernelQuery::Group => "group",
            KernelQuery::GroupWithMembersAndInvitations => "group_with_members_and_invitations",
            KernelQuery::StripePublicKey => "stripe_public_key",
            KernelQuery::BillingInformation => "billing_information",
            KernelQuery::CheckoutSession => "checkout_session",
            KernelQuery::CustomerPortal => "customer_portal",
        }
    }
}

/// Commands of the file storage.
/// Each is served at `/api/files/commands/` followed by its name in snake case.
#[derive(Clone, Copy, Debug, PartialEq, Eq, Structural)]
pub enum FilesCommand {
    MoveFilesToTrash,
    RestoreFilesFromTrash,
    EmptyTrash,
    MoveFiles,
    CreateFolder,
    RenameFile,
    CompleteFileUpload,
}

impl FilesCommand {
    /// The last segment of the path: the snake-case name of the handler, or
    /// for analytics its one-letter short form.
    pub open spec fn spec_segment(self) -> Seq<char> {
        match self {
            FilesCommand::MoveFilesToTrash => "move_files_to_trash"@,
            FilesCommand::RestoreFilesFromTrash => "restore_files_from_trash"@,
            FilesCommand::EmptyTrash => "empty_trash"@,
            FilesCommand::MoveFiles => "move_files"@,
            FilesCommand::CreateFolder => "create_folder"@,
            FilesCommand::RenameFile => "rename_file"@,
            FilesCommand::CompleteFileUpload => "complete_file_upload"@,
        }
    }

    /// The last segment of the path.
    pub fn segment(&self) -> (s: &'static str)
        ensures
            s@ == self.spec_segment(),
    {
        match self {
            FilesCommand::MoveFilesToTrash => "move_files_to_trash",
            FilesCommand::RestoreFilesFromTrash => "restore_files_from_trash",
            FilesCommand::EmptyTrash => "empty_trash",
            FilesCommand::MoveFiles => "move_files",
            FilesCommand::CreateFolder => "create_folder",
            FilesCommand::RenameFile => "rename_file",
            FilesCommand::CompleteFileUpload => "complete_file_upload",
        }
    }
}

/// Queries of the file storage.
/// Each is served at `/api/files/queries/` followed by its name in snake case.
#[derive(Clone, Copy, Debug, PartialEq, Eq, Structural)]
pub enum FilesQuery {
    File,
    Trash,
    FileDownloadUrl,
}

impl FilesQuery {
    /// The last segment of the path: the snake-case name of the handler, or
    /// for analytics its one-letter short form.
    pub open spec fn spec_segment(self) -> Seq<char> {
        match self {
            FilesQuery::File => "file"@,
            FilesQuery::Trash => "trash"@,
            FilesQuery::FileDownloadUrl => "file_download_url"@,
        }
    }

    /// The last segment of the path.
    pub fn segment(&self) -> (s: &'static str)
        ensures
            s@ == self.spec_segment(),
    {
        match self {
            FilesQuery::File => "file",
            FilesQuery::Trash => "trash",
            FilesQuery::FileDownloadUrl => "file_download_url",
        }
    }
}

/// Analytics events. The short paths keep ad blockers from dropping legitimate requests.
/// Served under `/api/a/events`, each at a one-letter segment.
#[derive(Clone, Copy, Debug, PartialEq, Eq, Structural)]
pub enum AnalyticsEvent {
    Track,
    Page,
}

impl AnalyticsEvent {
    /// The last segment of the path: the snake-case name of the handler, or
    /// for analytics its one-letter short form.
    pub open spec fn spec_segment(self) -> Seq<char> {
        match self {
            AnalyticsEvent::Track => "t"@,
            AnalyticsEvent::Page => "p"@,
        }
    }

    /// The last segment of the path.
    pub fn segment(&self) -> (s: &'static str)
        ensures
            s@ == self.spec_segment(),
    {
        match self {
            AnalyticsEvent::Track => "t",
            AnalyticsEvent::Page => "p",
        }
    }
}

/// Analytics queries.
/// Served under `/api/a/queries`, each at a one-letter segment.
#[derive(Clone, Copy, Debug, PartialEq, Eq, Structural)]
pub enum AnalyticsQuery {
    Analytics,
}

impl AnalyticsQuery {
    /// The last segment of the path: the snake-case name of the handler, or
    /// for analytics its one-letter short form.
    pub open spec fn spec_segment(self) -> Seq<char> {
        match self {
            AnalyticsQuery::Analytics => "a"@,
        }
    }

    /// The last segment of the path.
    pub fn segment(&self) -> (s: &'static str)
        ensures
            s@ == self.spec_segment(),
    {
        match self {
            AnalyticsQuery::Analytics => "a",
        }
    }
}

/// Commands of the inbox: contacts, messages and the chatbox.
/// Each is served at `/api/inbox/commands/` followed by its name in snake case.
#[derive(Clone, Copy, Debug, PartialEq, Eq, Structural)]
pub enum InboxCommand {
    CreateContact,
    DeleteContact,
    ImportContacts,
    UpdateContact,
    SendMessage,
    SendChatboxMessage,
    UpdateChatboxPreferences,
    LinkChatboxContact,
}

impl InboxCommand {
    /// The last segment of the path: the snake-case name of the handler, or
    /// for analytics its one-letter short form.
    pub open spec fn spec_segment(self) -> Seq<char> {
        match self {
            InboxCommand::CreateContact => "create_contact"@,
            InboxCommand::DeleteContact => "delete_contact"@,
            InboxCommand::ImportContacts => "import_contacts"@,
            InboxCommand::UpdateContact => "update_contact"@,
            InboxCommand::SendMessage => "send_message"@,
            InboxCommand::SendChatboxMessage => "send_chatbox_message"@,
            InboxCommand::UpdateChatboxPreferences => "update_chatbox_preferences"@,
            InboxCommand::LinkChatboxContact => "link_chatbox_contact"@,
        }
    }

    /// The last segment of the path.
    pub fn segment(&self) -> (s: &'static str)
        ensures
            s@ == self.spec_segment(),
    {
        match self {
            InboxCommand::CreateContact => "create_contact",
            InboxCommand::DeleteContact => "delete_contact",
            InboxCommand::ImportContacts => "import_contacts",
            InboxCommand::UpdateContact => "update_contact",
            InboxCommand::SendMessage => "send_message",
            InboxCommand::SendChatboxMessage => "send_chatbox_message",
            InboxCommand::UpdateChatboxPreferences => "update_chatbox_preferences",
            InboxCommand::LinkChatboxContact => "link_chatbox_contact",
        }
    }
}

/// Queries of the inbox.
/// Each is served at `/api/inbox/queries/` followed by its name in snake case.
#[derive(Clone, Copy, Debug, PartialEq, Eq, Structural)]
pub enum InboxQuery {
    Contact,
    Contacts,
    ChatboxPreferences,
    ChatboxMessages,
    Inbox,
    Trash,
    Archive,
    Spam,
}

impl InboxQuery {
    /// The last segment of the path: the snake-case name of the handler, or
    /// for analytics its one-letter short form.
    pub open spec fn spec_segment(self) -> Seq<char> {
        match self {
            InboxQuery::Contact => "contact"@,
            InboxQuery::Contacts => "contacts"@,
            InboxQuery::ChatboxPreferences => "chatbox_preferences"@,
            InboxQuery::ChatboxMessages => "chatbox_messages"@,
            InboxQuery::Inbox => "inbox"@,
            InboxQuery::Trash => "trash"@,
            InboxQuery::Archive => "archive"@,
            InboxQuery::Spam => "spam"@,
        }
    }

    /// The last segment of the path.
    pub fn segment(&self) -> (s: &'static str)
        ensures
            s@ == self.spec_segment(),
    {
        match self {
            InboxQuery::Contact => "contact",
            InboxQuery::Contacts => "contacts",
            InboxQuery::ChatboxPreferences => "chatbox_preferences",
            InboxQuery::ChatboxMessages => "chatbox_messages",
            InboxQuery::Inbox => "inbox",
            InboxQuery::Trash => "trash",
            InboxQuery::Archive => "archive",
            InboxQuery::Spam => "spam",
        }
    }
}

/// Commands of the newsletters: lists, messages and subscriptions.
/// Each is served at `/api/newsletter/commands/` followed by its name in snake case.
#[derive(Clone, Copy, Debug, PartialEq, Eq, Structural)]
pub enum NewsletterCommand {
    CreateList,
    CreateMessage,
    DeleteList,
    DeleteMessage,
    SendMessage,
    SendTestMessage,
    UpdateList,
    UpdateMessage,
    SubscribeToList,
    UnsubscribeFromList,
}

impl NewsletterCommand {
    /// The last segment of the path: the snake-case name of the handler, or
    /// for analytics its one-letter short form.
    pub open spec fn spec_segment(self) -> Seq<char> {
        match self {
            NewsletterCommand::CreateList => "create_list"@,
            NewsletterCommand::CreateMessage => "create_message"@,
            NewsletterCommand::DeleteList => "delete_list"@,
            NewsletterCommand::DeleteMessage => "delete_message"@,
            NewsletterCommand::SendMessage => "send_message"@,
            NewsletterCommand::SendTestMessage => "send_test_message"@,
            NewsletterCommand::UpdateList => "update_list"@,
            NewsletterCommand::UpdateMessage => "update_message"@,
            NewsletterCommand::SubscribeToList => "subscribe_to_list"@,
            NewsletterCommand::UnsubscribeFromList => "unsubscribe_from_list"@,
        }
    }

    /// The last segment of the path.
    pub fn segment(&self) -> (s: &'static str)
        ensures
            s@ == self.spec_segment(),
    {
        match self {
            NewsletterCommand::CreateList => "create_list",
            NewsletterCommand::CreateMessage => "create_message",
            NewsletterCommand::DeleteList => "delete_list",
            NewsletterCommand::DeleteMessage => "delete_message",
            NewsletterCommand::SendMessage => "send_message",
            NewsletterCommand::SendTestMessage => "send_test_message",
            NewsletterCommand::UpdateList => "update_list",
            NewsletterCommand::UpdateMessage => "update_message",
            NewsletterCommand::SubscribeToList => "subscribe_to_list",
            NewsletterCommand::UnsubscribeFromList => "unsubscribe_from_list",
        }
    }
}

/// Queries of the newsletters.
/// Each is served at `/api/newsletter/queries/` followed by its name in snake case.
#[derive(Clone, Copy, Debug, PartialEq, Eq, Structural)]
pub enum NewsletterQuery {
    List,
    Lists,
    Message,
    Messages,
}

impl NewsletterQuery {
    /// The last segment of the path: the snake-case name of the handler, or
    /// for analytics its one-letter short form.
    pub open spec fn spec_segment(self) -> Seq<char> {
        match self {
            NewsletterQuery::List => "list"@,
            NewsletterQuery::Lists => "lists"@,
            NewsletterQuery::Message => "message"@,
            NewsletterQuery::Messages => "messages"@,
        }
    }

    /// The last segment of the path.
    pub fn segment(&self) -> (s: &'static str)
        ensures
            s@ == self.spec_segment(),
    {
        match self {
            NewsletterQuery::List => "list",
            NewsletterQuery::Lists => "lists",
            NewsletterQuery::Message => "message",
            NewsletterQuery::Messages => "messages",
        }
    }
}

/// An endpoint of the API: a handler, reached at one path with one method.
#[derive(Clone, Copy, Debug, PartialEq, Eq, Structural)]
pub enum Endpoint {
    /// The API root, `/api`.
    Index,
    KernelCommand(KernelCommand),
    KernelQuery(KernelQuery),
    FilesCommand(FilesCommand),
    FilesQuery(FilesQuery),
    AnalyticsEvent(AnalyticsEvent),
    AnalyticsQuery(AnalyticsQuery),
    InboxCommand(InboxCommand),
    InboxQuery(InboxQuery),
    NewsletterCommand(NewsletterCommand),
    NewsletterQuery(NewsletterQuery),
}

/// The nested scopes of the API, one per service. A request that enters one
/// of them and matches none of its endpoints gets the server's plain
/// `404 Not Found`, not the API's own fallback.
#[derive(Clone, Copy, Debug, PartialEq, Eq, Structural)]
pub enum ApiScope {
    Kernel,
    Files,
    Analytics,
    Inbox,
    Newsletter,
}

impl ApiScope {
    /// The path prefix of the scope.
    pub open spec fn spec_prefix(self) -> Seq<char> {
        match self {
            ApiScope::Kernel => "/api/kernel"@,
            ApiScope::Files => "/api/files"@,
            ApiScope::Analytics => "/api/a"@,
            ApiScope::Inbox => "/api/inbox"@,
            ApiScope::Newsletter => "/api/newsletter"@,
        }
    }

    /// The path prefix of the scope.
    pub fn prefix(&self) -> (p: &'static str)
        ensures
            p@ == self.spec_prefix(),
    {
        match self {
            ApiScope::Kernel => "/api/kernel",
            ApiScope::Files => "/api/files",
            ApiScope::Analytics => "/api/a",
            ApiScope::Inbox => "/api/inbox",
            ApiScope::Newsletter => "/api/newsletter",
        }
    }
}

/// The scopes, in the order the server registers them.
pub open spec fn api_scopes() -> Seq<ApiScope> {
    seq![ApiScope::Kernel, ApiScope::Files, ApiScope::Analytics, ApiScope::Inbox, ApiScope::Newsletter]
}

/// The scopes, in the order the server registers them.
pub fn all_api_scopes() -> (scopes: Vec<ApiScope>)
    ensures
        scopes@ == api_scopes(),
{
    let mut scopes: Vec<ApiScope> = Vec::new();
    scopes.push(ApiScope::Kernel);
    scopes.push(ApiScope::Files);
    scopes.push(ApiScope::Analytics);
    scopes.push(ApiScope::Inbox);
    scopes.push(ApiScope::Newsletter);
    assert(scopes@ =~= api_scopes());
    scopes
}

/// Every scope is in [`api_scopes`].
pub proof fn lemma_api_scopes_complete(s: ApiScope)
    ensures
        api_scopes().contains(s),
{
    let all = api_scopes();
    match s {
        ApiScope::Kernel => assert(all[0] == s),
        ApiScope::Files => assert(all[1] == s),
        ApiScope::Analytics => assert(all[2] == s),
        ApiScope::Inbox => assert(all[3] == s),
        ApiScope::Newsletter => assert(all[4] == s),
    }
}

impl Endpoint {
    /// The full path at which the endpoint is served.
    pub open spec fn spec_path(self) -> Seq<char> {
        match self {
            Endpoint::Index => "/api"@,
            Endpoint::KernelCommand(KernelCommand::Register) => "/api/kernel/commands/register"@,
            Endpoint::KernelCommand(KernelCommand::CompleteRegistration) => "/api/kernel/commands/complete_registration"@,
            Endpoint::KernelCommand(KernelCommand::SignIn) => "/api/kernel/commands/sign_in"@,
            Endpoint::KernelCommand(KernelCommand::CompleteSignIn) => "/api/kernel/commands/complete_sign_in"@,
            Endpoint::KernelCommand(KernelCommand::RevokeSession) => "/api/kernel/commands/revoke_session"@,
            Endpoint::KernelCommand(KernelCommand::VerifyEmail) => "/api/kernel/commands/verify_email"@,
            Endpoint::KernelCommand(KernelCommand::DeleteMyAccount) => "/api/kernel/commands/delete_my_account"@,
            Endpoint::KernelCommand(KernelCommand::CompleteTwoFaSetup) => "/api/kernel/commands/complete_two_fa_setup"@,
            Endpoint::KernelCommand(KernelCommand::SetupTwoFa) => "/api/kernel/commands/setup_two_fa"@,
            Endpoint::KernelCommand(KernelCommand::DisableTwoFa) => "/api/kernel/commands/disable_two_fa"@,
            Endpoint::KernelCommand(KernelCommand::CompleteTwoFaChallenge) => "/api/kernel/commands/complete_two_fa_challenge"@,
            Endpoint::KernelCommand(KernelCommand::UpdateMyProfile) => "/api/kernel/commands/update_my_profile"@,
            Endpoint::KernelCommand(KernelCommand::CreateGroup) => "/api/kernel/commands/create_group"@,
            Endpoint::KernelCommand(KernelCommand::DeleteGroup) => "/api/kernel/commands/delete_group"@,
            Endpoint::KernelCommand(KernelCommand::UpdateGroupProfile) => "/api/kernel/commands/update_group_profile"@,
            Endpoint::KernelCommand(KernelCommand::QuitGroup) => "/api/kernel/commands/quit_group"@,
            Endpoint::KernelCommand(KernelCommand::InvitePeopleInGroup) => "/api/kernel/commands/invite_people_in_group"@,
            Endpoint::KernelCommand(KernelCommand::AcceptGroupInvitation) => "/api/kernel/commands/accept_group_invitation"@,
            Endpoint::KernelCommand(KernelCommand::DeclineGroupInvitation) => "/api/kernel/commands/decline_group_invitation"@,
            Endpoint::KernelCommand(KernelCommand::CancelGroupInvitation) => "/api/kernel/commands/cancel_group_invitation"@,
            Endpoint::KernelCommand(KernelCommand::RemoveMemberFromGroup) => "/api/kernel/commands/remove_member_from_group"@,
            Endpoint::KernelCommand(KernelCommand::UpdateBillingInformation) => "/api/kernel/commands/update_billing_information"@,
            Endpoint::KernelCommand(KernelCommand::SyncCustomerWithProvider) => "/api/kernel/commands/sync_customer_with_provider"@,
            Endpoint::KernelQuery(KernelQuery::SignedUploadUrl) => "/api/kernel/queries/signed_upload_url"@,
            Endpoint::KernelQuery(KernelQuery::Me) => "/api/kernel/queries/me"@,
            Endpoint::KernelQuery(KernelQuery::Markdown) => "/api/kernel/queries/markdown"@,
            Endpoint::KernelQuery(KernelQuery::GenerateQrCode) => "/api/kernel/queries/generate_qr_code"@,
            Endpoint::KernelQuery(KernelQuery::MyGroupInvitations) => "/api/kernel/queries/my_group_invitations"@,
            Endpoint::KernelQuery(KernelQuery::MySessions) => "/api/kernel/queries/my_sessions"@,
            Endpoint::KernelQuery(KernelQuery::Group) => "/api/kernel/queries/group"@,
            Endpoint::KernelQuery(KernelQuery::GroupWithMembersAndInvitations) => "/api/kernel/queries/group_with_members_and_invitations"@,
            Endpoint::KernelQuery(KernelQuery::StripePublicKey) => "/api/kernel/queries/stripe_public_key"@,
            Endpoint::KernelQuery(KernelQuery::BillingInformation) => "/api/kernel/queries/billing_information"@,
            Endpoint::KernelQuery(KernelQuery::CheckoutSession) => "/api/kernel/queries/checkout_session"@,
            Endpoint::KernelQuery(KernelQuery::CustomerPortal) => "/api/kernel/queries/customer_portal"@,
            Endpoint::FilesCommand(FilesCommand::MoveFilesToTrash) => "/api/files/commands/move_files_to_trash"@,
            Endpoint::FilesCommand(FilesCommand::RestoreFilesFromTrash) => "/api/files/commands/restore_files_from_trash"@,
            Endpoint::FilesCommand(FilesCommand::EmptyTrash) => "/api/files/commands/empty_trash"@,
            Endpoint::FilesCommand(FilesCommand::MoveFiles) => "/api/files/commands/move_files"@,
            Endpoint::FilesCommand(FilesCommand::CreateFolder) => "/api/files/commands/create_folder"@,
            Endpoint::FilesCommand(FilesCommand::RenameFile) => "/api/files/commands/rename_file"@,
            Endpoint::FilesCommand(FilesCommand::CompleteFileUpload) => "/api/files/commands/complete_file_upload"@,
            Endpoint::FilesQuery(FilesQuery::File) => "/api/files/queries/file"@,
            Endpoint::FilesQuery(FilesQuery::Trash) => "/api/files/queries/trash"@,
            Endpoint::FilesQuery(FilesQuery::FileDownloadUrl) => "/api/files/queries/file_download_url"@,
            Endpoint::AnalyticsEvent(AnalyticsEvent::Track) => "/api/a/events/t"@,
            Endpoint::AnalyticsEvent(AnalyticsEvent::Page) => "/api/a/events/p"@,
            Endpoint::AnalyticsQuery(AnalyticsQuery::Analytics) => "/api/a/queries/a"@,
            Endpoint::InboxCommand(InboxCommand::CreateContact) => "/api/inbox/commands/create_contact"@,
            Endpoint::InboxCommand(InboxCommand::DeleteContact) => "/api/inbox/commands/delete_contact"@,
            Endpoint::InboxCommand(InboxCommand::ImportContacts) => "/api/inbox/commands/import_contacts"@,
            Endpoint::InboxCommand(InboxCommand::UpdateContact) => "/api/inbox/commands/update_contact"@,
            Endpoint::InboxCommand(InboxCommand::SendMessage) => "/api/inbox/commands/send_message"@,
            Endpoint::InboxCommand(InboxCommand::SendChatboxMessage) => "/api/inbox/commands/send_chatbox_message"@,
            Endpoint::InboxCommand(InboxCommand::UpdateChatboxPreferences) => "/api/inbox/commands/update_chatbox_preferences"@,
            Endpoint::InboxCommand(InboxCommand::LinkChatboxContact) => "/api/inbox/commands/link_chatbox_contact"@,
            Endpoint::InboxQuery(InboxQuery::Contact) => "/api/inbox/queries/contact"@,
            Endpoint::InboxQuery(InboxQuery::Contacts) => "/api/inbox/queries/contacts"@,
            Endpoint::InboxQuery(InboxQuery::ChatboxPreferences) => "/api/inbox/queries/chatbox_preferences"@,
            Endpoint::InboxQuery(InboxQuery::ChatboxMessages) => "/api/inbox/queries/chatbox_messages"@,
            Endpoint::InboxQuery(InboxQuery::Inbox) => "/api/inbox/queries/inbox"@,
            Endpoint::InboxQuery(InboxQuery::Trash) => "/api/inbox/queries/trash"@,
            Endpoint::InboxQuery(InboxQuery::Archive) => "/api/inbox/queries/archive"@,
            Endpoint::InboxQuery(InboxQuery::Spam) => "/api/inbox/queries/spam"@,
            Endpoint::NewsletterCommand(NewsletterCommand::CreateList) => "/api/newsletter/commands/create_list"@,
            Endpoint::NewsletterCommand(NewsletterCommand::CreateMessage) => "/api/newsletter/commands/create_message"@,
            Endpoint::NewsletterCommand(NewsletterCommand::DeleteList) => "/api/newsletter/commands/delete_list"@,
            Endpoint::NewsletterCommand(NewsletterCommand::DeleteMessage) => "/api/newsletter/commands/delete_message"@,
            Endpoint::NewsletterCommand(NewsletterCommand::SendMessage) => "/api/newsletter/commands/send_message"@,
            Endpoint::NewsletterCommand(NewsletterCommand::SendTestMessage) => "/api/newsletter/commands/send_test_message"@,
            Endpoint::NewsletterCommand(NewsletterCommand::UpdateList) => "/api/newsletter/commands/update_list"@,
            Endpoint::NewsletterCommand(NewsletterCommand::UpdateMessage) => "/api/newsletter/commands/update_message"@,
            Endpoint::NewsletterCommand(NewsletterCommand::SubscribeToList) => "/api/newsletter/commands/subscribe_to_list"@,
            Endpoint::NewsletterCommand(NewsletterCommand::UnsubscribeFromList) => "/api/newsletter/commands/unsubscribe_from_list"@,
            Endpoint::NewsletterQuery(NewsletterQuery::List) => "/api/newsletter/queries/list"@,
            Endpoint::NewsletterQuery(NewsletterQuery::Lists) => "/api/newsletter/queries/lists"@,
            Endpoint::NewsletterQuery(NewsletterQuery::Message) => "/api/newsletter/queries/message"@,
            Endpoint::NewsletterQuery(NewsletterQuery::Messages) => "/api/newsletter/queries/messages"@,
        }
    }

    /// The full path at which the endpoint is served.
    pub fn path(&self) -> (p: &'static str)
        ensures
            p@ == self.spec_path(),
    {
        match self {
            Endpoint::Index => "/api",
            Endpoint::KernelCommand(KernelCommand::Register) => "/api/kernel/commands/register",
            Endpoint::KernelCommand(KernelCommand::CompleteRegistration) => "/api/kernel/commands/complete_registration",
            Endpoint::KernelCommand(KernelCommand::SignIn) => "/api/kernel/commands/sign_in",
            Endpoint::KernelCommand(KernelCommand::CompleteSignIn) => "/api/kernel/commands/complete_sign_in",
            Endpoint::KernelCommand(KernelCommand::RevokeSession) => "/api/kernel/commands/revoke_session",
            Endpoint::KernelCommand(KernelCommand::VerifyEmail) => "/api/kernel/commands/verify_email",
            Endpoint::KernelCommand(KernelCommand::DeleteMyAccount) => "/api/kernel/commands/delete_my_account",
            Endpoint::KernelCommand(KernelCommand::CompleteTwoFaSetup) => "/api/kernel/commands/complete_two_fa_setup",
            Endpoint::KernelCommand(KernelCommand::SetupTwoFa) => "/api/kernel/commands/setup_two_fa",
            Endpoint::KernelCommand(KernelCommand::DisableTwoFa) => "/api/kernel/commands/disable_two_fa",
            Endpoint::KernelCommand(KernelCommand::CompleteTwoFaChallenge) => "/api/kernel/commands/complete_two_fa_challenge",
            Endpoint::KernelCommand(KernelCommand::UpdateMyProfile) => "/api/kernel/commands/update_my_profile",
            Endpoint::KernelCommand(KernelCommand::CreateGroup) => "/api/kernel/commands/create_group",
            Endpoint::KernelCommand(KernelCommand::DeleteGroup) => "/api/kernel/commands/delete_group",
            Endpoint::KernelCommand(KernelCommand::UpdateGroupProfile) => "/api/kernel/commands/update_group_profile",
            Endpoint::KernelCommand(KernelCommand::QuitGroup) => "/api/kernel/commands/quit_group",
            Endpoint::KernelCommand(KernelCommand::InvitePeopleInGroup) => "/api/kernel/commands/invite_people_in_group",
            Endpoint::KernelCommand(KernelCommand::AcceptGroupInvitation) => "/api/kernel/commands/accept_group_invitation",
            Endpoint::KernelCommand(KernelCommand::DeclineGroupInvitation) => "/api/kernel/commands/decline_group_invitation",
            Endpoint::KernelCommand(KernelCommand::CancelGroupInvitation) => "/api/kernel/commands/cancel_group_invitation",
            Endpoint::KernelCommand(KernelCommand::RemoveMemberFromGroup) => "/api/kernel/commands/remove_member_from_group",
            Endpoint::KernelCommand(KernelCommand::UpdateBillingInformation) => "/api/kernel/commands/update_billing_information",
            Endpoint::KernelCommand(KernelCommand::SyncCustomerWithProvider) => "/api/kernel/commands/sync_customer_with_provider",
            Endpoint::KernelQuery(KernelQuery::SignedUploadUrl) => "/api/kernel/queries/signed_upload_url",
            Endpoint::KernelQuery(KernelQuery::Me) => "/api/kernel/queries/me",
            Endpoint::KernelQuery(KernelQuery::Markdown) => "/api/kernel/queries/markdown",
            Endpoint::KernelQuery(KernelQuery::GenerateQrCode) => "/api/kernel/queries/generate_qr_code",
            Endpoint::KernelQuery(KernelQuery::MyGroupInvitations) => "/api/kernel/queries/my_group_invitations",
            Endpoint::KernelQuery(KernelQuery::MySessions) => "/api/kernel/queries/my_sessions",
            Endpoint::KernelQuery(KernelQuery::Group) => "/api/kernel/queries/group",
            Endpoint::KernelQuery(KernelQuery::GroupWithMembersAndInvitations) => "/api/kernel/queries/group_with_members_and_invitations",
            Endpoint::KernelQuery(KernelQuery::StripePublicKey) => "/api/kernel/queries/stripe_public_key",
            Endpoint::KernelQuery(KernelQuery::BillingInformation) => "/api/kernel/queries/billing_information",
            Endpoint::KernelQuery(KernelQuery::CheckoutSession) => "/api/kernel/queries/checkout_session",
            Endpoint::KernelQuery(KernelQuery::CustomerPortal) => "/api/kernel/queries/customer_portal",
            Endpoint::FilesCommand(FilesCommand::MoveFilesToTrash) => "/api/files/commands/move_files_to_trash",
            Endpoint::FilesCommand(FilesCommand::RestoreFilesFromTrash) => "/api/files/commands/restore_files_from_trash",
            Endpoint::FilesCommand(FilesCommand::EmptyTrash) => "/api/files/commands/empty_trash",
            Endpoint::FilesCommand(FilesCommand::MoveFiles) => "/api/files/commands/move_files",
            Endpoint::FilesCommand(FilesCommand::CreateFolder) => "/api/files/commands/create_folder",
            Endpoint::FilesCommand(FilesCommand::RenameFile) => "/api/files/commands/rename_file",
            Endpoint::FilesCommand(FilesCommand::CompleteFileUpload) => "/api/files/commands/complete_file_upload",
            Endpoint::FilesQuery(FilesQuery::File) => "/api/files/queries/file",
            Endpoint::FilesQuery(FilesQuery::Trash) => "/api/files/queries/trash",
            Endpoint::FilesQuery(FilesQuery::FileDownloadUrl) => "/api/files/queries/file_download_url",
            Endpoint::AnalyticsEvent(AnalyticsEvent::Track) => "/api/a/events/t",
            Endpoint::AnalyticsEvent(AnalyticsEvent::Page) => "/api/a/events/p",
            Endpoint::AnalyticsQuery(AnalyticsQuery::Analytics) => "/api/a/queries/a",
            Endpoint::InboxCommand(InboxCommand::CreateContact) => "/api/inbox/commands/create_contact",
            Endpoint::InboxCommand(InboxCommand::DeleteContact) => "/api/inbox/commands/delete_contact",
            Endpoint::InboxCommand(InboxCommand::ImportContacts) => "/api/inbox/commands/import_contacts",
            Endpoint::InboxCommand(InboxCommand::UpdateContact) => "/api/inbox/commands/update_contact",
            Endpoint::InboxCommand(InboxCommand::SendMessage) => "/api/inbox/commands/send_message",
            Endpoint::InboxCommand(InboxCommand::SendChatboxMessage) => "/api/inbox/commands/send_chatbox_message",
            Endpoint::InboxCommand(InboxCommand::UpdateChatboxPreferences) => "/api/inbox/commands/update_chatbox_preferences",
            Endpoint::InboxCommand(InboxCommand::LinkChatboxContact) => "/api/inbox/commands/link_chatbox_contact",
            Endpoint::InboxQuery(InboxQuery::Contact) => "/api/inbox/queries/contact",
            Endpoint::InboxQuery(InboxQuery::Contacts) => "/api/inbox/queries/contacts",
            Endpoint::InboxQuery(InboxQuery::ChatboxPreferences) => "/api/inbox/queries/chatbox_preferences",
            Endpoint::InboxQuery(InboxQuery::ChatboxMessages) => "/api/inbox/queries/chatbox_messages",
            Endpoint::InboxQuery(InboxQuery::Inbox) => "/api/inbox/queries/inbox",
            Endpoint::InboxQuery(InboxQuery::Trash) => "/api/inbox/queries/trash",
            Endpoint::InboxQuery(InboxQuery::Archive) => "/api/inbox/queries/archive",
            Endpoint::InboxQuery(InboxQuery::Spam) => "/api/inbox/queries/spam",
            Endpoint::NewsletterCommand(NewsletterCommand::CreateList) => "/api/newsletter/commands/create_list",
            Endpoint::NewsletterCommand(NewsletterCommand::CreateMessage) => "/api/newsletter/commands/create_message",
            Endpoint::NewsletterCommand(NewsletterCommand::DeleteList) => "/api/newsletter/commands/delete_list",
            Endpoint::NewsletterCommand(NewsletterCommand::DeleteMessage) => "/api/newsletter/commands/delete_message",
            Endpoint::NewsletterCommand(NewsletterCommand::SendMessage) => "/api/newsletter/commands/send_message",
            Endpoint::NewsletterCommand(NewsletterCommand::SendTestMessage) => "/api/newsletter/commands/send_test_message",
            Endpoint::NewsletterCommand(NewsletterCommand::UpdateList) => "/api/newsletter/commands/update_list",
            Endpoint::NewsletterCommand(NewsletterCommand::UpdateMessage) => "/api/newsletter/commands/update_message",
            Endpoint::NewsletterCommand(NewsletterCommand::SubscribeToList) => "/api/newsletter/commands/subscribe_to_list",
            Endpoint::NewsletterCommand(NewsletterCommand::UnsubscribeFromList) => "/api/newsletter/commands/unsubscribe_from_list",
            Endpoint::NewsletterQuery(NewsletterQuery::List) => "/api/newsletter/queries/list",
            Endpoint::NewsletterQuery(NewsletterQuery::Lists) => "/api/newsletter/queries/lists",
            Endpoint::NewsletterQuery(NewsletterQuery::Message) => "/api/newsletter/queries/message",
            Endpoint::NewsletterQuery(NewsletterQuery::Messages) => "/api/newsletter/queries/messages",
        }
    }

    /// The method the endpoint answers: `GET` for the API root, `POST` for
    /// every command and query.
    pub open spec fn spec_method(self) -> Method {
        match self {
            Endpoint::Index => Method::Get,
            _ => Method::Post,
        }
    }

    /// The method the endpoint answers.
    pub fn method(&self) -> (m: Method)
        ensures
            m == self.spec_method(),
    {
        match self {
            Endpoint::Index => Method::Get,
            _ => Method::Post,
        }
    }

    /// The service scope the endpoint is registered in; the API root is in none.
    pub open spec fn spec_scope(self) -> Option<ApiScope> {
        match self {
            Endpoint::Index => None,
            Endpoint::KernelCommand(_) => Some(ApiScope::Kernel),
            Endpoint::KernelQuery(_) => Some(ApiScope::Kernel),
            Endpoint::FilesCommand(_) => Some(ApiScope::Files),
            Endpoint::FilesQuery(_) => Some(ApiScope::Files),
            Endpoint::AnalyticsEvent(_) => Some(ApiScope::Analytics),
            Endpoint::AnalyticsQuery(_) => Some(ApiScope::Analytics),
            Endpoint::InboxCommand(_) => Some(ApiScope::Inbox),
            Endpoint::InboxQuery(_) => Some(ApiScope::Inbox),
            Endpoint::NewsletterCommand(_) => Some(ApiScope::Newsletter),
            Endpoint::NewsletterQuery(_) => Some(ApiScope::Newsletter),
        }
    }

    /// The section of its service scope that the endpoint is registered in:
    /// `/commands`, `/queries` or, for analytics, `/events`; empty for the
    /// API root.
    pub open spec fn spec_section(self) -> Seq<char> {
        match self {
            Endpoint::Index => Seq::empty(),
            Endpoint::KernelCommand(_) => "/commands"@,
            Endpoint::KernelQuery(_) => "/queries"@,
            Endpoint::FilesCommand(_) => "/commands"@,
            Endpoint::FilesQuery(_) => "/queries"@,
            Endpoint::AnalyticsEvent(_) => "/events"@,
            Endpoint::AnalyticsQuery(_) => "/queries"@,
            Endpoint::InboxCommand(_) => "/commands"@,
            Endpoint::InboxQuery(_) => "/queries"@,
            Endpoint::NewsletterCommand(_) => "/commands"@,
            Endpoint::NewsletterQuery(_) => "/queries"@,
        }
    }

    /// The last segment of the endpoint's path; empty for the API root.
    pub open spec fn spec_segment(self) -> Seq<char> {
        match self {
            Endpoint::Index => Seq::empty(),
            Endpoint::KernelCommand(x) => x.spec_segment(),
            Endpoint::KernelQuery(x) => x.spec_segment(),
            Endpoint::FilesCommand(x) => x.spec_segment(),
            Endpoint::FilesQuery(x) => x.spec_segment(),
            Endpoint::AnalyticsEvent(x) => x.spec_segment(),
            Endpoint::AnalyticsQuery(x) => x.spec_segment(),
            Endpoint::InboxCommand(x) => x.spec_segment(),
            Endpoint::InboxQuery(x) => x.spec_segment(),
            Endpoint::NewsletterCommand(x) => x.spec_segment(),
            Endpoint::NewsletterQuery(x) => x.spec_segment(),
        }
    }

    /// The service scope the endpoint is registered in.
    pub fn scope(&self) -> (s: Option<ApiScope>)
        ensures
            s == self.spec_scope(),
    {
        match self {
            Endpoint::Index => None,
            Endpoint::KernelCommand(_) => Some(ApiScope::Kernel),
            Endpoint::KernelQuery(_) => Some(ApiScope::Kernel),
            Endpoint::FilesCommand(_) => Some(ApiScope::Files),
            Endpoint::FilesQuery(_) => Some(ApiScope::Files),
            Endpoint::AnalyticsEvent(_) => Some(ApiScope::Analytics),
            Endpoint::AnalyticsQuery(_) => Some(ApiScope::Analytics),
            Endpoint::InboxCommand(_) => Some(ApiScope::Inbox),
            Endpoint::InboxQuery(_) => Some(ApiScope::Inbox),
            Endpoint::NewsletterCommand(_) => Some(ApiScope::Newsletter),
            Endpoint::NewsletterQuery(_) => Some(ApiScope::Newsletter),
        }
    }
}

/// All endpoints, in the order the server registers them.
pub open spec fn endpoints() -> Seq<Endpoint> {
    seq![
        Endpoint::Index,
        Endpoint::KernelCommand(KernelCommand::Register),
        Endpoint::KernelCommand(KernelCommand::CompleteRegistration),
        Endpoint::KernelCommand(KernelCommand::SignIn),
        Endpoint::KernelCommand(KernelCommand::CompleteSignIn),
        Endpoint::KernelCommand(KernelCommand::RevokeSession),
        Endpoint::KernelCommand(KernelCommand::VerifyEmail),
        Endpoint::KernelCommand(KernelCommand::DeleteMyAccount),
        Endpoint::KernelCommand(KernelCommand::CompleteTwoFaSetup),
        Endpoint::KernelCommand(KernelCommand::SetupTwoFa),
        Endpoint::KernelCommand(KernelCommand::DisableTwoFa),
        Endpoint::KernelCommand(KernelCommand::CompleteTwoFaChallenge),
        Endpoint::KernelCommand(KernelCommand::UpdateMyProfile),
        Endpoint::KernelCommand(KernelCommand::CreateGroup),
        Endpoint::KernelCommand(KernelCommand::DeleteGroup),
        Endpoint::KernelCommand(KernelCommand::UpdateGroupProfile),
        Endpoint::KernelCommand(KernelCommand::QuitGroup),
        Endpoint::KernelCommand(KernelCommand::InvitePeopleInGroup),
        Endpoint::KernelCommand(KernelCommand::AcceptGroupInvitation),
        Endpoint::KernelCommand(KernelCommand::DeclineGroupInvitation),
        Endpoint::KernelCommand(KernelCommand::CancelGroupInvitation),
        Endpoint::KernelCommand(KernelCommand::RemoveMemberFromGroup),
        Endpoint::KernelCommand(KernelCommand::UpdateBillingInformation),
        Endpoint::KernelCommand(KernelCommand::SyncCustomerWithProvider),
        Endpoint::KernelQuery(KernelQuery::SignedUploadUrl),
        Endpoint::KernelQuery(KernelQuery::Me),
        Endpoint::KernelQuery(KernelQuery::Markdown),
        Endpoint::KernelQuery(KernelQuery::GenerateQrCode),
        Endpoint::KernelQuery(KernelQuery::MyGroupInvitations),
        Endpoint::KernelQuery(KernelQuery::MySessions),
        Endpoint::KernelQuery(KernelQuery::Group),
        Endpoint::KernelQuery(KernelQuery::GroupWithMembersAndInvitations),
        Endpoint::KernelQuery(KernelQuery::StripePublicKey),
        Endpoint::KernelQuery(KernelQuery::BillingInformation),
        Endpoint::KernelQuery(KernelQuery::CheckoutSession),
        Endpoint::KernelQuery(KernelQuery::CustomerPortal),
        Endpoint::FilesCommand(FilesCommand::MoveFilesToTrash),
        Endpoint::FilesCommand(FilesCommand::RestoreFilesFromTrash),
        Endpoint::FilesCommand(FilesCommand::EmptyTrash),
        Endpoint::FilesCommand(FilesCommand::MoveFiles),
        Endpoint::FilesCommand(FilesCommand::CreateFolder),
        Endpoint::FilesCommand(FilesCommand::RenameFile),
        Endpoint::FilesCommand(FilesCommand::CompleteFileUpload),
        Endpoint::FilesQuery(FilesQuery::File),
        Endpoint::FilesQuery(FilesQuery::Trash),
        Endpoint::FilesQuery(FilesQuery::FileDownloadUrl),
        Endpoint::AnalyticsEvent(AnalyticsEvent::Track),
        Endpoint::AnalyticsEvent(AnalyticsEvent::Page),
        Endpoint::AnalyticsQuery(AnalyticsQuery::Analytics),
        Endpoint::InboxCommand(InboxCommand::CreateContact),
        Endpoint::InboxCommand(InboxCommand::DeleteContact),
        Endpoint::InboxCommand(InboxCommand::ImportContacts),
        Endpoint::InboxCommand(InboxCommand::UpdateContact),
        Endpoint::InboxCommand(InboxCommand::SendMessage),
        Endpoint::InboxCommand(InboxCommand::SendChatboxMessage),
        Endpoint::InboxCommand(InboxCommand::UpdateChatboxPreferences),
        Endpoint::InboxCommand(InboxCommand::LinkChatboxContact),
        Endpoint::InboxQuery(InboxQuery::Contact),
        Endpoint::InboxQuery(InboxQuery::Contacts),
        Endpoint::InboxQuery(InboxQuery::ChatboxPreferences),
        Endpoint::InboxQuery(InboxQuery::ChatboxMessages),
        Endpoint::InboxQuery(InboxQuery::Inbox),
        Endpoint::InboxQuery(InboxQuery::Trash),
        Endpoint::InboxQuery(InboxQuery::Archive),
        Endpoint::InboxQuery(InboxQuery::Spam),
        Endpoint::NewsletterCommand(NewsletterCommand::CreateList),
        Endpoint::NewsletterCommand(NewsletterCommand::CreateMessage),
        Endpoint::NewsletterCommand(NewsletterCommand::DeleteList),
        Endpoint::NewsletterCommand(NewsletterCommand::DeleteMessage),
        Endpoint::NewsletterCommand(NewsletterCommand::SendMessage),
        Endpoint::NewsletterCommand(NewsletterCommand::SendTestMessage),
        Endpoint::NewsletterCommand(NewsletterCommand::UpdateList),
        Endpoint::NewsletterCommand(NewsletterCommand::UpdateMessage),
        Endpoint::NewsletterCommand(NewsletterCommand::SubscribeToList),
        Endpoint::NewsletterCommand(NewsletterCommand::UnsubscribeFromList),
        Endpoint::NewsletterQuery(NewsletterQuery::List),
        Endpoint::NewsletterQuery(NewsletterQuery::Lists),
        Endpoint::NewsletterQuery(NewsletterQuery::Message),
        Endpoint::NewsletterQuery(NewsletterQuery::Messages),
    ]
}

/// All endpoints, in the order the server registers them.
#[verifier::rlimit(100)]
pub fn all_endpoints() -> (table: Vec<Endpoint>)
    ensures
        table@ == endpoints(),
{
    let mut table: Vec<Endpoint> = Vec::new();
    table.push(Endpoint::Index);
    table.push(Endpoint::KernelCommand(KernelCommand::Register));
    table.push(Endpoint::KernelCommand(KernelCommand::CompleteRegistration));
    table.push(Endpoint::KernelCommand(KernelCommand::SignIn));
    table.push(Endpoint::KernelCommand(KernelCommand::CompleteSignIn));
    table.push(Endpoint::KernelCommand(KernelCommand::RevokeSession));
    table.push(Endpoint::KernelCommand(KernelCommand::VerifyEmail));
    table.push(Endpoint::KernelCommand(KernelCommand::DeleteMyAccount));
    table.push(Endpoint::KernelCommand(KernelCommand::CompleteTwoFaSetup));
    table.push(Endpoint::KernelCommand(KernelCommand::SetupTwoFa));
    table.push(Endpoint::KernelCommand(KernelCommand::DisableTwoFa));
    table.push(Endpoint::KernelCommand(KernelCommand::CompleteTwoFaChallenge));
    table.push(Endpoint::KernelCommand(KernelCommand::UpdateMyProfile));
    table.push(Endpoint::KernelCommand(KernelCommand::CreateGroup));
    table.push(Endpoint::KernelCommand(KernelCommand::DeleteGroup));
    table.push(Endpoint::KernelCommand(KernelCommand::UpdateGroupProfile));
    table.push(Endpoint::KernelCommand(KernelCommand::QuitGroup));
    table.push(Endpoint::KernelCommand(KernelCommand::InvitePeopleInGroup));
    table.push(Endpoint::KernelCommand(KernelCommand::AcceptGroupInvitation));
    table.push(Endpoint::KernelCommand(KernelCommand::DeclineGroupInvitation));
    table.push(Endpoint::KernelCommand(KernelCommand::CancelGroupInvitation));
    table.push(Endpoint::KernelCommand(KernelCommand::RemoveMemberFromGroup));
    table.push(Endpoint::KernelCommand(KernelCommand::UpdateBillingInformation));
    table.push(Endpoint::KernelCommand(KernelCommand::SyncCustomerWithProvider));
    table.push(Endpoint::KernelQuery(KernelQuery::SignedUploadUrl));
    table.push(Endpoint::KernelQuery(KernelQuery::Me));
    table.push(Endpoint::KernelQuery(KernelQuery::Markdown));
    table.push(Endpoint::KernelQuery(KernelQuery::GenerateQrCode));
    table.push(Endpoint::KernelQuery(KernelQuery::MyGroupInvitations));
    table.push(Endpoint::KernelQuery(KernelQuery::MySessions));
    table.push(Endpoint::KernelQuery(KernelQuery::Group));
    table.push(Endpoint::KernelQuery(KernelQuery::GroupWithMembersAndInvitations));
    table.push(Endpoint::KernelQuery(KernelQuery::StripePublicKey));
    table.push(Endpoint::KernelQuery(KernelQuery::BillingInformation));
    table.push(Endpoint::KernelQuery(KernelQuery::CheckoutSession));
    table.push(Endpoint::KernelQuery(KernelQuery::CustomerPortal));
    table.push(Endpoint::FilesCommand(FilesCommand::MoveFilesToTrash));
    table.push(Endpoint::FilesCommand(FilesCommand::RestoreFilesFromTrash));
    table.push(Endpoint::FilesCommand(FilesCommand::EmptyTrash));
    table.push(Endpoint::FilesCommand(FilesCommand::MoveFiles));
    table.push(Endpoint::FilesCommand(FilesCommand::CreateFolder));
    table.push(Endpoint::FilesCommand(FilesCommand::RenameFile));
    table.push(Endpoint::FilesCommand(FilesCommand::CompleteFileUpload));
    table.push(Endpoint::FilesQuery(FilesQuery::File));
    table.push(Endpoint::FilesQuery(FilesQuery::Trash));
    table.push(Endpoint::FilesQuery(FilesQuery::FileDownloadUrl));
    table.push(Endpoint::AnalyticsEvent(AnalyticsEvent::Track));
    table.push(Endpoint::AnalyticsEvent(AnalyticsEvent::Page));
    table.push(Endpoint::AnalyticsQuery(AnalyticsQuery::Analytics));
    table.push(Endpoint::InboxCommand(InboxCommand::CreateContact));
    table.push(Endpoint::InboxCommand(InboxCommand::DeleteContact));
    table.push(Endpoint::InboxCommand(InboxCommand::ImportContacts));
    table.push(Endpoint::InboxCommand(InboxCommand::UpdateContact));
    table.push(Endpoint::InboxCommand(InboxCommand::SendMessage));
    table.push(Endpoint::InboxCommand(InboxCommand::SendChatboxMessage));
    table.push(Endpoint::InboxCommand(InboxCommand::UpdateChatboxPreferences));
    table.push(Endpoint::InboxCommand(InboxCommand::LinkChatboxContact));
    table.push(Endpoint::InboxQuery(InboxQuery::Contact));
    table.push(Endpoint::InboxQuery(InboxQuery::Contacts));
    table.push(Endpoint::InboxQuery(InboxQuery::ChatboxPreferences));
    table.push(Endpoint::InboxQuery(InboxQuery::ChatboxMessages));
    table.push(Endpoint::InboxQuery(InboxQuery::Inbox));
    table.push(Endpoint::InboxQuery(InboxQuery::Trash));
    table.push(Endpoint::InboxQuery(InboxQuery::Archive));
    table.push(Endpoint::InboxQuery(InboxQuery::Spam));
    table.push(Endpoint::NewsletterCommand(NewsletterCommand::CreateList));
    table.push(Endpoint::NewsletterCommand(NewsletterCommand::CreateMessage));
    table.push(Endpoint::NewsletterCommand(NewsletterCommand::DeleteList));
    table.push(Endpoint::NewsletterCommand(NewsletterCommand::DeleteMessage));
    table.push(Endpoint::NewsletterCommand(NewsletterCommand::SendMessage));
    table.push(Endpoint::NewsletterCommand(NewsletterCommand::SendTestMessage));
    table.push(Endpoint::NewsletterCommand(NewsletterCommand::UpdateList));
    table.push(Endpoint::NewsletterCommand(NewsletterCommand::UpdateMessage));
    table.push(Endpoint::NewsletterCommand(NewsletterCommand::SubscribeToList));
    table.push(Endpoint::NewsletterCommand(NewsletterCommand::UnsubscribeFromList));
    table.push(Endpoint::NewsletterQuery(NewsletterQuery::List));
    table.push(Endpoint::NewsletterQuery(NewsletterQuery::Lists));
    table.push(Endpoint::NewsletterQuery(NewsletterQuery::Message));
    table.push(Endpoint::NewsletterQuery(NewsletterQuery::Messages));
    assert(table@ =~= endpoints());
    table
}

/// Every endpoint is in [`endpoints`].
pub proof fn lemma_endpoints_complete(e: Endpoint)
    ensures
        endpoints().contains(e),
{
    let all = endpoints();
    match e {
        Endpoint::Index => assert(all[0] == e),
        Endpoint::KernelCommand(KernelCommand::Register) => assert(all[1] == e),
        Endpoint::KernelCommand(KernelCommand::CompleteRegistration) => assert(all[2] == e),
        Endpoint::KernelCommand(KernelCommand::SignIn) => assert(all[3] == e),
        Endpoint::KernelCommand(KernelCommand::CompleteSignIn) => assert(all[4] == e),
        Endpoint::KernelCommand(KernelCommand::RevokeSession) => assert(all[5] == e),
        Endpoint::KernelCommand(KernelCommand::VerifyEmail) => assert(all[6] == e),
        Endpoint::KernelCommand(KernelCommand::DeleteMyAccount) => assert(all[7] == e),
        Endpoint::KernelCommand(KernelCommand::CompleteTwoFaSetup) => assert(all[8] == e),
        Endpoint::KernelCommand(KernelCommand::SetupTwoFa) => assert(all[9] == e),
        Endpoint::KernelCommand(KernelCommand::DisableTwoFa) => assert(all[10] == e),
        Endpoint::KernelCommand(KernelCommand::CompleteTwoFaChallenge) => assert(all[11] == e),
        Endpoint::KernelCommand(KernelCommand::UpdateMyProfile) => assert(all[12] == e),
        Endpoint::KernelCommand(KernelCommand::CreateGroup) => assert(all[13] == e),
        Endpoint::KernelCommand(KernelCommand::DeleteGroup) => assert(all[14] == e),
        Endpoint::KernelCommand(KernelCommand::UpdateGroupProfile) => assert(all[15] == e),
        Endpoint::KernelCommand(KernelCommand::QuitGroup) => assert(all[16] == e),
        Endpoint::KernelCommand(KernelCommand::InvitePeopleInGroup) => assert(all[17] == e),
        Endpoint::KernelCommand(KernelCommand::AcceptGroupInvitation) => assert(all[18] == e),
        Endpoint::KernelCommand(KernelCommand::DeclineGroupInvitation) => assert(all[19] == e),
        Endpoint::KernelCommand(KernelCommand::CancelGroupInvitation) => assert(all[20] == e),
        Endpoint::KernelCommand(KernelCommand::RemoveMemberFromGroup) => assert(all[21] == e),
        Endpoint::KernelCommand(KernelCommand::UpdateBillingInformation) => assert(all[22] == e),
        Endpoint::KernelCommand(KernelCommand::SyncCustomerWithProvider) => assert(all[23] == e),
        Endpoint::KernelQuery(KernelQuery::SignedUploadUrl) => assert(all[24] == e),
        Endpoint::KernelQuery(KernelQuery::Me) => assert(all[25] == e),
        Endpoint::KernelQuery(KernelQuery::Markdown) => assert(all[26] == e),
        Endpoint::KernelQuery(KernelQuery::GenerateQrCode) => assert(all[27] == e),
        Endpoint::KernelQuery(KernelQuery::MyGroupInvitations) => assert(all[28] == e),
        Endpoint::KernelQuery(KernelQuery::MySessions) => assert(all[29] == e),
        Endpoint::KernelQuery(KernelQuery::Group) => assert(all[30] == e),
        Endpoint::KernelQuery(KernelQuery::GroupWithMembersAndInvitations) => assert(all[31] == e),
        Endpoint::KernelQuery(KernelQuery::StripePublicKey) => assert(all[32] == e),
        Endpoint::KernelQuery(KernelQuery::BillingInformation) => assert(all[33] == e),
        Endpoint::KernelQuery(KernelQuery::CheckoutSession) => assert(all[34] == e),
        Endpoint::KernelQuery(KernelQuery::CustomerPortal) => assert(all[35] == e),
        Endpoint::FilesCommand(FilesCommand::MoveFilesToTrash) => assert(all[36] == e),
        Endpoint::FilesCommand(FilesCommand::RestoreFilesFromTrash) => assert(all[37] == e),
        Endpoint::FilesCommand(FilesCommand::EmptyTrash) => assert(all[38] == e),
        Endpoint::FilesCommand(FilesCommand::MoveFiles) => assert(all[39] == e),
        Endpoint::FilesCommand(FilesCommand::CreateFolder) => assert(all[40] == e),
        Endpoint::FilesCommand(FilesCommand::RenameFile) => assert(all[41] == e),
        Endpoint::FilesCommand(FilesCommand::CompleteFileUpload) => assert(all[42] == e),
        Endpoint::FilesQuery(FilesQuery::File) => assert(all[43] == e),
        Endpoint::FilesQuery(FilesQuery::Trash) => assert(all[44] == e),
        Endpoint::FilesQuery(FilesQuery::FileDownloadUrl) => assert(all[45] == e),
        Endpoint::AnalyticsEvent(AnalyticsEvent::Track) => assert(all[46] == e),
        Endpoint::AnalyticsEvent(AnalyticsEvent::Page) => assert(all[47] == e),
        Endpoint::AnalyticsQuery(AnalyticsQuery::Analytics) => assert(all[48] == e),
        Endpoint::InboxCommand(InboxCommand::CreateContact) => assert(all[49] == e),
        Endpoint::InboxCommand(InboxCommand::DeleteContact) => assert(all[50] == e),
        Endpoint::InboxCommand(InboxCommand::ImportContacts) => assert(all[51] == e),
        Endpoint::InboxCommand(InboxCommand::UpdateContact) => assert(all[52] == e),
        Endpoint::InboxCommand(InboxCommand::SendMessage) => assert(all[53] == e),
        Endpoint::InboxCommand(InboxCommand::SendChatboxMessage) => assert(all[54] == e),
        Endpoint::InboxCommand(InboxCommand::UpdateChatboxPreferences) => assert(all[55] == e),
        Endpoint::InboxCommand(InboxCommand::LinkChatboxContact) => assert(all[56] == e),
        Endpoint::InboxQuery(InboxQuery::Contact) => assert(all[57] == e),
        Endpoint::InboxQuery(InboxQuery::Contacts) => assert(all[58] == e),
        Endpoint::InboxQuery(InboxQuery::ChatboxPreferences) => assert(all[59] == e),
        Endpoint::InboxQuery(InboxQuery::ChatboxMessages) => assert(all[60] == e),
        Endpoint::InboxQuery(InboxQuery::Inbox) => assert(all[61] == e),
        Endpoint::InboxQuery(InboxQuery::Trash) => assert(all[62] == e),
        Endpoint::InboxQuery(InboxQuery::Archive) => assert(all[63] == e),
        Endpoint::InboxQuery(InboxQuery::Spam) => assert(all[64] == e),
        Endpoint::NewsletterCommand(NewsletterCommand::CreateList) => assert(all[65] == e),
        Endpoint::NewsletterCommand(NewsletterCommand::CreateMessage) => assert(all[66] == e),
        Endpoint::NewsletterCommand(NewsletterCommand::DeleteList) => assert(all[67] == e),
        Endpoint::NewsletterCommand(NewsletterCommand::DeleteMessage) => assert(all[68] == e),
        Endpoint::NewsletterCommand(NewsletterCommand::SendMessage) => assert(all[69] == e),
        Endpoint::NewsletterCommand(NewsletterCommand::SendTestMessage) => assert(all[70] == e),
        Endpoint::NewsletterCommand(NewsletterCommand::UpdateList) => assert(all[71] == e),
        Endpoint::NewsletterCommand(NewsletterCommand::UpdateMessage) => assert(all[72] == e),
        Endpoint::NewsletterCommand(NewsletterCommand::SubscribeToList) => assert(all[73] == e),
        Endpoint::NewsletterCommand(NewsletterCommand::UnsubscribeFromList) => assert(all[74] == e),
        Endpoint::NewsletterQuery(NewsletterQuery::List) => assert(all[75] == e),
        Endpoint::NewsletterQuery(NewsletterQuery::Lists) => assert(all[76] == e),
        Endpoint::NewsletterQuery(NewsletterQuery::Message) => assert(all[77] == e),
        Endpoint::NewsletterQuery(NewsletterQuery::Messages) => assert(all[78] == e),
    }
}

/// The endpoint, if any, whose path has the length of `p` and, where other
/// endpoints' paths have that length too, the characters of `p` at the
/// positions where those paths differ.
spec fn endpoint_by_signature(p: Seq<char>) -> Option<Endpoint> {
    if p.len() == 4 {
        Some(Endpoint::Index)
    } else if p.len() == 29 && p[5] == 'k' {
        Some(Endpoint::KernelCommand(KernelCommand::Register))
    } else if p.len() == 42 && p[32] == 'g' {
        Some(Endpoint::KernelCommand(KernelCommand::CompleteRegistration))
    } else if p.len() == 28 && p[12] == 'c' {
        Some(Endpoint::KernelCommand(KernelCommand::SignIn))
    } else if p.len() == 37 && p[21] == 'c' {
        Some(Endpoint::KernelCommand(KernelCommand::CompleteSignIn))
    } else if p.len() == 35 && p[21] == 'r' {
        Some(Endpoint::KernelCommand(KernelCommand::RevokeSession))
    } else if p.len() == 33 && p[21] == 'v' {
        Some(Endpoint::KernelCommand(KernelCommand::VerifyEmail))
    } else if p.len() == 38 && p[21] == 'd' {
        Some(Endpoint::KernelCommand(KernelCommand::DeleteMyAccount))
    } else if p.len() == 42 && p[32] == 'o' {
        Some(Endpoint::KernelCommand(KernelCommand::CompleteTwoFaSetup))
    } else if p.len() == 33 && p[21] == 's' {
        Some(Endpoint::KernelCommand(KernelCommand::SetupTwoFa))
    } else if p.len() == 35 && p[21] == 'd' {
        Some(Endpoint::KernelCommand(KernelCommand::DisableTwoFa))
    } else if p.len() == 46 && p[5] == 'k' {
        Some(Endpoint::KernelCommand(KernelCommand::CompleteTwoFaChallenge))
    } else if p.len() == 38 && p[21] == 'u' {
        Some(Endpoint::KernelCommand(KernelCommand::UpdateMyProfile))
    } else if p.len() == 33 && p[21] == 'c' {
        Some(Endpoint::KernelCommand(KernelCommand::CreateGroup))
    } else if p.len() == 33 && p[21] == 'd' {
        Some(Endpoint::KernelCommand(KernelCommand::DeleteGroup))
    } else if p.len() == 41 {
        Some(Endpoint::KernelCommand(KernelCommand::UpdateGroupProfile))
    } else if p.len() == 31 && p[20] == '/' {
        Some(Endpoint::KernelCommand(KernelCommand::QuitGroup))
    } else if p.len() == 43 {
        Some(Endpoint::KernelCommand(KernelCommand::InvitePeopleInGroup))
    } else if p.len() == 44 && p[21] == 'a' {
        Some(Endpoint::KernelCommand(KernelCommand::AcceptGroupInvitation))
    } else if p.len() == 45 && p[21] == 'd' {
        Some(Endpoint::KernelCommand(KernelCommand::DeclineGroupInvitation))
    } else if p.len() == 44 && p[21] == 'c' {
        Some(Endpoint::KernelCommand(KernelCommand::CancelGroupInvitation))
    } else if p.len() == 45 && p[21] == 'r' {
        Some(Endpoint::KernelCommand(KernelCommand::RemoveMemberFromGroup))
    } else if p.len() == 47 {
        Some(Endpoint::KernelCommand(KernelCommand::UpdateBillingInformation))
    } else if p.len() == 48 {
        Some(Endpoint::KernelCommand(KernelCommand::SyncCustomerWithProvider))
    } else if p.len() == 37 && p[21] == 'i' {
        Some(Endpoint::KernelQuery(KernelQuery::SignedUploadUrl))
    } else if p.len() == 22 {
        Some(Endpoint::KernelQuery(KernelQuery::Me))
    } else if p.len() == 28 && p[12] == 'q' {
        Some(Endpoint::KernelQuery(KernelQuery::Markdown))
    } else if p.len() == 36 && p[26] == 't' {
        Some(Endpoint::KernelQuery(KernelQuery::GenerateQrCode))
    } else if p.len() == 40 && p[20] == 'm' {
        Some(Endpoint::KernelQuery(KernelQuery::MyGroupInvitations))
    } else if p.len() == 31 && p[20] == 'm' {
        Some(Endpoint::KernelQuery(KernelQuery::MySessions))
    } else if p.len() == 25 {
        Some(Endpoint::KernelQuery(KernelQuery::Group))
    } else if p.len() == 54 {
        Some(Endpoint::KernelQuery(KernelQuery::GroupWithMembersAndInvitations))
    } else if p.len() == 37 && p[21] == 't' {
        Some(Endpoint::KernelQuery(KernelQuery::StripePublicKey))
    } else if p.len() == 39 && p[25] == 'n' {
        Some(Endpoint::KernelQuery(KernelQuery::BillingInformation))
    } else if p.len() == 36 && p[26] == 'u' {
        Some(Endpoint::KernelQuery(KernelQuery::CheckoutSession))
    } else if p.len() == 35 && p[21] == 'u' {
        Some(Endpoint::KernelQuery(KernelQuery::CustomerPortal))
    } else if p.len() == 39 && p[25] == 'f' {
        Some(Endpoint::FilesCommand(FilesCommand::MoveFilesToTrash))
    } else if p.len() == 44 && p[21] == 'e' {
        Some(Endpoint::FilesCommand(FilesCommand::RestoreFilesFromTrash))
    } else if p.len() == 31 && p[20] == 'e' {
        Some(Endpoint::FilesCommand(FilesCommand::EmptyTrash))
    } else if p.len() == 30 {
        Some(Endpoint::FilesCommand(FilesCommand::MoveFiles))
    } else if p.len() == 33 && p[21] == 'r' {
        Some(Endpoint::FilesCommand(FilesCommand::CreateFolder))
    } else if p.len() == 31 && p[20] == 'r' {
        Some(Endpoint::FilesCommand(FilesCommand::RenameFile))
    } else if p.len() == 40 && p[20] == 'c' {
        Some(Endpoint::FilesCommand(FilesCommand::CompleteFileUpload))
    } else if p.len() == 23 && p[5] == 'f' {
        Some(Endpoint::FilesQuery(FilesQuery::File))
    } else if p.len() == 24 && p[5] == 'f' && p[19] == 't' {
        Some(Endpoint::FilesQuery(FilesQuery::Trash))
    } else if p.len() == 36 && p[26] == 'w' {
        Some(Endpoint::FilesQuery(FilesQuery::FileDownloadUrl))
    } else if p.len() == 15 && p[14] == 't' {
        Some(Endpoint::AnalyticsEvent(AnalyticsEvent::Track))
    } else if p.len() == 15 && p[14] == 'p' {
        Some(Endpoint::AnalyticsEvent(AnalyticsEvent::Page))
    } else if p.len() == 16 {
        Some(Endpoint::AnalyticsQuery(AnalyticsQuery::Analytics))
    } else if p.len() == 34 && p[20] == 'c' {
        Some(Endpoint::InboxCommand(InboxCommand::CreateContact))
    } else if p.len() == 34 && p[20] == 'd' {
        Some(Endpoint::InboxCommand(InboxCommand::DeleteContact))
    } else if p.len() == 35 && p[21] == 'm' {
        Some(Endpoint::InboxCommand(InboxCommand::ImportContacts))
    } else if p.len() == 34 && p[20] == 'u' {
        Some(Endpoint::InboxCommand(InboxCommand::UpdateContact))
    } else if p.len() == 32 && p[5] == 'i' {
        Some(Endpoint::InboxCommand(InboxCommand::SendMessage))
    } else if p.len() == 40 && p[20] == 's' {
        Some(Endpoint::InboxCommand(InboxCommand::SendChatboxMessage))
    } else if p.len() == 46 && p[5] == 'i' {
        Some(Endpoint::InboxCommand(InboxCommand::UpdateChatboxPreferences))
    } else if p.len() == 40 && p[20] == 'l' {
        Some(Endpoint::InboxCommand(InboxCommand::LinkChatboxContact))
    } else if p.len() == 26 && p[19] == 'c' {
        Some(Endpoint::InboxQuery(InboxQuery::Contact))
    } else if p.len() == 27 {
        Some(Endpoint::InboxQuery(InboxQuery::Contacts))
    } else if p.len() == 38 && p[21] == 'a' {
        Some(Endpoint::InboxQuery(InboxQuery::ChatboxPreferences))
    } else if p.len() == 35 && p[21] == 'a' {
        Some(Endpoint::InboxQuery(InboxQuery::ChatboxMessages))
    } else if p.len() == 24 && p[5] == 'i' && p[19] == 'i' {
        Some(Endpoint::InboxQuery(InboxQuery::Inbox))
    } else if p.len() == 24 && p[5] == 'i' && p[19] == 't' {
        Some(Endpoint::InboxQuery(InboxQuery::Trash))
    } else if p.len() == 26 && p[19] == 'a' {
        Some(Endpoint::InboxQuery(InboxQuery::Archive))
    } else if p.len() == 23 && p[5] == 'i' {
        Some(Endpoint::InboxQuery(InboxQuery::Spam))
    } else if p.len() == 36 && p[26] == 'r' {
        Some(Endpoint::NewsletterCommand(NewsletterCommand::CreateList))
    } else if p.len() == 39 && p[25] == 'c' {
        Some(Endpoint::NewsletterCommand(NewsletterCommand::CreateMessage))
    } else if p.len() == 36 && p[26] == 'e' {
        Some(Endpoint::NewsletterCommand(NewsletterCommand::DeleteList))
    } else if p.len() == 39 && p[25] == 'd' {
        Some(Endpoint::NewsletterCommand(NewsletterCommand::DeleteMessage))
    } else if p.len() == 37 && p[21] == 'n' {
        Some(Endpoint::NewsletterCommand(NewsletterCommand::SendMessage))
    } else if p.len() == 42 && p[32] == 's' {
        Some(Endpoint::NewsletterCommand(NewsletterCommand::SendTestMessage))
    } else if p.len() == 36 && p[26] == 'p' {
        Some(Endpoint::NewsletterCommand(NewsletterCommand::UpdateList))
    } else if p.len() == 39 && p[25] == 'u' {
        Some(Endpoint::NewsletterCommand(NewsletterCommand::UpdateMessage))
    } else if p.len() == 42 && p[32] == 'b' {
        Some(Endpoint::NewsletterCommand(NewsletterCommand::SubscribeToList))
    } else if p.len() == 46 && p[5] == 'n' {
        Some(Endpoint::NewsletterCommand(NewsletterCommand::UnsubscribeFromList))
    } else if p.len() == 28 && p[12] == 't' {
        Some(Endpoint::NewsletterQuery(NewsletterQuery::List))
    } else if p.len() == 29 && p[5] == 'n' {
        Some(Endpoint::NewsletterQuery(NewsletterQuery::Lists))
    } else if p.len() == 31 && p[20] == 'i' {
        Some(Endpoint::NewsletterQuery(NewsletterQuery::Message))
    } else if p.len() == 32 && p[5] == 'n' {
        Some(Endpoint::NewsletterQuery(NewsletterQuery::Messages))
    } else {
        None
    }
}

/// What each endpoint's path shows character by character: its signature,
/// and that it lies below `/api` and inside its service scope.
proof fn lemma_path_facts(e: Endpoint)
    ensures
        endpoint_by_signature(e.spec_path()) == Some(e),
        lies_within(e.spec_path(), "/api"@),
        e.spec_scope() matches Some(s) ==> lies_within(e.spec_path(), s.spec_prefix()),
{
    reveal_strlit("/api");
    reveal_strlit("/api/kernel");
    reveal_strlit("/api/files");
    reveal_strlit("/api/a");
    reveal_strlit("/api/inbox");
    reveal_strlit("/api/newsletter");
    match e {
        Endpoint::Index => {
            reveal_strlit("/api");
            assert("/api"@.subrange(0, 4) =~= "/api"@);
        },
        Endpoint::KernelCommand(KernelCommand::Register) => {
            reveal_strlit("/api/kernel/commands/register");
            assert("/api/kernel/commands/register"@.subrange(0, 4) =~= "/api"@);
            assert("/api/kernel/commands/register"@.subrange(0, 11) =~= "/api/kernel"@);
        },
        Endpoint::KernelCommand(KernelCommand::CompleteRegistration) => {
            reveal_strlit("/api/kernel/commands/complete_registration");
            assert("/api/kernel/commands/complete_registration"@.subrange(0, 4) =~= "/api"@);
            assert("/api/kernel/commands/complete_registration"@.subrange(0, 11) =~= "/api/kernel"@);
        },
        Endpoint::KernelCommand(KernelCommand::SignIn) => {
            reveal_strlit("/api/kernel/commands/sign_in");
            assert("/api/kernel/commands/sign_in"@.subrange(0, 4) =~= "/api"@);
            assert("/api/kernel/commands/sign_in"@.subrange(0, 11) =~= "/api/kernel"@);
        },
        Endpoint::KernelCommand(KernelCommand::CompleteSignIn) => {
            reveal_strlit("/api/kernel/commands/complete_sign_in");
            assert("/api/kernel/commands/complete_sign_in"@.subrange(0, 4) =~= "/api"@);
            assert("/api/kernel/commands/complete_sign_in"@.subrange(0, 11) =~= "/api/kernel"@);
        },
        Endpoint::KernelCommand(KernelCommand::RevokeSession) => {
            reveal_strlit("/api/kernel/commands/revoke_session");
            assert("/api/kernel/commands/revoke_session"@.subrange(0, 4) =~= "/api"@);
            assert("/api/kernel/commands/revoke_session"@.subrange(0, 11) =~= "/api/kernel"@);
        },
        Endpoint::KernelCommand(KernelCommand::VerifyEmail) => {
            reveal_strlit("/api/kernel/commands/verify_email");
            assert("/api/kernel/commands/verify_email"@.subrange(0, 4) =~= "/api"@);
            assert("/api/kernel/commands/verify_email"@.subrange(0, 11) =~= "/api/kernel"@);
        },
        Endpoint::KernelCommand(KernelCommand::DeleteMyAccount) => {
            reveal_strlit("/api/kernel/commands/delete_my_account");
            assert("/api/kernel/commands/delete_my_account"@.subrange(0, 4) =~= "/api"@);
            assert("/api/kernel/commands/delete_my_account"@.subrange(0, 11) =~= "/api/kernel"@);
        },
        Endpoint::KernelCommand(KernelCommand::CompleteTwoFaSetup) => {
            reveal_strlit("/api/kernel/commands/complete_two_fa_setup");
            assert("/api/kernel/commands/complete_two_fa_setup"@.subrange(0, 4) =~= "/api"@);
            assert("/api/kernel/commands/complete_two_fa_setup"@.subrange(0, 11) =~= "/api/kernel"@);
        },
        Endpoint::KernelCommand(KernelCommand::SetupTwoFa) => {
            reveal_strlit("/api/kernel/commands/setup_two_fa");
            assert("/api/kernel/commands/setup_two_fa"@.subrange(0, 4) =~= "/api"@);
            assert("/api/kernel/commands/setup_two_fa"@.subrange(0, 11) =~= "/api/kernel"@);
        },
        Endpoint::KernelCommand(KernelCommand::DisableTwoFa) => {
            reveal_strlit("/api/kernel/commands/disable_two_fa");
            assert("/api/kernel/commands/disable_two_fa"@.subrange(0, 4) =~= "/api"@);
            assert("/api/kernel/commands/disable_two_fa"@.subrange(0, 11) =~= "/api/kernel"@);
        },
        Endpoint::KernelCommand(KernelCommand::CompleteTwoFaChallenge) => {
            reveal_strlit("/api/kernel/commands/complete_two_fa_challenge");
            assert("/api/kernel/commands/complete_two_fa_challenge"@.subrange(0, 4) =~= "/api"@);
            assert("/api/kernel/commands/complete_two_fa_challenge"@.subrange(0, 11) =~= "/api/kernel"@);
        },
        Endpoint::KernelCommand(KernelCommand::UpdateMyProfile) => {
            reveal_strlit("/api/kernel/commands/update_my_profile");
            assert("/api/kernel/commands/update_my_profile"@.subrange(0, 4) =~= "/api"@);
            assert("/api/kernel/commands/update_my_profile"@.subrange(0, 11) =~= "/api/kernel"@);
        },
        Endpoint::KernelCommand(KernelCommand::CreateGroup) => {
            reveal_strlit("/api/kernel/commands/create_group");
            assert("/api/kernel/commands/create_group"@.subrange(0, 4) =~= "/api"@);
            assert("/api/kernel/commands/create_group"@.subrange(0, 11) =~= "/api/kernel"@);
        },
        Endpoint::KernelCommand(KernelCommand::DeleteGroup) => {
            reveal_strlit("/api/kernel/commands/delete_group");
            assert("/api/kernel/commands/delete_group"@.subrange(0, 4) =~= "/api"@);
            assert("/api/kernel/commands/delete_group"@.subrange(0, 11) =~= "/api/kernel"@);
        },
        Endpoint::KernelCommand(KernelCommand::UpdateGroupProfile) => {
            reveal_strlit("/api/kernel/commands/update_group_profile");
            assert("/api/kernel/commands/update_group_profile"@.subrange(0, 4) =~= "/api"@);
            assert("/api/kernel/commands/update_group_profile"@.subrange(0, 11) =~= "/api/kernel"@);
        },
        Endpoint::KernelCommand(KernelCommand::QuitGroup) => {
            reveal_strlit("/api/kernel/commands/quit_group");
            assert("/api/kernel/commands/quit_group"@.subrange(0, 4) =~= "/api"@);
            assert("/api/kernel/commands/quit_group"@.subrange(0, 11) =~= "/api/kernel"@);
        },
        Endpoint::KernelCommand(KernelCommand::InvitePeopleInGroup) => {
            reveal_strlit("/api/kernel/commands/invite_people_in_group");
            assert("/api/kernel/commands/invite_people_in_group"@.subrange(0, 4) =~= "/api"@);
            assert("/api/kernel/commands/invite_people_in_group"@.subrange(0, 11) =~= "/api/kernel"@);
        },
        Endpoint::KernelCommand(KernelCommand::AcceptGroupInvitation) => {
            reveal_strlit("/api/kernel/commands/accept_group_invitation");
            assert("/api/kernel/commands/accept_group_invitation"@.subrange(0, 4) =~= "/api"@);
            assert("/api/kernel/commands/accept_group_invitation"@.subrange(0, 11) =~= "/api/kernel"@);
        },
        Endpoint::KernelCommand(KernelCommand::DeclineGroupInvitation) => {
            reveal_strlit("/api/kernel/commands/decline_group_invitation");
            assert("/api/kernel/commands/decline_group_invitation"@.subrange(0, 4) =~= "/api"@);
            assert("/api/kernel/commands/decline_group_invitation"@.subrange(0, 11) =~= "/api/kernel"@);
        },
        Endpoint::KernelCommand(KernelCommand::CancelGroupInvitation) => {
            reveal_strlit("/api/kernel/commands/cancel_group_invitation");
            assert("/api/kernel/commands/cancel_group_invitation"@.subrange(0, 4) =~= "/api"@);
            assert("/api/kernel/commands/cancel_group_invitation"@.subrange(0, 11) =~= "/api/kernel"@);
        },
        Endpoint::KernelCommand(KernelCommand::RemoveMemberFromGroup) => {
            reveal_strlit("/api/kernel/commands/remove_member_from_group");
            assert("/api/kernel/commands/remove_member_from_group"@.subrange(0, 4) =~= "/api"@);
            assert("/api/kernel/commands/remove_member_from_group"@.subrange(0, 11) =~= "/api/kernel"@);
        },
        Endpoint::KernelCommand(KernelCommand::UpdateBillingInformation) => {
            reveal_strlit("/api/kernel/commands/update_billing_information");
            assert("/api/kernel/commands/update_billing_information"@.subrange(0, 4) =~= "/api"@);
            assert("/api/kernel/commands/update_billing_information"@.subrange(0, 11) =~= "/api/kernel"@);
        },
        Endpoint::KernelCommand(KernelCommand::SyncCustomerWithProvider) => {
            reveal_strlit("/api/kernel/commands/sync_customer_with_provider");
            assert("/api/kernel/commands/sync_customer_with_provider"@.subrange(0, 4) =~= "/api"@);
            assert("/api/kernel/commands/sync_customer_with_provider"@.subrange(0, 11) =~= "/api/kernel"@);
        },
        Endpoint::KernelQuery(KernelQuery::SignedUploadUrl) => {
            reveal_strlit("/api/kernel/queries/signed_upload_url");
            assert("/api/kernel/queries/signed_upload_url"@.subrange(0, 4) =~= "/api"@);
            assert("/api/kernel/queries/signed_upload_url"@.subrange(0, 11) =~= "/api/kernel"@);
        },
        Endpoint::KernelQuery(KernelQuery::Me) => {
            reveal_strlit("/api/kernel/queries/me");
            assert("/api/kernel/queries/me"@.subrange(0, 4) =~= "/api"@);
            assert("/api/kernel/queries/me"@.subrange(0, 11) =~= "/api/kernel"@);
        },
        Endpoint::KernelQuery(KernelQuery::Markdown) => {
            reveal_strlit("/api/kernel/queries/markdown");
            assert("/api/kernel/queries/markdown"@.subrange(0, 4) =~= "/api"@);
            assert("/api/kernel/queries/markdown"@.subrange(0, 11) =~= "/api/kernel"@);
        },
        Endpoint::KernelQuery(KernelQuery::GenerateQrCode) => {
            reveal_strlit("/api/kernel/queries/generate_qr_code");
            assert("/api/kernel/queries/generate_qr_code"@.subrange(0, 4) =~= "/api"@);
            assert("/api/kernel/queries/generate_qr_code"@.subrange(0, 11) =~= "/api/kernel"@);
        },
        Endpoint::KernelQuery(KernelQuery::MyGroupInvitations) => {
            reveal_strlit("/api/kernel/queries/my_group_invitations");
            assert("/api/kernel/queries/my_group_invitations"@.subrange(0, 4) =~= "/api"@);
            assert("/api/kernel/queries/my_group_invitations"@.subrange(0, 11) =~= "/api/kernel"@);
        },
        Endpoint::KernelQuery(KernelQuery::MySessions) => {
            reveal_strlit("/api/kernel/queries/my_sessions");
            assert("/api/kernel/queries/my_sessions"@.subrange(0, 4) =~= "/api"@);
            assert("/api/kernel/queries/my_sessions"@.subrange(0, 11) =~= "/api/kernel"@);
        },
        Endpoint::KernelQuery(KernelQuery::Group) => {
            reveal_strlit("/api/kernel/queries/group");
            assert("/api/kernel/queries/group"@.subrange(0, 4) =~= "/api"@);
            assert("/api/kernel/queries/group"@.subrange(0, 11) =~= "/api/kernel"@);
        },
        Endpoint::KernelQuery(KernelQuery::GroupWithMembersAndInvitations) => {
            reveal_strlit("/api/kernel/queries/group_with_members_and_invitations");
            assert("/api/kernel/queries/group_with_members_and_invitations"@.subrange(0, 4) =~= "/api"@);
            assert("/api/kernel/queries/group_with_members_and_invitations"@.subrange(0, 11) =~= "/api/kernel"@);
        },
        Endpoint::KernelQuery(KernelQuery::StripePublicKey) => {
            reveal_strlit("/api/kernel/queries/stripe_public_key");
            assert("/api/kernel/queries/stripe_public_key"@.subrange(0, 4) =~= "/api"@);
            assert("/api/kernel/queries/stripe_public_key"@.subrange(0, 11) =~= "/api/kernel"@);
        },
        Endpoint::KernelQuery(KernelQuery::BillingInformation) => {
            reveal_strlit("/api/kernel/queries/billing_information");
            assert("/api/kernel/queries/billing_information"@.subrange(0, 4) =~= "/api"@);
            assert("/api/kernel/queries/billing_information"@.subrange(0, 11) =~= "/api/kernel"@);
        },
        Endpoint::KernelQuery(KernelQuery::CheckoutSession) => {
            reveal_strlit("/api/kernel/queries/checkout_session");
            assert("/api/kernel/queries/checkout_session"@.subrange(0, 4) =~= "/api"@);
            assert("/api/kernel/queries/checkout_session"@.subrange(0, 11) =~= "/api/kernel"@);
        },
        Endpoint::KernelQuery(KernelQuery::CustomerPortal) => {
            reveal_strlit("/api/kernel/queries/customer_portal");
            assert("/api/kernel/queries/customer_portal"@.subrange(0, 4) =~= "/api"@);
            assert("/api/kernel/queries/customer_portal"@.subrange(0, 11) =~= "/api/kernel"@);
        },
        Endpoint::FilesCommand(FilesCommand::MoveFilesToTrash) => {
            reveal_strlit("/api/files/commands/move_files_to_trash");
            assert("/api/files/commands/move_files_to_trash"@.subrange(0, 4) =~= "/api"@);
            assert("/api/files/commands/move_files_to_trash"@.subrange(0, 10) =~= "/api/files"@);
        },
        Endpoint::FilesCommand(FilesCommand::RestoreFilesFromTrash) => {
            reveal_strlit("/api/files/commands/restore_files_from_trash");
            assert("/api/files/commands/restore_files_from_trash"@.subrange(0, 4) =~= "/api"@);
            assert("/api/files/commands/restore_files_from_trash"@.subrange(0, 10) =~= "/api/files"@);
        },
        Endpoint::FilesCommand(FilesCommand::EmptyTrash) => {
            reveal_strlit("/api/files/commands/empty_trash");
            assert("/api/files/commands/empty_trash"@.subrange(0, 4) =~= "/api"@);
            assert("/api/files/commands/empty_trash"@.subrange(0, 10) =~= "/api/files"@);
        },
        Endpoint::FilesCommand(FilesCommand::MoveFiles) => {
            reveal_strlit("/api/files/commands/move_files");
            assert("/api/files/commands/move_files"@.subrange(0, 4) =~= "/api"@);
            assert("/api/files/commands/move_files"@.subrange(0, 10) =~= "/api/files"@);
        },
        Endpoint::FilesCommand(FilesCommand::CreateFolder) => {
            reveal_strlit("/api/files/commands/create_folder");
            assert("/api/files/commands/create_folder"@.subrange(0, 4) =~= "/api"@);
            assert("/api/files/commands/create_folder"@.subrange(0, 10) =~= "/api/files"@);
        },
        Endpoint::FilesCommand(FilesCommand::RenameFile) => {
            reveal_strlit("/api/files/commands/rename_file");
            assert("/api/files/commands/rename_file"@.subrange(0, 4) =~= "/api"@);
            assert("/api/files/commands/rename_file"@.subrange(0, 10) =~= "/api/files"@);
        },
        Endpoint::FilesCommand(FilesCommand::CompleteFileUpload) => {
            reveal_strlit("/api/files/commands/complete_file_upload");
            assert("/api/files/commands/complete_file_upload"@.subrange(0, 4) =~= "/api"@);
            assert("/api/files/commands/complete_file_upload"@.subrange(0, 10) =~= "/api/files"@);
        },
        Endpoint::FilesQuery(FilesQuery::File) => {
            reveal_strlit("/api/files/queries/file");
            assert("/api/files/queries/file"@.subrange(0, 4) =~= "/api"@);
            assert("/api/files/queries/file"@.subrange(0, 10) =~= "/api/files"@);
        },
        Endpoint::FilesQuery(FilesQuery::Trash) => {
            reveal_strlit("/api/files/queries/trash");
            assert("/api/files/queries/trash"@.subrange(0, 4) =~= "/api"@);
            assert("/api/files/queries/trash"@.subrange(0, 10) =~= "/api/files"@);
        },
        Endpoint::FilesQuery(FilesQuery::FileDownloadUrl) => {
            reveal_strlit("/api/files/queries/file_download_url");
            assert("/api/files/queries/file_download_url"@.subrange(0, 4) =~= "/api"@);
            assert("/api/files/queries/file_download_url"@.subrange(0, 10) =~= "/api/files"@);
        },
        Endpoint::AnalyticsEvent(AnalyticsEvent::Track) => {
            reveal_strlit("/api/a/events/t");
            assert("/api/a/events/t"@.subrange(0, 4) =~= "/api"@);
            assert("/api/a/events/t"@.subrange(0, 6) =~= "/api/a"@);
        },
        Endpoint::AnalyticsEvent(AnalyticsEvent::Page) => {
            reveal_strlit("/api/a/events/p");
            assert("/api/a/events/p"@.subrange(0, 4) =~= "/api"@);
            assert("/api/a/events/p"@.subrange(0, 6) =~= "/api/a"@);
        },
        Endpoint::AnalyticsQuery(AnalyticsQuery::Analytics) => {
            reveal_strlit("/api/a/queries/a");
            assert("/api/a/queries/a"@.subrange(0, 4) =~= "/api"@);
            assert("/api/a/queries/a"@.subrange(0, 6) =~= "/api/a"@);
        },
        Endpoint::InboxCommand(InboxCommand::CreateContact) => {
            reveal_strlit("/api/inbox/commands/create_contact");
            assert("/api/inbox/commands/create_contact"@.subrange(0, 4) =~= "/api"@);
            assert("/api/inbox/commands/create_contact"@.subrange(0, 10) =~= "/api/inbox"@);
        },
        Endpoint::InboxCommand(InboxCommand::DeleteContact) => {
            reveal_strlit("/api/inbox/commands/delete_contact");
            assert("/api/inbox/commands/delete_contact"@.subrange(0, 4) =~= "/api"@);
            assert("/api/inbox/commands/delete_contact"@.subrange(0, 10) =~= "/api/inbox"@);
        },
        Endpoint::InboxCommand(InboxCommand::ImportContacts) => {
            reveal_strlit("/api/inbox/commands/import_contacts");
            assert("/api/inbox/commands/import_contacts"@.subrange(0, 4) =~= "/api"@);
            assert("/api/inbox/commands/import_contacts"@.subrange(0, 10) =~= "/api/inbox"@);
        },
        Endpoint::InboxCommand(InboxCommand::UpdateContact) => {
            reveal_strlit("/api/inbox/commands/update_contact");
            assert("/api/inbox/commands/update_contact"@.subrange(0, 4) =~= "/api"@);
            assert("/api/inbox/commands/update_contact"@.subrange(0, 10) =~= "/api/inbox"@);
        },
        Endpoint::InboxCommand(InboxCommand::SendMessage) => {
            reveal_strlit("/api/inbox/commands/send_message");
            assert("/api/inbox/commands/send_message"@.subrange(0, 4) =~= "/api"@);
            assert("/api/inbox/commands/send_message"@.subrange(0, 10) =~= "/api/inbox"@);
        },
        Endpoint::InboxCommand(InboxCommand::SendChatboxMessage) => {
            reveal_strlit("/api/inbox/commands/send_chatbox_message");
            assert("/api/inbox/commands/send_chatbox_message"@.subrange(0, 4) =~= "/api"@);
            assert("/api/inbox/commands/send_chatbox_message"@.subrange(0, 10) =~= "/api/inbox"@);
        },
        Endpoint::InboxCommand(InboxCommand::UpdateChatboxPreferences) => {
            reveal_strlit("/api/inbox/commands/update_chatbox_preferences");
            assert("/api/inbox/commands/update_chatbox_preferences"@.subrange(0, 4) =~= "/api"@);
            assert("/api/inbox/commands/update_chatbox_preferences"@.subrange(0, 10) =~= "/api/inbox"@);
        },
        Endpoint::InboxCommand(InboxCommand::LinkChatboxContact) => {
            reveal_strlit("/api/inbox/commands/link_chatbox_contact");
            assert("/api/inbox/commands/link_chatbox_contact"@.subrange(0, 4) =~= "/api"@);
            assert("/api/inbox/commands/link_chatbox_contact"@.subrange(0, 10) =~= "/api/inbox"@);
        },
        Endpoint::InboxQuery(InboxQuery::Contact) => {
            reveal_strlit("/api/inbox/queries/contact");
            assert("/api/inbox/queries/contact"@.subrange(0, 4) =~= "/api"@);
            assert("/api/inbox/queries/contact"@.subrange(0, 10) =~= "/api/inbox"@);
        },
        Endpoint::InboxQuery(InboxQuery::Contacts) => {
            reveal_strlit("/api/inbox/queries/contacts");
            assert("/api/inbox/queries/contacts"@.subrange(0, 4) =~= "/api"@);
            assert("/api/inbox/queries/contacts"@.subrange(0, 10) =~= "/api/inbox"@);
        },
        Endpoint::InboxQuery(InboxQuery::ChatboxPreferences) => {
            reveal_strlit("/api/inbox/queries/chatbox_preferences");
            assert("/api/inbox/queries/chatbox_preferences"@.subrange(0, 4) =~= "/api"@);
            assert("/api/inbox/queries/chatbox_preferences"@.subrange(0, 10) =~= "/api/inbox"@);
        },
        Endpoint::InboxQuery(InboxQuery::ChatboxMessages) => {
            reveal_strlit("/api/inbox/queries/chatbox_messages");
            assert("/api/inbox/queries/chatbox_messages"@.subrange(0, 4) =~= "/api"@);
            assert("/api/inbox/queries/chatbox_messages"@.subrange(0, 10) =~= "/api/inbox"@);
        },
        Endpoint::InboxQuery(InboxQuery::Inbox) => {
            reveal_strlit("/api/inbox/queries/inbox");
            assert("/api/inbox/queries/inbox"@.subrange(0, 4) =~= "/api"@);
            assert("/api/inbox/queries/inbox"@.subrange(0, 10) =~= "/api/inbox"@);
        },
        Endpoint::InboxQuery(InboxQuery::Trash) => {
            reveal_strlit("/api/inbox/queries/trash");
            assert("/api/inbox/queries/trash"@.subrange(0, 4) =~= "/api"@);
            assert("/api/inbox/queries/trash"@.subrange(0, 10) =~= "/api/inbox"@);
        },
        Endpoint::InboxQuery(InboxQuery::Archive) => {
            reveal_strlit("/api/inbox/queries/archive");
            assert("/api/inbox/queries/archive"@.subrange(0, 4) =~= "/api"@);
            assert("/api/inbox/queries/archive"@.subrange(0, 10) =~= "/api/inbox"@);
        },
        Endpoint::InboxQuery(InboxQuery::Spam) => {
            reveal_strlit("/api/inbox/queries/spam");
            assert("/api/inbox/queries/spam"@.subrange(0, 4) =~= "/api"@);
            assert("/api/inbox/queries/spam"@.subrange(0, 10) =~= "/api/inbox"@);
        },
        Endpoint::NewsletterCommand(NewsletterCommand::CreateList) => {
            reveal_strlit("/api/newsletter/commands/create_list");
            assert("/api/newsletter/commands/create_list"@.subrange(0, 4) =~= "/api"@);
            assert("/api/newsletter/commands/create_list"@.subrange(0, 15) =~= "/api/newsletter"@);
        },
        Endpoint::NewsletterCommand(NewsletterCommand::CreateMessage) => {
            reveal_strlit("/api/newsletter/commands/create_message");
            assert("/api/newsletter/commands/create_message"@.subrange(0, 4) =~= "/api"@);
            assert("/api/newsletter/commands/create_message"@.subrange(0, 15) =~= "/api/newsletter"@);
        },
        Endpoint::NewsletterCommand(NewsletterCommand::DeleteList) => {
            reveal_strlit("/api/newsletter/commands/delete_list");
            assert("/api/newsletter/commands/delete_list"@.subrange(0, 4) =~= "/api"@);
            assert("/api/newsletter/commands/delete_list"@.subrange(0, 15) =~= "/api/newsletter"@);
        },
        Endpoint::NewsletterCommand(NewsletterCommand::DeleteMessage) => {
            reveal_strlit("/api/newsletter/commands/delete_message");
            assert("/api/newsletter/commands/delete_message"@.subrange(0, 4) =~= "/api"@);
            assert("/api/newsletter/commands/delete_message"@.subrange(0, 15) =~= "/api/newsletter"@);
        },
        Endpoint::NewsletterCommand(NewsletterCommand::SendMessage) => {
            reveal_strlit("/api/newsletter/commands/send_message");
            assert("/api/newsletter/commands/send_message"@.subrange(0, 4) =~= "/api"@);
            assert("/api/newsletter/commands/send_message"@.subrange(0, 15) =~= "/api/newsletter"@);
        },
        Endpoint::NewsletterCommand(NewsletterCommand::SendTestMessage) => {
            reveal_strlit("/api/newsletter/commands/send_test_message");
            assert("/api/newsletter/commands/send_test_message"@.subrange(0, 4) =~= "/api"@);
            assert("/api/newsletter/commands/send_test_message"@.subrange(0, 15) =~= "/api/newsletter"@);
        },
        Endpoint::NewsletterCommand(NewsletterCommand::UpdateList) => {
            reveal_strlit("/api/newsletter/commands/update_list");
            assert("/api/newsletter/commands/update_list"@.subrange(0, 4) =~= "/api"@);
            assert("/api/newsletter/commands/update_list"@.subrange(0, 15) =~= "/api/newsletter"@);
        },
        Endpoint::NewsletterCommand(NewsletterCommand::UpdateMessage) => {
            reveal_strlit("/api/newsletter/commands/update_message");
            assert("/api/newsletter/commands/update_message"@.subrange(0, 4) =~= "/api"@);
            assert("/api/newsletter/commands/update_message"@.subrange(0, 15) =~= "/api/newsletter"@);
        },
        Endpoint::NewsletterCommand(NewsletterCommand::SubscribeToList) => {
            reveal_strlit("/api/newsletter/commands/subscribe_to_list");
            assert("/api/newsletter/commands/subscribe_to_list"@.subrange(0, 4) =~= "/api"@);
            assert("/api/newsletter/commands/subscribe_to_list"@.subrange(0, 15) =~= "/api/newsletter"@);
        },
        Endpoint::NewsletterCommand(NewsletterCommand::UnsubscribeFromList) => {
            reveal_strlit("/api/newsletter/commands/unsubscribe_from_list");
            assert("/api/newsletter/commands/unsubscribe_from_list"@.subrange(0, 4) =~= "/api"@);
            assert("/api/newsletter/commands/unsubscribe_from_list"@.subrange(0, 15) =~= "/api/newsletter"@);
        },
        Endpoint::NewsletterQuery(NewsletterQuery::List) => {
            reveal_strlit("/api/newsletter/queries/list");
            assert("/api/newsletter/queries/list"@.subrange(0, 4) =~= "/api"@);
            assert("/api/newsletter/queries/list"@.subrange(0, 15) =~= "/api/newsletter"@);
        },
        Endpoint::NewsletterQuery(NewsletterQuery::Lists) => {
            reveal_strlit("/api/newsletter/queries/lists");
            assert("/api/newsletter/queries/lists"@.subrange(0, 4) =~= "/api"@);
            assert("/api/newsletter/queries/lists"@.subrange(0, 15) =~= "/api/newsletter"@);
        },
        Endpoint::NewsletterQuery(NewsletterQuery::Message) => {
            reveal_strlit("/api/newsletter/queries/message");
            assert("/api/newsletter/queries/message"@.subrange(0, 4) =~= "/api"@);
            assert("/api/newsletter/queries/message"@.subrange(0, 15) =~= "/api/newsletter"@);
        },
        Endpoint::NewsletterQuery(NewsletterQuery::Messages) => {
            reveal_strlit("/api/newsletter/queries/messages");
            assert("/api/newsletter/queries/messages"@.subrange(0, 4) =~= "/api"@);
            assert("/api/newsletter/queries/messages"@.subrange(0, 15) =~= "/api/newsletter"@);
        },
    }
}

/// Every endpoint is served below `/api`.
pub proof fn lemma_paths_within_api(e: Endpoint)
    ensures
        lies_within(e.spec_path(), "/api"@),
{
    lemma_path_facts(e);
}

/// Every endpoint but the API root is served inside its service scope.
pub proof fn lemma_endpoint_in_its_scope(e: Endpoint)
    ensures
        e.spec_scope() matches Some(s) ==> lies_within(e.spec_path(), s.spec_prefix()),
{
    lemma_path_facts(e);
}

/// The root of the API answers only `GET`; every command and query answers
/// only `POST`.
pub proof fn lemma_endpoint_methods(e: Endpoint)
    ensures
        (e.spec_method() == Method::Get) == (e == Endpoint::Index),
        e != Endpoint::Index ==> e.spec_method() == Method::Post,
{
}

/// Exactly the endpoints other than the API root belong to a service scope,
/// and each lies within the prefix of its own.
pub proof fn lemma_endpoint_scopes(e: Endpoint)
    ensures
        (e.spec_scope() is None) == (e == Endpoint::Index),
        e.spec_scope() matches Some(s) ==> lies_within(e.spec_path(), s.spec_prefix()),
{
    lemma_path_facts(e);
}

/// Each endpoint is served where its resource is registered: `/api` for the
/// root; for the others, the prefix of their service scope, their section,
/// a slash and their own segment.
pub proof fn lemma_path_structure(e: Endpoint)
    ensures
        e == Endpoint::Index ==> e.spec_path() == "/api"@,
        e.spec_scope() matches Some(s) ==> e.spec_path() == s.spec_prefix() + e.spec_section()
            + "/"@ + e.spec_segment(),
{
    reveal_strlit("/");
    reveal_strlit("/api/kernel");
    reveal_strlit("/api/files");
    reveal_strlit("/api/a");
    reveal_strlit("/api/inbox");
    reveal_strlit("/api/newsletter");
    reveal_strlit("/commands");
    reveal_strlit("/queries");
    reveal_strlit("/events");
    match e {
        Endpoint::Index => {},
        Endpoint::KernelCommand(KernelCommand::Register) => {
            reveal_strlit("/api/kernel/commands/register");
            reveal_strlit("register");
            assert("/api/kernel/commands/register"@ =~= "/api/kernel"@ + "/commands"@ + "/"@ + "register"@);
        },
        Endpoint::KernelCommand(KernelCommand::CompleteRegistration) => {
            reveal_strlit("/api/kernel/commands/complete_registration");
            reveal_strlit("complete_registration");
            assert("/api/kernel/commands/complete_registration"@ =~= "/api/kernel"@ + "/commands"@ + "/"@ + "complete_registration"@);
        },
        Endpoint::KernelCommand(KernelCommand::SignIn) => {
            reveal_strlit("/api/kernel/commands/sign_in");
            reveal_strlit("sign_in");
            assert("/api/kernel/commands/sign_in"@ =~= "/api/kernel"@ + "/commands"@ + "/"@ + "sign_in"@);
        },
        Endpoint::KernelCommand(KernelCommand::CompleteSignIn) => {
            reveal_strlit("/api/kernel/commands/complete_sign_in");
            reveal_strlit("complete_sign_in");
            assert("/api/kernel/commands/complete_sign_in"@ =~= "/api/kernel"@ + "/commands"@ + "/"@ + "complete_sign_in"@);
        },
        Endpoint::KernelCommand(KernelCommand::RevokeSession) => {
            reveal_strlit("/api/kernel/commands/revoke_session");
            reveal_strlit("revoke_session");
            assert("/api/kernel/commands/revoke_session"@ =~= "/api/kernel"@ + "/commands"@ + "/"@ + "revoke_session"@);
        },
        Endpoint::KernelCommand(KernelCommand::VerifyEmail) => {
            reveal_strlit("/api/kernel/commands/verify_email");
            reveal_strlit("verify_email");
            assert("/api/kernel/commands/verify_email"@ =~= "/api/kernel"@ + "/commands"@ + "/"@ + "verify_email"@);
        },
        Endpoint::KernelCommand(KernelCommand::DeleteMyAccount) => {
            reveal_strlit("/api/kernel/commands/delete_my_account");
            reveal_strlit("delete_my_account");
            assert("/api/kernel/commands/delete_my_account"@ =~= "/api/kernel"@ + "/commands"@ + "/"@ + "delete_my_account"@);
        },
        Endpoint::KernelCommand(KernelCommand::CompleteTwoFaSetup) => {
            reveal_strlit("/api/kernel/commands/complete_two_fa_setup");
            reveal_strlit("complete_two_fa_setup");
            assert("/api/kernel/commands/complete_two_fa_setup"@ =~= "/api/kernel"@ + "/commands"@ + "/"@ + "complete_two_fa_setup"@);
        },
        Endpoint::KernelCommand(KernelCommand::SetupTwoFa) => {
            reveal_strlit("/api/kernel/commands/setup_two_fa");
            reveal_strlit("setup_two_fa");
            assert("/api/kernel/commands/setup_two_fa"@ =~= "/api/kernel"@ + "/commands"@ + "/"@ + "setup_two_fa"@);
        },
        Endpoint::KernelCommand(KernelCommand::DisableTwoFa) => {
            reveal_strlit("/api/kernel/commands/disable_two_fa");
            reveal_strlit("disable_two_fa");
            assert("/api/kernel/commands/disable_two_fa"@ =~= "/api/kernel"@ + "/commands"@ + "/"@ + "disable_two_fa"@);
        },
        Endpoint::KernelCommand(KernelCommand::CompleteTwoFaChallenge) => {
            reveal_strlit("/api/kernel/commands/complete_two_fa_challenge");
            reveal_strlit("complete_two_fa_challenge");
            assert("/api/kernel/commands/complete_two_fa_challenge"@ =~= "/api/kernel"@ + "/commands"@ + "/"@ + "complete_two_fa_challenge"@);
        },
        Endpoint::KernelCommand(KernelCommand::UpdateMyProfile) => {
            reveal_strlit("/api/kernel/commands/update_my_profile");
            reveal_strlit("update_my_profile");
            assert("/api/kernel/commands/update_my_profile"@ =~= "/api/kernel"@ + "/commands"@ + "/"@ + "update_my_profile"@);
        },
        Endpoint::KernelCommand(KernelCommand::CreateGroup) => {
            reveal_strlit("/api/kernel/commands/create_group");
            reveal_strlit("create_group");
            assert("/api/kernel/commands/create_group"@ =~= "/api/kernel"@ + "/commands"@ + "/"@ + "create_group"@);
        },
        Endpoint::KernelCommand(KernelCommand::DeleteGroup) => {
            reveal_strlit("/api/kernel/commands/delete_group");
            reveal_strlit("delete_group");
            assert("/api/kernel/commands/delete_group"@ =~= "/api/kernel"@ + "/commands"@ + "/"@ + "delete_group"@);
        },
        Endpoint::KernelCommand(KernelCommand::UpdateGroupProfile) => {
            reveal_strlit("/api/kernel/commands/update_group_profile");
            reveal_strlit("update_group_profile");
            assert("/api/kernel/commands/update_group_profile"@ =~= "/api/kernel"@ + "/commands"@ + "/"@ + "update_group_profile"@);
        },
        Endpoint::KernelCommand(KernelCommand::QuitGroup) => {
            reveal_strlit("/api/kernel/commands/quit_group");
            reveal_strlit("quit_group");
            assert("/api/kernel/commands/quit_group"@ =~= "/api/kernel"@ + "/commands"@ + "/"@ + "quit_group"@);
        },
        Endpoint::KernelCommand(KernelCommand::InvitePeopleInGroup) => {
            reveal_strlit("/api/kernel/commands/invite_people_in_group");
            reveal_strlit("invite_people_in_group");
            assert("/api/kernel/commands/invite_people_in_group"@ =~= "/api/kernel"@ + "/commands"@ + "/"@ + "invite_people_in_group"@);
        },
        Endpoint::KernelCommand(KernelCommand::AcceptGroupInvitation) => {
            reveal_strlit("/api/kernel/commands/accept_group_invitation");
            reveal_strlit("accept_group_invitation");
            assert("/api/kernel/commands/accept_group_invitation"@ =~= "/api/kernel"@ + "/commands"@ + "/"@ + "accept_group_invitation"@);
        },
        Endpoint::KernelCommand(KernelCommand::DeclineGroupInvitation) => {
            reveal_strlit("/api/kernel/commands/decline_group_invitation");
            reveal_strlit("decline_group_invitation");
            assert("/api/kernel/commands/decline_group_invitation"@ =~= "/api/kernel"@ + "/commands"@ + "/"@ + "decline_group_invitation"@);
        },
        Endpoint::KernelCommand(KernelCommand::CancelGroupInvitation) => {
            reveal_strlit("/api/kernel/commands/cancel_group_invitation");
            reveal_strlit("cancel_group_invitation");
            assert("/api/kernel/commands/cancel_group_invitation"@ =~= "/api/kernel"@ + "/commands"@ + "/"@ + "cancel_group_invitation"@);
        },
        Endpoint::KernelCommand(KernelCommand::RemoveMemberFromGroup) => {
            reveal_strlit("/api/kernel/commands/remove_member_from_group");
            reveal_strlit("remove_member_from_group");
            assert("/api/kernel/commands/remove_member_from_group"@ =~= "/api/kernel"@ + "/commands"@ + "/"@ + "remove_member_from_group"@);
        },
        Endpoint::KernelCommand(KernelCommand::UpdateBillingInformation) => {
            reveal_strlit("/api/kernel/commands/update_billing_information");
            reveal_strlit("update_billing_information");
            assert("/api/kernel/commands/update_billing_information"@ =~= "/api/kernel"@ + "/commands"@ + "/"@ + "update_billing_information"@);
        },
        Endpoint::KernelCommand(KernelCommand::SyncCustomerWithProvider) => {
            reveal_strlit("/api/kernel/commands/sync_customer_with_provider");
            reveal_strlit("sync_customer_with_provider");
            assert("/api/kernel/commands/sync_customer_with_provider"@ =~= "/api/kernel"@ + "/commands"@ + "/"@ + "sync_customer_with_provider"@);
        },
        Endpoint::KernelQuery(KernelQuery::SignedUploadUrl) => {
            reveal_strlit("/api/kernel/queries/signed_upload_url");
            reveal_strlit("signed_upload_url");
            assert("/api/kernel/queries/signed_upload_url"@ =~= "/api/kernel"@ + "/queries"@ + "/"@ + "signed_upload_url"@);
        },
        Endpoint::KernelQuery(KernelQuery::Me) => {
            reveal_strlit("/api/kernel/queries/me");
            reveal_strlit("me");
            assert("/api/kernel/queries/me"@ =~= "/api/kernel"@ + "/queries"@ + "/"@ + "me"@);
        },
        Endpoint::KernelQuery(KernelQuery::Markdown) => {
            reveal_strlit("/api/kernel/queries/markdown");
            reveal_strlit("markdown");
            assert("/api/kernel/queries/markdown"@ =~= "/api/kernel"@ + "/queries"@ + "/"@ + "markdown"@);
        },
        Endpoint::KernelQuery(KernelQuery::GenerateQrCode) => {
            reveal_strlit("/api/kernel/queries/generate_qr_code");
            reveal_strlit("generate_qr_code");
            assert("/api/kernel/queries/generate_qr_code"@ =~= "/api/kernel"@ + "/queries"@ + "/"@ + "generate_qr_code"@);
        },
        Endpoint::KernelQuery(KernelQuery::MyGroupInvitations) => {
            reveal_strlit("/api/kernel/queries/my_group_invitations");
            reveal_strlit("my_group_invitations");
            assert("/api/kernel/queries/my_group_invitations"@ =~= "/api/kernel"@ + "/queries"@ + "/"@ + "my_group_invitations"@);
        },
        Endpoint::KernelQuery(KernelQuery::MySessions) => {
            reveal_strlit("/api/kernel/queries/my_sessions");
            reveal_strlit("my_sessions");
            assert("/api/kernel/queries/my_sessions"@ =~= "/api/kernel"@ + "/queries"@ + "/"@ + "my_sessions"@);
        },
        Endpoint::KernelQuery(KernelQuery::Group) => {
            reveal_strlit("/api/kernel/queries/group");
            reveal_strlit("group");
            assert("/api/kernel/queries/group"@ =~= "/api/kernel"@ + "/queries"@ + "/"@ + "group"@);
        },
        Endpoint::KernelQuery(KernelQuery::GroupWithMembersAndInvitations) => {
            reveal_strlit("/api/kernel/queries/group_with_members_and_invitations");
            reveal_strlit("group_with_members_and_invitations");
            assert("/api/kernel/queries/group_with_members_and_invitations"@ =~= "/api/kernel"@ + "/queries"@ + "/"@ + "group_with_members_and_invitations"@);
        },
        Endpoint::KernelQuery(KernelQuery::StripePublicKey) => {
            reveal_strlit("/api/kernel/queries/stripe_public_key");
            reveal_strlit("stripe_public_key");
            assert("/api/kernel/queries/stripe_public_key"@ =~= "/api/kernel"@ + "/queries"@ + "/"@ + "stripe_public_key"@);
        },
        Endpoint::KernelQuery(KernelQuery::BillingInformation) => {
            reveal_strlit("/api/kernel/queries/billing_information");
            reveal_strlit("billing_information");
            assert("/api/kernel/queries/billing_information"@ =~= "/api/kernel"@ + "/queries"@ + "/"@ + "billing_information"@);
        },
        Endpoint::KernelQuery(KernelQuery::CheckoutSession) => {
            reveal_strlit("/api/kernel/queries/checkout_session");
            reveal_strlit("checkout_session");
            assert("/api/kernel/queries/checkout_session"@ =~= "/api/kernel"@ + "/queries"@ + "/"@ + "checkout_session"@);
        },
        Endpoint::KernelQuery(KernelQuery::CustomerPortal) => {
            reveal_strlit("/api/kernel/queries/customer_portal");
            reveal_strlit("customer_portal");
            assert("/api/kernel/queries/customer_portal"@ =~= "/api/kernel"@ + "/queries"@ + "/"@ + "customer_portal"@);
        },
        Endpoint::FilesCommand(FilesCommand::MoveFilesToTrash) => {
            reveal_strlit("/api/files/commands/move_files_to_trash");
            reveal_strlit("move_files_to_trash");
            assert("/api/files/commands/move_files_to_trash"@ =~= "/api/files"@ + "/commands"@ + "/"@ + "move_files_to_trash"@);
        },
        Endpoint::FilesCommand(FilesCommand::RestoreFilesFromTrash) => {
            reveal_strlit("/api/files/commands/restore_files_from_trash");
            reveal_strlit("restore_files_from_trash");
            assert("/api/files/commands/restore_files_from_trash"@ =~= "/api/files"@ + "/commands"@ + "/"@ + "restore_files_from_trash"@);
        },
        Endpoint::FilesCommand(FilesCommand::EmptyTrash) => {
            reveal_strlit("/api/files/commands/empty_trash");
            reveal_strlit("empty_trash");
            assert("/api/files/commands/empty_trash"@ =~= "/api/files"@ + "/commands"@ + "/"@ + "empty_trash"@);
        },
        Endpoint::FilesCommand(FilesCommand::MoveFiles) => {
            reveal_strlit("/api/files/commands/move_files");
            reveal_strlit("move_files");
            assert("/api/files/commands/move_files"@ =~= "/api/files"@ + "/commands"@ + "/"@ + "move_files"@);
        },
        Endpoint::FilesCommand(FilesCommand::CreateFolder) => {
            reveal_strlit("/api/files/commands/create_folder");
            reveal_strlit("create_folder");
            assert("/api/files/commands/create_folder"@ =~= "/api/files"@ + "/commands"@ + "/"@ + "create_folder"@);
        },
        Endpoint::FilesCommand(FilesCommand::RenameFile) => {
            reveal_strlit("/api/files/commands/rename_file");
            reveal_strlit("rename_file");
            assert("/api/files/commands/rename_file"@ =~= "/api/files"@ + "/commands"@ + "/"@ + "rename_file"@);
        },
        Endpoint::FilesCommand(FilesCommand::CompleteFileUpload) => {
            reveal_strlit("/api/files/commands/complete_file_upload");
            reveal_strlit("complete_file_upload");
            assert("/api/files/commands/complete_file_upload"@ =~= "/api/files"@ + "/commands"@ + "/"@ + "complete_file_upload"@);
        },
        Endpoint::FilesQuery(FilesQuery::File) => {
            reveal_strlit("/api/files/queries/file");
            reveal_strlit("file");
            assert("/api/files/queries/file"@ =~= "/api/files"@ + "/queries"@ + "/"@ + "file"@);
        },
        Endpoint::FilesQuery(FilesQuery::Trash) => {
            reveal_strlit("/api/files/queries/trash");
            reveal_strlit("trash");
            assert("/api/files/queries/trash"@ =~= "/api/files"@ + "/queries"@ + "/"@ + "trash"@);
        },
        Endpoint::FilesQuery(FilesQuery::FileDownloadUrl) => {
            reveal_strlit("/api/files/queries/file_download_url");
            reveal_strlit("file_download_url");
            assert("/api/files/queries/file_download_url"@ =~= "/api/files"@ + "/queries"@ + "/"@ + "file_download_url"@);
        },
        Endpoint::AnalyticsEvent(AnalyticsEvent::Track) => {
            reveal_strlit("/api/a/events/t");
            reveal_strlit("t");
            assert("/api/a/events/t"@ =~= "/api/a"@ + "/events"@ + "/"@ + "t"@);
        },
        Endpoint::AnalyticsEvent(AnalyticsEvent::Page) => {
            reveal_strlit("/api/a/events/p");
            reveal_strlit("p");
            assert("/api/a/events/p"@ =~= "/api/a"@ + "/events"@ + "/"@ + "p"@);
        },
        Endpoint::AnalyticsQuery(AnalyticsQuery::Analytics) => {
            reveal_strlit("/api/a/queries/a");
            reveal_strlit("a");
            assert("/api/a/queries/a"@ =~= "/api/a"@ + "/queries"@ + "/"@ + "a"@);
        },
        Endpoint::InboxCommand(InboxCommand::CreateContact) => {
            reveal_strlit("/api/inbox/commands/create_contact");
            reveal_strlit("create_contact");
            assert("/api/inbox/commands/create_contact"@ =~= "/api/inbox"@ + "/commands"@ + "/"@ + "create_contact"@);
        },
        Endpoint::InboxCommand(InboxCommand::DeleteContact) => {
            reveal_strlit("/api/inbox/commands/delete_contact");
            reveal_strlit("delete_contact");
            assert("/api/inbox/commands/delete_contact"@ =~= "/api/inbox"@ + "/commands"@ + "/"@ + "delete_contact"@);
        },
        Endpoint::InboxCommand(InboxCommand::ImportContacts) => {
            reveal_strlit("/api/inbox/commands/import_contacts");
            reveal_strlit("import_contacts");
            assert("/api/inbox/commands/import_contacts"@ =~= "/api/inbox"@ + "/commands"@ + "/"@ + "import_contacts"@);
        },
        Endpoint::InboxCommand(InboxCommand::UpdateContact) => {
            reveal_strlit("/api/inbox/commands/update_contact");
            reveal_strlit("update_contact");
            assert("/api/inbox/commands/update_contact"@ =~= "/api/inbox"@ + "/commands"@ + "/"@ + "update_contact"@);
        },
        Endpoint::InboxCommand(InboxCommand::SendMessage) => {
            reveal_strlit("/api/inbox/commands/send_message");
            reveal_strlit("send_message");
            assert("/api/inbox/commands/send_message"@ =~= "/api/inbox"@ + "/commands"@ + "/"@ + "send_message"@);
        },
        Endpoint::InboxCommand(InboxCommand::SendChatboxMessage) => {
            reveal_strlit("/api/inbox/commands/send_chatbox_message");
            reveal_strlit("send_chatbox_message");
            assert("/api/inbox/commands/send_chatbox_message"@ =~= "/api/inbox"@ + "/commands"@ + "/"@ + "send_chatbox_message"@);
        },
        Endpoint::InboxCommand(InboxCommand::UpdateChatboxPreferences) => {
            reveal_strlit("/api/inbox/commands/update_chatbox_preferences");
            reveal_strlit("update_chatbox_preferences");
            assert("/api/inbox/commands/update_chatbox_preferences"@ =~= "/api/inbox"@ + "/commands"@ + "/"@ + "update_chatbox_preferences"@);
        },
        Endpoint::InboxCommand(InboxCommand::LinkChatboxContact) => {
            reveal_strlit("/api/inbox/commands/link_chatbox_contact");
            reveal_strlit("link_chatbox_contact");
            assert("/api/inbox/commands/link_chatbox_contact"@ =~= "/api/inbox"@ + "/commands"@ + "/"@ + "link_chatbox_contact"@);
        },
        Endpoint::InboxQuery(InboxQuery::Contact) => {
            reveal_strlit("/api/inbox/queries/contact");
            reveal_strlit("contact");
            assert("/api/inbox/queries/contact"@ =~= "/api/inbox"@ + "/queries"@ + "/"@ + "contact"@);
        },
        Endpoint::InboxQuery(InboxQuery::Contacts) => {
            reveal_strlit("/api/inbox/queries/contacts");
            reveal_strlit("contacts");
            assert("/api/inbox/queries/contacts"@ =~= "/api/inbox"@ + "/queries"@ + "/"@ + "contacts"@);
        },
        Endpoint::InboxQuery(InboxQuery::ChatboxPreferences) => {
            reveal_strlit("/api/inbox/queries/chatbox_preferences");
            reveal_strlit("chatbox_preferences");
            assert("/api/inbox/queries/chatbox_preferences"@ =~= "/api/inbox"@ + "/queries"@ + "/"@ + "chatbox_preferences"@);
        },
        Endpoint::InboxQuery(InboxQuery::ChatboxMessages) => {
            reveal_strlit("/api/inbox/queries/chatbox_messages");
            reveal_strlit("chatbox_messages");
            assert("/api/inbox/queries/chatbox_messages"@ =~= "/api/inbox"@ + "/queries"@ + "/"@ + "chatbox_messages"@);
        },
        Endpoint::InboxQuery(InboxQuery::Inbox) => {
            reveal_strlit("/api/inbox/queries/inbox");
            reveal_strlit("inbox");
            assert("/api/inbox/queries/inbox"@ =~= "/api/inbox"@ + "/queries"@ + "/"@ + "inbox"@);
        },
        Endpoint::InboxQuery(InboxQuery::Trash) => {
            reveal_strlit("/api/inbox/queries/trash");
            reveal_strlit("trash");
            assert("/api/inbox/queries/trash"@ =~= "/api/inbox"@ + "/queries"@ + "/"@ + "trash"@);
        },
        Endpoint::InboxQuery(InboxQuery::Archive) => {
            reveal_strlit("/api/inbox/queries/archive");
            reveal_strlit("archive");
            assert("/api/inbox/queries/archive"@ =~= "/api/inbox"@ + "/queries"@ + "/"@ + "archive"@);
        },
        Endpoint::InboxQuery(InboxQuery::Spam) => {
            reveal_strlit("/api/inbox/queries/spam");
            reveal_strlit("spam");
            assert("/api/inbox/queries/spam"@ =~= "/api/inbox"@ + "/queries"@ + "/"@ + "spam"@);
        },
        Endpoint::NewsletterCommand(NewsletterCommand::CreateList) => {
            reveal_strlit("/api/newsletter/commands/create_list");
            reveal_strlit("create_list");
            assert("/api/newsletter/commands/create_list"@ =~= "/api/newsletter"@ + "/commands"@ + "/"@ + "create_list"@);
        },
        Endpoint::NewsletterCommand(NewsletterCommand::CreateMessage) => {
            reveal_strlit("/api/newsletter/commands/create_message");
            reveal_strlit("create_message");
            assert("/api/newsletter/commands/create_message"@ =~= "/api/newsletter"@ + "/commands"@ + "/"@ + "create_message"@);
        },
        Endpoint::NewsletterCommand(NewsletterCommand::DeleteList) => {
            reveal_strlit("/api/newsletter/commands/delete_list");
            reveal_strlit("delete_list");
            assert("/api/newsletter/commands/delete_list"@ =~= "/api/newsletter"@ + "/commands"@ + "/"@ + "delete_list"@);
        },
        Endpoint::NewsletterCommand(NewsletterCommand::DeleteMessage) => {
            reveal_strlit("/api/newsletter/commands/delete_message");
            reveal_strlit("delete_message");
            assert("/api/newsletter/commands/delete_message"@ =~= "/api/newsletter"@ + "/commands"@ + "/"@ + "delete_message"@);
        },
        Endpoint::NewsletterCommand(NewsletterCommand::SendMessage) => {
            reveal_strlit("/api/newsletter/commands/send_message");
            reveal_strlit("send_message");
            assert("/api/newsletter/commands/send_message"@ =~= "/api/newsletter"@ + "/commands"@ + "/"@ + "send_message"@);
        },
        Endpoint::NewsletterCommand(NewsletterCommand::SendTestMessage) => {
            reveal_strlit("/api/newsletter/commands/send_test_message");
            reveal_strlit("send_test_message");
            assert("/api/newsletter/commands/send_test_message"@ =~= "/api/newsletter"@ + "/commands"@ + "/"@ + "send_test_message"@);
        },
        Endpoint::NewsletterCommand(NewsletterCommand::UpdateList) => {
            reveal_strlit("/api/newsletter/commands/update_list");
            reveal_strlit("update_list");
            assert("/api/newsletter/commands/update_list"@ =~= "/api/newsletter"@ + "/commands"@ + "/"@ + "update_list"@);
        },
        Endpoint::NewsletterCommand(NewsletterCommand::UpdateMessage) => {
            reveal_strlit("/api/newsletter/commands/update_message");
            reveal_strlit("update_message");
            assert("/api/newsletter/commands/update_message"@ =~= "/api/newsletter"@ + "/commands"@ + "/"@ + "update_message"@);
        },
        Endpoint::NewsletterCommand(NewsletterCommand::SubscribeToList) => {
            reveal_strlit("/api/newsletter/commands/subscribe_to_list");
            reveal_strlit("subscribe_to_list");
            assert("/api/newsletter/commands/subscribe_to_list"@ =~= "/api/newsletter"@ + "/commands"@ + "/"@ + "subscribe_to_list"@);
        },
        Endpoint::NewsletterCommand(NewsletterCommand::UnsubscribeFromList) => {
            reveal_strlit("/api/newsletter/commands/unsubscribe_from_list");
            reveal_strlit("unsubscribe_from_list");
            assert("/api/newsletter/commands/unsubscribe_from_list"@ =~= "/api/newsletter"@ + "/commands"@ + "/"@ + "unsubscribe_from_list"@);
        },
        Endpoint::NewsletterQuery(NewsletterQuery::List) => {
            reveal_strlit("/api/newsletter/queries/list");
            reveal_strlit("list");
            assert("/api/newsletter/queries/list"@ =~= "/api/newsletter"@ + "/queries"@ + "/"@ + "list"@);
        },
        Endpoint::NewsletterQuery(NewsletterQuery::Lists) => {
            reveal_strlit("/api/newsletter/queries/lists");
            reveal_strlit("lists");
            assert("/api/newsletter/queries/lists"@ =~= "/api/newsletter"@ + "/queries"@ + "/"@ + "lists"@);
        },
        Endpoint::NewsletterQuery(NewsletterQuery::Message) => {
            reveal_strlit("/api/newsletter/queries/message");
            reveal_strlit("message");
            assert("/api/newsletter/queries/message"@ =~= "/api/newsletter"@ + "/queries"@ + "/"@ + "message"@);
        },
        Endpoint::NewsletterQuery(NewsletterQuery::Messages) => {
            reveal_strlit("/api/newsletter/queries/messages");
            reveal_strlit("messages");
            assert("/api/newsletter/queries/messages"@ =~= "/api/newsletter"@ + "/queries"@ + "/"@ + "messages"@);
        },
    }
}

/// No two endpoints share a path.
pub proof fn lemma_paths_distinct(a: Endpoint, b: Endpoint)
    requires
        a.spec_path() == b.spec_path(),
    ensures
        a == b,
{
    lemma_path_facts(a);
    lemma_path_facts(b);
}

} // verus!
