//! The command tree for HeyReach CLI, as plain data: what a parsed command line asks for.

use vstd::prelude::*;

verus! {

/// A parsed command line.
#[derive(Debug)]
pub struct Cli {
    /// Print raw JSON instead of YAML, for scripting.
    pub json: bool,
    /// Output format: yaml or json (default: yaml).
    pub format: Option<String>,
    /// Override API key (or set HEYREACH_API_KEY env var).
    pub api_key: Option<String>,
    /// Account to run against (see 'heyreach accounts list').
    pub account: Option<String>,
    /// Print HTTP method, URL, and status code to stderr.
    pub verbose: bool,
    /// Disable colored output.
    pub no_color: bool,
    pub command: Command,
}

#[derive(Debug)]
pub enum Command {
    /// Print the operating manual for an LLM agent driving this CLI.
    AgentReadme,
    /// Log in with a HeyReach API key (opens browser to API settings).
    Login(Login),
    /// Manage HeyReach accounts and their API keys.
    Accounts(Accounts),
    /// Authentication commands.
    Auth(Auth),
    /// Campaign management.
    Campaigns(Campaigns),
    /// Lead list management.
    Lists(Lists),
    /// Lead operations.
    Leads(Leads),
    /// LinkedIn sender account management.
    Senders(Senders),
    /// Conversation management.
    Conversations(Conversations),
    /// Analytics and statistics.
    Stats(Stats),
    /// Webhook management.
    Webhooks(Webhooks),
    /// Tag management.
    Tags(Tags),
}

/// `login`.
#[derive(Debug)]
pub struct Login {
    /// Account name to store (default: "default").
    pub name: String,
    /// HeyReach API key (prompted for securely if omitted).
    pub api_key: Option<String>,
    /// Read the API key from stdin.
    pub api_key_stdin: bool,
    /// Do not open the browser to the API settings page automatically.
    pub no_browser: bool,
    /// Replace the key on an account that already exists.
    pub force: bool,
    /// Store the key without calling the API to check it first.
    pub skip_key_check: bool,
}

#[derive(Debug)]
pub enum Accounts {
    /// Add an account and store its API key in the OS keystore.
    Add { name: String, api_key: Option<String>, api_key_stdin: bool, force: bool, skip_key_check: bool },
    /// List configured accounts.
    List { check: bool },
    /// Test authentication for an account.
    Test { name: String },
    /// Remove an account from config and keystore.
    Remove { name: String, yes: bool },
}

#[derive(Debug)]
pub enum Auth {
    /// Validate the active API key.
    Check,
}

#[derive(Debug)]
pub enum Campaigns {
    /// List all campaigns.
    List { limit: u32, offset: u32, status: Option<String> },
    /// Get campaign details.
    Get { id: i64 },
    /// Pause a running campaign.
    Pause { id: i64 },
    /// Resume a paused campaign.
    Resume { id: i64 },
    /// Add leads to a campaign from stdin or --file.
    AddLeads { id: i64, file: Option<String> },
    /// Stop a specific lead in a campaign.
    StopLead { campaign_id: i64, lead: i64 },
}

#[derive(Debug)]
pub enum Lists {
    /// List all lead lists.
    List { limit: u32, offset: u32 },
    /// Get list details.
    Get { id: i64 },
    /// Create an empty list (`list_type`: user or company).
    Create { name: String, list_type: String },
    /// Get leads from a list.
    Leads { id: i64, limit: u32, offset: u32, keyword: Option<String> },
    /// Add a lead to a list.
    AddLead { id: i64, linkedin_url: String },
    /// Remove a lead from a list.
    RemoveLead { id: i64, lead: i64 },
    /// Get companies from a company list.
    Companies { id: i64, limit: u32, offset: u32 },
}

#[derive(Debug)]
pub enum Leads {
    /// Get lead details by LinkedIn URL.
    Get { linkedin_url: String },
    /// Get all lists containing a lead.
    Lists { linkedin_url: String },
    /// Update the status of a lead.
    UpdateStatus { lead: i64, status: String },
}

#[derive(Debug)]
pub enum Senders {
    /// List all LinkedIn sender accounts.
    List { limit: u32, offset: u32 },
    /// Get sender account details.
    Get { id: i64 },
    /// Get network connections for a sender account.
    Network { id: i64, limit: u32, offset: u32 },
}

#[derive(Debug)]
pub enum Conversations {
    /// List conversations.
    List { limit: u32, offset: u32, campaign_id: Option<i64>, sender_id: Option<i64> },
    /// Send a message to a lead.
    Send { lead: i64, message: String, sender_id: Option<i64> },
}

#[derive(Debug)]
pub enum Stats {
    /// Get overall stats.
    Get { from: Option<String>, to: Option<String>, campaign_id: Option<i64>, sender_id: Option<i64> },
}

#[derive(Debug)]
#[allow(inconsistent_fields)]
pub enum Webhooks {
    /// List all webhooks.
    List { limit: u32, offset: u32 },
    /// Get webhook details.
    Get { id: i64 },
    /// Create a webhook.
    Create { name: String, url: String, event: String, campaign_id: Option<i64> },
    /// Update a webhook.
    Update { id: i64, name: Option<String>, url: Option<String>, event: Option<String>, active: Option<bool> },
    /// Delete a webhook.
    Delete { id: i64 },
}

#[derive(Debug)]
pub enum Tags {
    /// Create a workspace tag.
    Create { name: String, color: Option<String> },
}

} // verus!
