//! What the kernel imports from agent ecosystems: instruction documents,
//! skills, commands, imported agent profiles and local MCP servers with
//! the resources they list. Each kind is validated, then kept in a
//! catalog keyed by its id.
use vstd::prelude::*;
use crate::error::AgentOsError;
use crate::json::{JsonValue, member, text_of};
use crate::state::KernelState;
use crate::text::{is_blank, trimmed, str_eq};

verus! {

/// Which ecosystem a source belongs to.
#[derive(Debug, Clone, Copy, PartialEq, Eq, Structural)]
pub enum EcosystemSourceKind {
    AgentOs,
    Agents,
}

/// Where an ecosystem source was found.
#[derive(Debug, Clone, Copy, PartialEq, Eq, Structural)]
pub enum EcosystemSourceScope {
    Config,
    Project,
}

/// The file an imported item came from.
#[derive(Debug)]
pub struct EcosystemSource {
    pub source_kind: EcosystemSourceKind,
    pub source_scope: EcosystemSourceScope,
    pub source_path: String,
}

/// An instruction document, such as a project's agent rules.
#[derive(Debug)]
pub struct InstructionDocument {
    pub instruction_id: String,
    pub source: EcosystemSource,
    pub precedence_rank: u32,
    pub content: String,
    pub content_hash: String,
    pub created_at: String,
}

/// A skill: a named directory of instructions.
#[derive(Debug)]
pub struct SkillDefinition {
    pub skill_id: String,
    pub name: String,
    pub description: String,
    pub root_path: String,
    pub skill_file_path: String,
    pub source: EcosystemSource,
    pub content: String,
    pub metadata: Vec<(String, String)>,
    pub content_hash: String,
    pub created_at: String,
}

/// A command: a named prompt template.
#[derive(Debug)]
pub struct CommandDefinition {
    pub command_id: String,
    pub name: String,
    pub description: String,
    pub template: String,
    pub source: EcosystemSource,
    pub content_hash: String,
    pub created_at: String,
}

/// An agent profile imported from another ecosystem.
#[derive(Debug)]
pub struct ImportedAgentProfile {
    pub imported_agent_profile_id: String,
    pub name: String,
    pub description: String,
    pub prompt: String,
    pub source: EcosystemSource,
    pub content_hash: String,
    pub created_at: String,
}

/// How the kernel talks to an MCP server.
#[derive(Debug, Clone, Copy, PartialEq, Eq, Structural)]
pub enum McpTransportKind {
    LocalStdio,
}

/// A local MCP server: the command that starts it and its environment.
#[derive(Debug)]
pub struct McpServerSpec {
    pub server_id: String,
    pub name: String,
    pub transport: McpTransportKind,
    pub command: Vec<String>,
    pub environment: Vec<(String, String)>,
    pub enabled: bool,
    pub timeout_ms: u64,
    pub source: EcosystemSource,
    pub created_at: String,
}

/// A resource an MCP server lists.
#[derive(Debug)]
pub struct McpResourceDefinition {
    pub mcp_resource_id: String,
    pub server_name: String,
    pub uri: String,
    pub name: Option<String>,
    pub description: Option<String>,
    pub mime_type: Option<String>,
    pub source: EcosystemSource,
    pub created_at: String,
}

/// A resource template an MCP server lists.
#[derive(Debug)]
pub struct McpResourceTemplateDefinition {
    pub mcp_resource_template_id: String,
    pub server_name: String,
    pub uri_template: String,
    pub name: Option<String>,
    pub description: Option<String>,
    pub mime_type: Option<String>,
    pub source: EcosystemSource,
    pub created_at: String,
}

/// A record kept in the catalog under a text key.
pub trait Keyed: Sized {
    /// The record's key.
    spec fn key_of(&self) -> Seq<char>;

    /// Two records with the same content.
    spec fn same_as(&self, other: &Self) -> bool;

    fn key(&self) -> (r: &str)
        ensures
            r@ == self.key_of(),
    ;

    fn duplicate(&self) -> (r: Self)
        ensures
            self.same_as(&r),
    ;
}

/// No key occurs twice.
pub open spec fn keys_unique<T: Keyed>(v: Seq<T>) -> bool {
    forall|i: int, j: int| 0 <= i < v.len() && 0 <= j < v.len() && #[trigger] v[i].key_of() == #[trigger] v[j].key_of() ==> i == j
}

/// Some record has key `k`.
pub open spec fn has_key<T: Keyed>(v: Seq<T>, k: Seq<char>) -> bool {
    exists|i: int| 0 <= i < v.len() && v[i].key_of() == k
}

/// The position of the record with key `k` (meaningful when `has_key`).
pub open spec fn key_pos<T: Keyed>(v: Seq<T>, k: Seq<char>) -> int {
    choose|i: int| 0 <= i < v.len() && v[i].key_of() == k
}

/// `after` is `before` with `x` kept under its key, replacing the record
/// kept there before if any.
pub open spec fn upserted<T: Keyed>(before: Seq<T>, after: Seq<T>, x: T) -> bool {
    if has_key(before, x.key_of()) {
        after == before.update(key_pos(before, x.key_of()), x)
    } else {
        after == before.push(x)
    }
}

/// Keeps `x` under its key in `v`.
fn upsert<T: Keyed>(v: &mut Vec<T>, x: T)
    requires
        keys_unique(old(v)@),
    ensures
        keys_unique(final(v)@),
        upserted(old(v)@, final(v)@, x),
{
    let ghost before = v@;
    let mut i: usize = 0;
    while i < v.len()
        invariant
            v@ == before,
            before == old(v)@,
            i <= v@.len(),
            keys_unique(v@),
            forall|j: int| 0 <= j < i ==> v@[j].key_of() != x.key_of(),
        decreases v@.len() - i,
    {
        if str_eq(v[i].key(), x.key()) {
            proof {
                assert(before[i as int].key_of() == x.key_of());
                assert(has_key(before, x.key_of()));
                let p = key_pos(before, x.key_of());
                assert(before[p].key_of() == before[i as int].key_of());
                assert(p == i);
            }
            v.set(i, x);
            assert(v@ =~= before.update(i as int, x));
            proof {
                assert forall|a: int, b: int|
                    0 <= a < v@.len() && 0 <= b < v@.len() && #[trigger] v@[a].key_of() == #[trigger] v@[b].key_of()
                    implies a == b by {
                    assert(v@[a].key_of() == before[a].key_of());
                    assert(v@[b].key_of() == before[b].key_of());
                }
            }
            return;
        }
        i = i + 1;
    }
    assert(!has_key(before, x.key_of()));
    v.push(x);
    assert(v@ =~= before.push(x));
    proof {
        assert forall|a: int, b: int|
            0 <= a < v@.len() && 0 <= b < v@.len() && #[trigger] v@[a].key_of() == #[trigger] v@[b].key_of() implies a
                == b by {
            if a < before.len() {
                assert(v@[a] == before[a]);
            }
            if b < before.len() {
                assert(v@[b] == before[b]);
            }
        }
    }
}

/// The imported items, each kind keyed by its id (MCP servers by name).
#[derive(Debug)]
pub struct EcosystemCatalog {
    pub instruction_documents: Vec<InstructionDocument>,
    pub skills: Vec<SkillDefinition>,
    pub commands: Vec<CommandDefinition>,
    pub imported_agent_profiles: Vec<ImportedAgentProfile>,
    pub mcp_servers: Vec<McpServerSpec>,
    pub mcp_resources: Vec<McpResourceDefinition>,
    pub mcp_resource_templates: Vec<McpResourceTemplateDefinition>,
}

impl EcosystemCatalog {
    /// Every kind is keyed uniquely.
    pub open spec fn wf(&self) -> bool {
        &&& keys_unique(self.instruction_documents@)
        &&& keys_unique(self.skills@)
        &&& keys_unique(self.commands@)
        &&& keys_unique(self.imported_agent_profiles@)
        &&& keys_unique(self.mcp_servers@)
        &&& keys_unique(self.mcp_resources@)
        &&& keys_unique(self.mcp_resource_templates@)
    }

    /// An empty catalog.
    pub fn new() -> (r: EcosystemCatalog)
        ensures
            r.wf(),
            r.instruction_documents@.len() == 0,
            r.skills@.len() == 0,
            r.commands@.len() == 0,
            r.imported_agent_profiles@.len() == 0,
            r.mcp_servers@.len() == 0,
            r.mcp_resources@.len() == 0,
            r.mcp_resource_templates@.len() == 0,
    {
        EcosystemCatalog {
            instruction_documents: Vec::new(),
            skills: Vec::new(),
            commands: Vec::new(),
            imported_agent_profiles: Vec::new(),
            mcp_servers: Vec::new(),
            mcp_resources: Vec::new(),
            mcp_resource_templates: Vec::new(),
        }
    }
}

fn copy_opt(o: &Option<String>) -> (r: Option<String>)
    ensures
        r == *o,
{
    match o {
        Some(s) => Some(s.clone()),
        None => None,
    }
}

fn copy_pairs(v: &Vec<(String, String)>) -> (r: Vec<(String, String)>)
    ensures
        r@ == v@,
{
    let mut out: Vec<(String, String)> = Vec::new();
    let mut i: usize = 0;
    while i < v.len()
        invariant
            i <= v@.len(),
            out@ == v@.subrange(0, i as int),
        decreases v@.len() - i,
    {
        out.push((v[i].0.clone(), v[i].1.clone()));
        assert(out@ =~= v@.subrange(0, i + 1));
        i = i + 1;
    }
    assert(out@ =~= v@);
    out
}

impl EcosystemSource {
    /// A copy of this source.
    pub fn duplicate(&self) -> (r: EcosystemSource)
        ensures
            r == *self,
    {
        EcosystemSource { source_kind: self.source_kind, source_scope: self.source_scope, source_path: self.source_path.clone() }
    }
}

impl Keyed for InstructionDocument {
    open spec fn key_of(&self) -> Seq<char> {
        self.instruction_id@
    }

    open spec fn same_as(&self, other: &Self) -> bool {
        *self == *other
    }

    fn key(&self) -> (r: &str) {
        self.instruction_id.as_str()
    }

    fn duplicate(&self) -> (r: Self) {
        InstructionDocument {
            instruction_id: self.instruction_id.clone(),
            source: self.source.duplicate(),
            precedence_rank: self.precedence_rank,
            content: self.content.clone(),
            content_hash: self.content_hash.clone(),
            created_at: self.created_at.clone(),
        }
    }
}

impl Keyed for SkillDefinition {
    open spec fn key_of(&self) -> Seq<char> {
        self.skill_id@
    }

    open spec fn same_as(&self, other: &Self) -> bool {
        &&& self.skill_id == other.skill_id
        &&& self.name == other.name
        &&& self.description == other.description
        &&& self.root_path == other.root_path
        &&& self.skill_file_path == other.skill_file_path
        &&& self.source == other.source
        &&& self.content == other.content
        &&& self.metadata@ == other.metadata@
        &&& self.content_hash == other.content_hash
        &&& self.created_at == other.created_at
    }

    fn key(&self) -> (r: &str) {
        self.skill_id.as_str()
    }

    fn duplicate(&self) -> (r: Self) {
        SkillDefinition {
            skill_id: self.skill_id.clone(),
            name: self.name.clone(),
            description: self.description.clone(),
            root_path: self.root_path.clone(),
            skill_file_path: self.skill_file_path.clone(),
            source: self.source.duplicate(),
            content: self.content.clone(),
            metadata: copy_pairs(&self.metadata),
            content_hash: self.content_hash.clone(),
            created_at: self.created_at.clone(),
        }
    }
}

impl Keyed for CommandDefinition {
    open spec fn key_of(&self) -> Seq<char> {
        self.command_id@
    }

    open spec fn same_as(&self, other: &Self) -> bool {
        *self == *other
    }

    fn key(&self) -> (r: &str) {
        self.command_id.as_str()
    }

    fn duplicate(&self) -> (r: Self) {
        CommandDefinition {
            command_id: self.command_id.clone(),
            name: self.name.clone(),
            description: self.description.clone(),
            template: self.template.clone(),
            source: self.source.duplicate(),
            content_hash: self.content_hash.clone(),
            created_at: self.created_at.clone(),
        }
    }
}

impl Keyed for ImportedAgentProfile {
    open spec fn key_of(&self) -> Seq<char> {
        self.imported_agent_profile_id@
    }

    open spec fn same_as(&self, other: &Self) -> bool {
        *self == *other
    }

    fn key(&self) -> (r: &str) {
        self.imported_agent_profile_id.as_str()
    }

    fn duplicate(&self) -> (r: Self) {
        ImportedAgentProfile {
            imported_agent_profile_id: self.imported_agent_profile_id.clone(),
            name: self.name.clone(),
            description: self.description.clone(),
            prompt: self.prompt.clone(),
            source: self.source.duplicate(),
            content_hash: self.content_hash.clone(),
            created_at: self.created_at.clone(),
        }
    }
}

impl Keyed for McpServerSpec {
    open spec fn key_of(&self) -> Seq<char> {
        self.name@
    }

    open spec fn same_as(&self, other: &Self) -> bool {
        &&& self.server_id == other.server_id
        &&& self.name == other.name
        &&& self.transport == other.transport
        &&& self.command@ == other.command@
        &&& self.environment@ == other.environment@
        &&& self.enabled == other.enabled
        &&& self.timeout_ms == other.timeout_ms
        &&& self.source == other.source
        &&& self.created_at == other.created_at
    }

    fn key(&self) -> (r: &str) {
        self.name.as_str()
    }

    fn duplicate(&self) -> (r: Self) {
        McpServerSpec {
            server_id: self.server_id.clone(),
            name: self.name.clone(),
            transport: self.transport,
            command: crate::text::copy_strings(&self.command),
            environment: copy_pairs(&self.environment),
            enabled: self.enabled,
            timeout_ms: self.timeout_ms,
            source: self.source.duplicate(),
            created_at: self.created_at.clone(),
        }
    }
}

impl Keyed for McpResourceDefinition {
    open spec fn key_of(&self) -> Seq<char> {
        self.mcp_resource_id@
    }

    open spec fn same_as(&self, other: &Self) -> bool {
        *self == *other
    }

    fn key(&self) -> (r: &str) {
        self.mcp_resource_id.as_str()
    }

    fn duplicate(&self) -> (r: Self) {
        McpResourceDefinition {
            mcp_resource_id: self.mcp_resource_id.clone(),
            server_name: self.server_name.clone(),
            uri: self.uri.clone(),
            name: copy_opt(&self.name),
            description: copy_opt(&self.description),
            mime_type: copy_opt(&self.mime_type),
            source: self.source.duplicate(),
            created_at: self.created_at.clone(),
        }
    }
}

impl Keyed for McpResourceTemplateDefinition {
    open spec fn key_of(&self) -> Seq<char> {
        self.mcp_resource_template_id@
    }

    open spec fn same_as(&self, other: &Self) -> bool {
        *self == *other
    }

    fn key(&self) -> (r: &str) {
        self.mcp_resource_template_id.as_str()
    }

    fn duplicate(&self) -> (r: Self) {
        McpResourceTemplateDefinition {
            mcp_resource_template_id: self.mcp_resource_template_id.clone(),
            server_name: self.server_name.clone(),
            uri_template: self.uri_template.clone(),
            name: copy_opt(&self.name),
            description: copy_opt(&self.description),
            mime_type: copy_opt(&self.mime_type),
            source: self.source.duplicate(),
            created_at: self.created_at.clone(),
        }
    }
}

// ---------------------------------------------------------------------------
// Validation

/// Why a skill is refused: a missing id, name, description, path or hash.
pub open spec fn skill_error(s: SkillDefinition) -> Option<AgentOsError> {
    if s.skill_id@.len() == 0 || s.name@.len() == 0 || s.description@.len() == 0 || s.root_path@.len() == 0
        || s.skill_file_path@.len() == 0 || s.content_hash@.len() == 0 {
        Some(AgentOsError::Validation("skill requires id, name, description, root path, file path, and content hash"))
    } else {
        None
    }
}

/// The template uses shell interpolation (`` !` ``).
pub open spec fn has_shell_interpolation(t: Seq<char>) -> bool {
    exists|i: int| 0 <= i < t.len() - 1 && #[trigger] t[i] == '!' && t[i + 1] == '`'
}

/// Why a command is refused: a missing id, name, template or hash, or a
/// template that interpolates shell output.
pub open spec fn command_error(c: CommandDefinition) -> Option<AgentOsError> {
    if c.command_id@.len() == 0 || c.name@.len() == 0 || trimmed(c.template@).len() == 0 || c.content_hash@.len() == 0 {
        Some(AgentOsError::Validation("command requires id, name, non-empty template, and content hash"))
    } else if has_shell_interpolation(c.template@) {
        Some(AgentOsError::Validation("command templates must not use shell interpolation"))
    } else {
        None
    }
}

/// Why an MCP server is refused: a missing id, name or command.
pub open spec fn server_error(s: McpServerSpec) -> Option<AgentOsError> {
    if s.server_id@.len() == 0 || s.name@.len() == 0 || s.command@.len() == 0 {
        Some(AgentOsError::Validation("local stdio MCP server requires id, name, and command"))
    } else {
        None
    }
}

/// Why an MCP resource is refused: a missing id, server or uri.
pub open spec fn resource_error(r: McpResourceDefinition) -> Option<AgentOsError> {
    if r.mcp_resource_id@.len() == 0 || r.server_name@.len() == 0 || trimmed(r.uri@).len() == 0 {
        Some(AgentOsError::Validation("MCP resource requires id, server, and uri"))
    } else {
        None
    }
}

/// Why an MCP resource template is refused: a missing id, server or uri
/// template.
pub open spec fn resource_template_error(t: McpResourceTemplateDefinition) -> Option<AgentOsError> {
    if t.mcp_resource_template_id@.len() == 0 || t.server_name@.len() == 0 || trimmed(t.uri_template@).len() == 0 {
        Some(AgentOsError::Validation("MCP resource template requires id, server, and uri_template"))
    } else {
        None
    }
}

/// Why an imported agent profile is refused: a missing id, name, prompt
/// or hash.
pub open spec fn imported_profile_error(p: ImportedAgentProfile) -> Option<AgentOsError> {
    if p.imported_agent_profile_id@.len() == 0 || p.name@.len() == 0 || trimmed(p.prompt@).len() == 0
        || p.content_hash@.len() == 0 {
        Some(AgentOsError::Validation("imported agent profile requires id, name, prompt, and content hash"))
    } else {
        None
    }
}

/// Why an instruction document is refused: a missing id, source path or
/// hash.
pub open spec fn instruction_error(d: InstructionDocument) -> Option<AgentOsError> {
    if d.instruction_id@.len() == 0 || d.source.source_path@.len() == 0 || d.content_hash@.len() == 0 {
        Some(AgentOsError::Validation("instruction document requires id, source path, and content hash"))
    } else {
        None
    }
}

/// Whether `t` contains `` !` ``.
fn shell_interpolation(t: &str) -> (r: bool)
    ensures
        r == has_shell_interpolation(t@),
{
    let n = t.unicode_len();
    if n < 2 {
        return false;
    }
    let mut i: usize = 0;
    while i + 1 < n
        invariant
            n == t@.len(),
            n >= 2,
            i + 1 <= n,
            forall|j: int| 0 <= j < i ==> !(#[trigger] t@[j] == '!' && t@[j + 1] == '`'),
        decreases n - i,
    {
        if t.get_char(i) == '!' && t.get_char(i + 1) == '`' {
            return true;
        }
        i = i + 1;
    }
    false
}

/// Checks a skill definition.
pub fn validate_skill_definition(skill: &SkillDefinition) -> (r: Result<(), AgentOsError>)
    ensures
        match skill_error(*skill) {
            Some(e) => r == Err::<(), AgentOsError>(e),
            None => r is Ok,
        },
{
    if skill.skill_id.unicode_len() == 0 || skill.name.unicode_len() == 0 || skill.description.unicode_len() == 0
        || skill.root_path.unicode_len() == 0 || skill.skill_file_path.unicode_len() == 0
        || skill.content_hash.unicode_len() == 0 {
        return Err(AgentOsError::Validation("skill requires id, name, description, root path, file path, and content hash"));
    }
    Ok(())
}

/// Checks a command definition.
pub fn validate_command_definition(command: &CommandDefinition) -> (r: Result<(), AgentOsError>)
    ensures
        match command_error(*command) {
            Some(e) => r == Err::<(), AgentOsError>(e),
            None => r is Ok,
        },
{
    if command.command_id.unicode_len() == 0 || command.name.unicode_len() == 0 || is_blank(command.template.as_str())
        || command.content_hash.unicode_len() == 0 {
        return Err(AgentOsError::Validation("command requires id, name, non-empty template, and content hash"));
    }
    if shell_interpolation(command.template.as_str()) {
        return Err(AgentOsError::Validation("command templates must not use shell interpolation"));
    }
    Ok(())
}

/// Checks an MCP server specification.
pub fn validate_mcp_server_spec(server: &McpServerSpec) -> (r: Result<(), AgentOsError>)
    ensures
        match server_error(*server) {
            Some(e) => r == Err::<(), AgentOsError>(e),
            None => r is Ok,
        },
{
    if server.server_id.unicode_len() == 0 || server.name.unicode_len() == 0 || server.command.len() == 0 {
        return Err(AgentOsError::Validation("local stdio MCP server requires id, name, and command"));
    }
    Ok(())
}

/// Checks an MCP resource definition.
pub fn validate_mcp_resource_definition(resource: &McpResourceDefinition) -> (r: Result<(), AgentOsError>)
    ensures
        match resource_error(*resource) {
            Some(e) => r == Err::<(), AgentOsError>(e),
            None => r is Ok,
        },
{
    if resource.mcp_resource_id.unicode_len() == 0 || resource.server_name.unicode_len() == 0 || is_blank(
        resource.uri.as_str(),
    ) {
        return Err(AgentOsError::Validation("MCP resource requires id, server, and uri"));
    }
    Ok(())
}

/// Checks an MCP resource template definition.
pub fn validate_mcp_resource_template_definition(template: &McpResourceTemplateDefinition) -> (r: Result<
    (),
    AgentOsError,
>)
    ensures
        match resource_template_error(*template) {
            Some(e) => r == Err::<(), AgentOsError>(e),
            None => r is Ok,
        },
{
    if template.mcp_resource_template_id.unicode_len() == 0 || template.server_name.unicode_len() == 0 || is_blank(
        template.uri_template.as_str(),
    ) {
        return Err(AgentOsError::Validation("MCP resource template requires id, server, and uri_template"));
    }
    Ok(())
}

/// Checks an imported agent profile.
pub fn validate_imported_agent_profile(profile: &ImportedAgentProfile) -> (r: Result<(), AgentOsError>)
    ensures
        match imported_profile_error(*profile) {
            Some(e) => r == Err::<(), AgentOsError>(e),
            None => r is Ok,
        },
{
    if profile.imported_agent_profile_id.unicode_len() == 0 || profile.name.unicode_len() == 0 || is_blank(
        profile.prompt.as_str(),
    ) || profile.content_hash.unicode_len() == 0 {
        return Err(AgentOsError::Validation("imported agent profile requires id, name, prompt, and content hash"));
    }
    Ok(())
}

// ---------------------------------------------------------------------------
// Registration

/// `after` is `before` with only its catalog changed.
pub open spec fn catalog_only(before: KernelState, after: KernelState) -> bool {
    after == (KernelState { ecosystem: after.ecosystem, ..before })
}

impl KernelState {
    /// Imports instruction document `document`, replacing one with the
    /// same id. A document without id, source path or hash is refused.
    pub fn import_instruction_document(&mut self, document: InstructionDocument) -> (r: Result<
        InstructionDocument,
        AgentOsError,
    >)
        requires
            old(self).wf(),
        ensures
            final(self).wf(),
            match instruction_error(document) {
                Some(e) => r == Err::<InstructionDocument, AgentOsError>(e) && *final(self) == *old(self),
                None => {
                    &&& r == Ok::<InstructionDocument, AgentOsError>(document)
                    &&& upserted(old(self).ecosystem.instruction_documents@, final(self).ecosystem.instruction_documents@, document)
                    &&& final(self).ecosystem == (EcosystemCatalog { instruction_documents: final(self).ecosystem.instruction_documents, ..old(self).ecosystem })
                    &&& catalog_only(*old(self), *final(self))
                },
            },
    {
        if document.instruction_id.unicode_len() == 0 || document.source.source_path.unicode_len() == 0
            || document.content_hash.unicode_len() == 0 {
            return Err(AgentOsError::Validation("instruction document requires id, source path, and content hash"));
        }
        let out = document.duplicate();
        upsert(&mut self.ecosystem.instruction_documents, document);
        Ok(out)
    }

    /// Imports skill `skill`, replacing one with the same id, once
    /// `validate_skill_definition` accepts it.
    pub fn import_skill_definition(&mut self, skill: SkillDefinition) -> (r: Result<SkillDefinition, AgentOsError>)
        requires
            old(self).wf(),
        ensures
            final(self).wf(),
            match skill_error(skill) {
                Some(e) => r == Err::<SkillDefinition, AgentOsError>(e) && *final(self) == *old(self),
                None => {
                    &&& r matches Ok(v) && skill.same_as(&v)
                    &&& upserted(old(self).ecosystem.skills@, final(self).ecosystem.skills@, skill)
                    &&& final(self).ecosystem == (EcosystemCatalog { skills: final(self).ecosystem.skills, ..old(self).ecosystem })
                    &&& catalog_only(*old(self), *final(self))
                },
            },
    {
        match validate_skill_definition(&skill) {
            Err(e) => return Err(e),
            Ok(()) => {},
        }
        let out = skill.duplicate();
        upsert(&mut self.ecosystem.skills, skill);
        Ok(out)
    }

    /// Imports command `command`, replacing one with the same id, once
    /// `validate_command_definition` accepts it.
    pub fn import_command_definition(&mut self, command: CommandDefinition) -> (r: Result<CommandDefinition, AgentOsError>)
        requires
            old(self).wf(),
        ensures
            final(self).wf(),
            match command_error(command) {
                Some(e) => r == Err::<CommandDefinition, AgentOsError>(e) && *final(self) == *old(self),
                None => {
                    &&& r == Ok::<CommandDefinition, AgentOsError>(command)
                    &&& upserted(old(self).ecosystem.commands@, final(self).ecosystem.commands@, command)
                    &&& final(self).ecosystem == (EcosystemCatalog { commands: final(self).ecosystem.commands, ..old(self).ecosystem })
                    &&& catalog_only(*old(self), *final(self))
                },
            },
    {
        match validate_command_definition(&command) {
            Err(e) => return Err(e),
            Ok(()) => {},
        }
        let out = command.duplicate();
        upsert(&mut self.ecosystem.commands, command);
        Ok(out)
    }

    /// Registers MCP server `server` under its name, replacing one with the
    /// same name, once `validate_mcp_server_spec` accepts it.
    pub fn register_mcp_server_spec(&mut self, server: McpServerSpec) -> (r: Result<McpServerSpec, AgentOsError>)
        requires
            old(self).wf(),
        ensures
            final(self).wf(),
            match server_error(server) {
                Some(e) => r == Err::<McpServerSpec, AgentOsError>(e) && *final(self) == *old(self),
                None => {
                    &&& r matches Ok(v) && server.same_as(&v)
                    &&& upserted(old(self).ecosystem.mcp_servers@, final(self).ecosystem.mcp_servers@, server)
                    &&& final(self).ecosystem == (EcosystemCatalog { mcp_servers: final(self).ecosystem.mcp_servers, ..old(self).ecosystem })
                    &&& catalog_only(*old(self), *final(self))
                },
            },
    {
        match validate_mcp_server_spec(&server) {
            Err(e) => return Err(e),
            Ok(()) => {},
        }
        let out = server.duplicate();
        upsert(&mut self.ecosystem.mcp_servers, server);
        Ok(out)
    }

    fn has_mcp_server(&self, name: &str) -> (r: bool)
        ensures
            r == has_key(self.ecosystem.mcp_servers@, name@),
    {
        let mut i: usize = 0;
        while i < self.ecosystem.mcp_servers.len()
            invariant
                i <= self.ecosystem.mcp_servers@.len(),
                forall|j: int| 0 <= j < i ==> self.ecosystem.mcp_servers@[j].key_of() != name@,
            decreases self.ecosystem.mcp_servers@.len() - i,
        {
            if str_eq(self.ecosystem.mcp_servers[i].name.as_str(), name) {
                return true;
            }
            i = i + 1;
        }
        false
    }

    /// Registers MCP resource `resource`, replacing one with the same id.
    /// An invalid resource is refused as `validate_mcp_resource_definition`
    /// says; one of an unregistered server is `NotFound`.
    pub fn register_mcp_resource_definition(&mut self, resource: McpResourceDefinition) -> (r: Result<
        McpResourceDefinition,
        AgentOsError,
    >)
        requires
            old(self).wf(),
        ensures
            final(self).wf(),
            resource_error(resource) matches Some(e) ==> r == Err::<McpResourceDefinition, AgentOsError>(e)
                && *final(self) == *old(self),
            resource_error(resource) is None && !has_key(old(self).ecosystem.mcp_servers@, resource.server_name@) ==> r
                == Err::<McpResourceDefinition, AgentOsError>(AgentOsError::NotFound("MCP server"))
                && *final(self) == *old(self),
            resource_error(resource) is None && has_key(old(self).ecosystem.mcp_servers@, resource.server_name@) ==> {
                &&& r == Ok::<McpResourceDefinition, AgentOsError>(resource)
                &&& upserted(old(self).ecosystem.mcp_resources@, final(self).ecosystem.mcp_resources@, resource)
                &&& final(self).ecosystem == (EcosystemCatalog { mcp_resources: final(self).ecosystem.mcp_resources, ..old(self).ecosystem })
                &&& catalog_only(*old(self), *final(self))
            },
    {
        match validate_mcp_resource_definition(&resource) {
            Err(e) => return Err(e),
            Ok(()) => {},
        }
        if !self.has_mcp_server(resource.server_name.as_str()) {
            return Err(AgentOsError::NotFound("MCP server"));
        }
        let out = resource.duplicate();
        upsert(&mut self.ecosystem.mcp_resources, resource);
        Ok(out)
    }

    /// Registers MCP resource template `template`, replacing one with the
    /// same id. An invalid template is refused as
    /// `validate_mcp_resource_template_definition` says; one of an
    /// unregistered server is `NotFound`.
    pub fn register_mcp_resource_template_definition(&mut self, template: McpResourceTemplateDefinition) -> (r: Result<
        McpResourceTemplateDefinition,
        AgentOsError,
    >)
        requires
            old(self).wf(),
        ensures
            final(self).wf(),
            resource_template_error(template) matches Some(e) ==> r == Err::<McpResourceTemplateDefinition, AgentOsError>(e)
                && *final(self) == *old(self),
            resource_template_error(template) is None && !has_key(old(self).ecosystem.mcp_servers@, template.server_name@)
                ==> r == Err::<McpResourceTemplateDefinition, AgentOsError>(AgentOsError::NotFound("MCP server"))
                && *final(self) == *old(self),
            resource_template_error(template) is None && has_key(old(self).ecosystem.mcp_servers@, template.server_name@)
                ==> {
                &&& r == Ok::<McpResourceTemplateDefinition, AgentOsError>(template)
                &&& upserted(old(self).ecosystem.mcp_resource_templates@, final(self).ecosystem.mcp_resource_templates@, template)
                &&& final(self).ecosystem == (EcosystemCatalog {
                    mcp_resource_templates: final(self).ecosystem.mcp_resource_templates,
                    ..old(self).ecosystem
                })
                &&& catalog_only(*old(self), *final(self))
            },
    {
        match validate_mcp_resource_template_definition(&template) {
            Err(e) => return Err(e),
            Ok(()) => {},
        }
        if !self.has_mcp_server(template.server_name.as_str()) {
            return Err(AgentOsError::NotFound("MCP server"));
        }
        let out = template.duplicate();
        upsert(&mut self.ecosystem.mcp_resource_templates, template);
        Ok(out)
    }

    /// Registers imported agent profile `profile`, replacing one with the
    /// same id, once `validate_imported_agent_profile` accepts it.
    pub fn register_imported_agent_profile(&mut self, profile: ImportedAgentProfile) -> (r: Result<
        ImportedAgentProfile,
        AgentOsError,
    >)
        requires
            old(self).wf(),
        ensures
            final(self).wf(),
            match imported_profile_error(profile) {
                Some(e) => r == Err::<ImportedAgentProfile, AgentOsError>(e) && *final(self) == *old(self),
                None => {
                    &&& r == Ok::<ImportedAgentProfile, AgentOsError>(profile)
                    &&& upserted(old(self).ecosystem.imported_agent_profiles@, final(self).ecosystem.imported_agent_profiles@, profile)
                    &&& final(self).ecosystem == (EcosystemCatalog {
                        imported_agent_profiles: final(self).ecosystem.imported_agent_profiles,
                        ..old(self).ecosystem
                    })
                    &&& catalog_only(*old(self), *final(self))
                },
            },
    {
        match validate_imported_agent_profile(&profile) {
            Err(e) => return Err(e),
            Ok(()) => {},
        }
        let out = profile.duplicate();
        upsert(&mut self.ecosystem.imported_agent_profiles, profile);
        Ok(out)
    }
}

// ---------------------------------------------------------------------------
// Stable ids of listed MCP items

/// Names the SHA-256 digest of a byte string.
pub uninterp spec fn sha256_of(bytes: Seq<u8>) -> Seq<u8>;

/// Calls `sha2::Sha256::digest`: the SHA-256 digest of `bytes`, 32 bytes
/// long (the output size of `Sha256`). What the digest is, is named by
/// `sha256_of` and not stated.
#[verifier::external_body]
fn sha256(bytes: &[u8]) -> (r: Vec<u8>)
    ensures
        r@ == sha256_of(bytes@),
        r@.len() == 32,
{
    <sha2::Sha256 as sha2::Digest>::digest(bytes).to_vec()
}

/// The lowercase hexadecimal digits.
pub open spec fn hex_digits() -> Seq<char> {
    "0123456789abcdef"@
}

/// `bytes` in lowercase hexadecimal, two digits a byte, high digit first.
pub open spec fn hex_of(bytes: Seq<u8>) -> Seq<char>
    decreases bytes.len(),
{
    if bytes.len() == 0 {
        Seq::empty()
    } else {
        let b = bytes[bytes.len() - 1];
        hex_of(bytes.subrange(0, bytes.len() - 1)) + seq![hex_digits()[(b / 16) as int], hex_digits()[(b % 16) as int]]
    }
}

/// The stable id of an item `b` of MCP server `a`: `prefix`, then the
/// first 16 hexadecimal digits of the SHA-256 digest of the UTF-8 text
/// `a`, a line break, `b`.
pub open spec fn stable_id(prefix: Seq<char>, a: Seq<char>, b: Seq<char>) -> Seq<char> {
    prefix + hex_of(sha256_of(vstd::utf8::encode_utf8(a + "\n"@ + b)).subrange(0, 8))
}

fn hex_digit(n: u8) -> (r: &'static str)
    requires
        n < 16,
    ensures
        r@ == seq![hex_digits()[n as int]],
{
    let digits = "0123456789abcdef";
    proof {
        reveal_strlit("0123456789abcdef");
    }
    let d = n as usize;
    let r = digits.substring_char(d, d + 1);
    assert(r@ =~= seq![hex_digits()[n as int]]);
    r
}

fn stable_id_text(prefix: &str, a: &str, b: &str) -> (r: String)
    ensures
        r@ == stable_id(prefix@, a@, b@),
{
    let mut joined = String::from_str(a);
    joined.append("\n");
    joined.append(b);
    let digest = sha256(joined.as_str().as_bytes());
    let mut out = String::from_str(prefix);
    let mut i: usize = 0;
    while i < 8
        invariant
            digest@.len() == 32,
            i <= 8,
            out@ == prefix@ + hex_of(digest@.subrange(0, i as int)),
        decreases 8 - i,
    {
        let byte = digest[i];
        out.append(hex_digit(byte / 16));
        out.append(hex_digit(byte % 16));
        proof {
            let s = digest@.subrange(0, i + 1);
            assert(s.subrange(0, s.len() - 1) =~= digest@.subrange(0, i as int));
            assert(s[s.len() - 1] == byte);
        }
        i = i + 1;
    }
    out
}

/// The stable id of resource `uri` of server `server_name`.
pub fn stable_mcp_resource_id(server_name: &str, uri: &str) -> (r: String)
    ensures
        r@ == stable_id("mcpres_"@, server_name@, uri@),
{
    stable_id_text("mcpres_", server_name, uri)
}

/// The stable id of resource template `uri_template` of server
/// `server_name`.
pub fn stable_mcp_resource_template_id(server_name: &str, uri_template: &str) -> (r: String)
    ensures
        r@ == stable_id("mcprestpl_"@, server_name@, uri_template@),
{
    stable_id_text("mcprestpl_", server_name, uri_template)
}

/// The stable id of tool `tool_name` of server `server_name`.
pub fn stable_mcp_tool_id(server_name: &str, tool_name: &str) -> (r: String)
    ensures
        r@ == stable_id("mcptool_"@, server_name@, tool_name@),
{
    stable_id_text("mcptool_", server_name, tool_name)
}

// ---------------------------------------------------------------------------
// Definitions from what a server lists

/// An optional text member: absent, or a string.
pub open spec fn optional_text_ok(item: JsonValue, field: Seq<char>) -> bool {
    member(item, field) is None || text_of(member(item, field)) is Some
}

/// The text of an optional member.
pub open spec fn opt_text(o: Option<String>) -> Option<Seq<char>> {
    match o {
        Some(s) => Some(s@),
        None => None,
    }
}

/// Why a listed resource cannot be read: no string `uri`, or a `name`,
/// `description`, `mimeType` or `mime_type` that is not a string.
pub open spec fn resource_item_error(item: JsonValue) -> Option<AgentOsError> {
    if text_of(member(item, "uri"@)) is None {
        Some(AgentOsError::Validation("MCP resource missing string field uri"))
    } else if !optional_text_ok(item, "name"@) {
        Some(AgentOsError::Validation("MCP resource field name must be a string"))
    } else if !optional_text_ok(item, "description"@) {
        Some(AgentOsError::Validation("MCP resource field description must be a string"))
    } else if !optional_text_ok(item, "mimeType"@) {
        Some(AgentOsError::Validation("MCP resource field mimeType must be a string"))
    } else if !optional_text_ok(item, "mime_type"@) {
        Some(AgentOsError::Validation("MCP resource field mime_type must be a string"))
    } else {
        None
    }
}

/// The uri template of a listed template: `uriTemplate`, else `uri_template`.
pub open spec fn listed_uri_template(item: JsonValue) -> Option<Seq<char>> {
    match text_of(member(item, "uriTemplate"@)) {
        Some(t) => Some(t),
        None => text_of(member(item, "uri_template"@)),
    }
}

/// Why a listed resource template cannot be read: no string uri template,
/// or a `name`, `description`, `mimeType` or `mime_type` that is not a
/// string.
pub open spec fn resource_template_item_error(item: JsonValue) -> Option<AgentOsError> {
    if listed_uri_template(item) is None {
        Some(AgentOsError::Validation("MCP resource template missing string field uri_template"))
    } else if !optional_text_ok(item, "name"@) {
        Some(AgentOsError::Validation("MCP resource template field name must be a string"))
    } else if !optional_text_ok(item, "description"@) {
        Some(AgentOsError::Validation("MCP resource template field description must be a string"))
    } else if !optional_text_ok(item, "mimeType"@) {
        Some(AgentOsError::Validation("MCP resource template field mimeType must be a string"))
    } else if !optional_text_ok(item, "mime_type"@) {
        Some(AgentOsError::Validation("MCP resource template field mime_type must be a string"))
    } else {
        None
    }
}

/// The mime type of a listed item: `mimeType`, else `mime_type`.
pub open spec fn listed_mime_type(item: JsonValue) -> Option<Seq<char>> {
    match text_of(member(item, "mimeType"@)) {
        Some(t) => Some(t),
        None => text_of(member(item, "mime_type"@)),
    }
}

/// `d` is the definition of listed resource `item` of `server`.
pub open spec fn is_listed_resource(d: McpResourceDefinition, server: McpServerSpec, item: JsonValue, source: EcosystemSource, now: String) -> bool {
    let uri = text_of(member(item, "uri"@)).unwrap();
    &&& d.mcp_resource_id@ == stable_id("mcpres_"@, server.name@, uri)
    &&& d.server_name@ == server.name@
    &&& d.uri@ == uri
    &&& opt_text(d.name) == text_of(member(item, "name"@))
    &&& opt_text(d.description) == text_of(member(item, "description"@))
    &&& opt_text(d.mime_type) == listed_mime_type(item)
    &&& d.source == source
    &&& d.created_at == now
}

/// `d` is the definition of listed resource template `item` of `server`.
pub open spec fn is_listed_resource_template(
    d: McpResourceTemplateDefinition,
    server: McpServerSpec,
    item: JsonValue,
    source: EcosystemSource,
    now: String,
) -> bool {
    let t = listed_uri_template(item).unwrap();
    &&& d.mcp_resource_template_id@ == stable_id("mcprestpl_"@, server.name@, t)
    &&& d.server_name@ == server.name@
    &&& d.uri_template@ == t
    &&& opt_text(d.name) == text_of(member(item, "name"@))
    &&& opt_text(d.description) == text_of(member(item, "description"@))
    &&& opt_text(d.mime_type) == listed_mime_type(item)
    &&& d.source == source
    &&& d.created_at == now
}

/// The first error among `items` as `f` judges them, if any.
pub open spec fn first_item_error(items: Seq<JsonValue>, f: spec_fn(JsonValue) -> Option<AgentOsError>) -> Option<AgentOsError>
    decreases items.len(),
{
    if items.len() == 0 {
        None
    } else {
        match f(items[0]) {
            Some(e) => Some(e),
            None => first_item_error(items.subrange(1, items.len() as int), f),
        }
    }
}

fn optional_json_string(item: &JsonValue, field: &str, bad: AgentOsError) -> (r: Result<Option<String>, AgentOsError>)
    ensures
        optional_text_ok(*item, field@) ==> (r matches Ok(o) && opt_text(o) == text_of(member(*item, field@))),
        !optional_text_ok(*item, field@) ==> r == Err::<Option<String>, AgentOsError>(bad),
{
    match item.get(field) {
        None => Ok(None),
        Some(v) => match v.as_str() {
            Some(t) => Ok(Some(String::from_str(t))),
            None => Err(bad),
        },
    }
}

proof fn lemma_first_item_error_step(items: Seq<JsonValue>, i: int, f: spec_fn(JsonValue) -> Option<AgentOsError>)
    requires
        0 <= i < items.len(),
    ensures
        first_item_error(items.subrange(i, items.len() as int), f) == match f(items[i]) {
            Some(e) => Some(e),
            None => first_item_error(items.subrange(i + 1, items.len() as int), f),
        },
{
    let s = items.subrange(i, items.len() as int);
    assert(s.subrange(1, s.len() as int) =~= items.subrange(i + 1, items.len() as int));
}

/// Reads the resources that server `server` listed (`listed`, as its
/// `resources/list` call returned them) into definitions from `source`
/// made at `now`. An invalid server is refused as
/// `validate_mcp_server_spec` says; then the first listed item that
/// cannot be read is refused as `resource_item_error` says.
pub fn discover_mcp_resource_definitions(
    server: &McpServerSpec,
    listed: &Vec<JsonValue>,
    source: EcosystemSource,
    now: String,
) -> (r: Result<Vec<McpResourceDefinition>, AgentOsError>)
    ensures
        server_error(*server) matches Some(e) ==> r == Err::<Vec<McpResourceDefinition>, AgentOsError>(e),
        server_error(*server) is None ==> match first_item_error(listed@, |v: JsonValue| resource_item_error(v)) {
            Some(e) => r == Err::<Vec<McpResourceDefinition>, AgentOsError>(e),
            None => (r matches Ok(ds) && ds@.len() == listed@.len() && forall|i: int|
                0 <= i < ds@.len() ==> is_listed_resource(#[trigger] ds@[i], *server, listed@[i], source, now)),
        },
{
    match validate_mcp_server_spec(server) {
        Err(e) => return Err(e),
        Ok(()) => {},
    }
    let ghost f = |v: JsonValue| resource_item_error(v);
    let mut out: Vec<McpResourceDefinition> = Vec::new();
    let mut i: usize = 0;
    assert(listed@.subrange(0, listed@.len() as int) =~= listed@);
    while i < listed.len()
        invariant
            f == (|v: JsonValue| resource_item_error(v)),
            server_error(*server) is None,
            i <= listed@.len(),
            out@.len() == i,
            first_item_error(listed@, f) == first_item_error(listed@.subrange(i as int, listed@.len() as int), f),
            forall|j: int| 0 <= j < i ==> is_listed_resource(#[trigger] out@[j], *server, listed@[j], source, now),
        decreases listed@.len() - i,
    {
        proof {
            lemma_first_item_error_step(listed@, i as int, f);
        }
        let item = &listed[i];
        let uri = match item.get_str("uri") {
            None => return Err(AgentOsError::Validation("MCP resource missing string field uri")),
            Some(u) => u,
        };
        let name = match optional_json_string(item, "name", AgentOsError::Validation("MCP resource field name must be a string")) {
            Err(e) => return Err(e),
            Ok(n) => n,
        };
        let description = match optional_json_string(
            item,
            "description",
            AgentOsError::Validation("MCP resource field description must be a string"),
        ) {
            Err(e) => return Err(e),
            Ok(d) => d,
        };
        let camel = match optional_json_string(item, "mimeType", AgentOsError::Validation("MCP resource field mimeType must be a string")) {
            Err(e) => return Err(e),
            Ok(m) => m,
        };
        let snake = match optional_json_string(
            item,
            "mime_type",
            AgentOsError::Validation("MCP resource field mime_type must be a string"),
        ) {
            Err(e) => return Err(e),
            Ok(m) => m,
        };
        let mime_type = match camel {
            Some(m) => Some(m),
            None => snake,
        };
        let d = McpResourceDefinition {
            mcp_resource_id: stable_mcp_resource_id(server.name.as_str(), uri),
            server_name: server.name.clone(),
            uri: String::from_str(uri),
            name,
            description,
            mime_type,
            source: source.duplicate(),
            created_at: now.clone(),
        };
        out.push(d);
        i = i + 1;
    }
    Ok(out)
}

/// Reads the resource templates that server `server` listed (`listed`, as
/// its `resources/templates/list` call returned them) into definitions
/// from `source` made at `now`. An invalid server is refused as
/// `validate_mcp_server_spec` says; then the first listed item that
/// cannot be read is refused as `resource_template_item_error` says.
pub fn discover_mcp_resource_template_definitions(
    server: &McpServerSpec,
    listed: &Vec<JsonValue>,
    source: EcosystemSource,
    now: String,
) -> (r: Result<Vec<McpResourceTemplateDefinition>, AgentOsError>)
    ensures
        server_error(*server) matches Some(e) ==> r == Err::<Vec<McpResourceTemplateDefinition>, AgentOsError>(e),
        server_error(*server) is None ==> match first_item_error(listed@, |v: JsonValue| resource_template_item_error(v)) {
            Some(e) => r == Err::<Vec<McpResourceTemplateDefinition>, AgentOsError>(e),
            None => (r matches Ok(ds) && ds@.len() == listed@.len() && forall|i: int|
                0 <= i < ds@.len() ==> is_listed_resource_template(#[trigger] ds@[i], *server, listed@[i], source, now)),
        },
{
    match validate_mcp_server_spec(server) {
        Err(e) => return Err(e),
        Ok(()) => {},
    }
    let ghost f = |v: JsonValue| resource_template_item_error(v);
    let mut out: Vec<McpResourceTemplateDefinition> = Vec::new();
    let mut i: usize = 0;
    assert(listed@.subrange(0, listed@.len() as int) =~= listed@);
    while i < listed.len()
        invariant
            f == (|v: JsonValue| resource_template_item_error(v)),
            server_error(*server) is None,
            i <= listed@.len(),
            out@.len() == i,
            first_item_error(listed@, f) == first_item_error(listed@.subrange(i as int, listed@.len() as int), f),
            forall|j: int| 0 <= j < i ==> is_listed_resource_template(#[trigger] out@[j], *server, listed@[j], source, now),
        decreases listed@.len() - i,
    {
        proof {
            lemma_first_item_error_step(listed@, i as int, f);
        }
        let item = &listed[i];
        let uri_template = match item.get_str("uriTemplate") {
            Some(t) => t,
            None => match item.get_str("uri_template") {
                Some(t) => t,
                None => return Err(AgentOsError::Validation("MCP resource template missing string field uri_template")),
            },
        };
        let name = match optional_json_string(
            item,
            "name",
            AgentOsError::Validation("MCP resource template field name must be a string"),
        ) {
            Err(e) => return Err(e),
            Ok(n) => n,
        };
        let description = match optional_json_string(
            item,
            "description",
            AgentOsError::Validation("MCP resource template field description must be a string"),
        ) {
            Err(e) => return Err(e),
            Ok(d) => d,
        };
        let camel = match optional_json_string(
            item,
            "mimeType",
            AgentOsError::Validation("MCP resource template field mimeType must be a string"),
        ) {
            Err(e) => return Err(e),
            Ok(m) => m,
        };
        let snake = match optional_json_string(
            item,
            "mime_type",
            AgentOsError::Validation("MCP resource template field mime_type must be a string"),
        ) {
            Err(e) => return Err(e),
            Ok(m) => m,
        };
        let mime_type = match camel {
            Some(m) => Some(m),
            None => snake,
        };
        let d = McpResourceTemplateDefinition {
            mcp_resource_template_id: stable_mcp_resource_template_id(server.name.as_str(), uri_template),
            server_name: server.name.clone(),
            uri_template: String::from_str(uri_template),
            name,
            description,
            mime_type,
            source: source.duplicate(),
            created_at: now.clone(),
        };
        out.push(d);
        i = i + 1;
    }
    Ok(out)
}

} // verus!
