//! Identifiers, scopes and actors.
use vstd::prelude::*;
use vstd::string::*;

use crate::duplicate::Duplicate;
use crate::ordered::{OrderedKey, Ranked};
use crate::text::{byte_len, concat3, concat5, decimal, decimal_text, lemma_byte_len, lemma_decimal_digits, lemma_decimal_injective, lemma_encode_concat, text_len};

verus! {

pub type TenantId = String;

pub type ProjectId = String;

pub type UserId = String;

pub type AgentId = String;

pub type NodeId = String;

pub type ProcessId = String;

pub type TaskInstanceId = String;

pub type TaskDefinitionId = String;

pub type ArtifactId = String;

pub type LaunchAttemptId = String;

pub type RunId = String;

pub type TriggerId = String;

/// A content digest, as text with its algorithm in front.
pub type Digest = String;

/// Who acts.
pub enum Actor {
    User(UserId),
    Agent(AgentId),
    Node(NodeId),
    Task(TaskInstanceId),
}

impl Actor {
    /// The same kind of actor with the same identifier.
    pub open spec fn same(&self, other: &Actor) -> bool {
        match (*self, *other) {
            (Actor::User(a), Actor::User(b)) => a@ == b@,
            (Actor::Agent(a), Actor::Agent(b)) => a@ == b@,
            (Actor::Node(a), Actor::Node(b)) => a@ == b@,
            (Actor::Task(a), Actor::Task(b)) => a@ == b@,
            _ => false,
        }
    }

    pub fn same_as(&self, other: &Actor) -> (r: bool)
        ensures
            r == self.same(other),
    {
        match (self, other) {
            (Actor::User(a), Actor::User(b)) => *a == *b,
            (Actor::Agent(a), Actor::Agent(b)) => *a == *b,
            (Actor::Node(a), Actor::Node(b)) => *a == *b,
            (Actor::Task(a), Actor::Task(b)) => *a == *b,
            _ => false,
        }
    }

    pub fn copy(&self) -> (r: Actor)
        ensures
            r == *self,
    {
        match self {
            Actor::User(a) => Actor::User(a.clone()),
            Actor::Agent(a) => Actor::Agent(a.clone()),
            Actor::Node(a) => Actor::Node(a.clone()),
            Actor::Task(a) => Actor::Task(a.clone()),
        }
    }
}

/// On whose behalf, and in which project, a request is made.
pub struct AuthContext {
    pub tenant: TenantId,
    pub project: ProjectId,
    pub actor: Actor,
}

/// A node of a project of a tenant.
pub struct NodeScopeKey {
    pub tenant: TenantId,
    pub project: ProjectId,
    pub node: NodeId,
}

/// The model of a scope: tenant, project and what they qualify.
pub type ScopeText = (Seq<char>, Seq<char>, Seq<char>);

impl OrderedKey for NodeScopeKey {
    type M = ScopeText;

    open spec fn key(&self) -> ScopeText {
        (self.tenant@, self.project@, self.node@)
    }

    fn precedes(&self, other: &Self) -> (r: bool) {
        let r: bool = self.tenant.precedes(&other.tenant) || (self.tenant == other.tenant && (
        self.project.precedes(&other.project) || (self.project == other.project
            && self.node.precedes(&other.node))));
        assert((self.tenant@, self.project@, self.node@).before(
            (other.tenant@, other.project@, other.node@),
        ) == r);
        r
    }

    fn same(&self, other: &Self) -> (r: bool) {
        self.tenant == other.tenant && self.project == other.project && self.node == other.node
    }

    fn copy_key(&self) -> (r: Self) {
        NodeScopeKey::from_refs(&self.tenant, &self.project, &self.node)
    }
}

impl View for NodeScopeKey {
    type V = ScopeText;

    open spec fn view(&self) -> ScopeText {
        (self.tenant@, self.project@, self.node@)
    }
}

impl Duplicate for NodeScopeKey {
    fn duplicate(&self) -> (r: Self) {
        NodeScopeKey::from_refs(&self.tenant, &self.project, &self.node)
    }
}

/// A length-prefixed part of a credential subject.
pub open spec fn counted(part: Seq<char>) -> Seq<char> {
    decimal(byte_len(part)) + ":"@ + part
}

/// The subject of the credential of a node: its scope, each part with its length in bytes.
pub open spec fn node_subject(scope: ScopeText) -> Seq<char> {
    "node:"@ + counted(scope.0) + ":"@ + counted(scope.1) + ":"@ + counted(scope.2)
}

fn counted_text(part: &String) -> (r: String)
    ensures
        r@ == counted(part@),
{
    let length: String = decimal_text(text_len(part.as_str()) as u64);
    concat3(length.as_str(), ":", part.as_str())
}

impl NodeScopeKey {
    pub fn new(tenant: TenantId, project: ProjectId, node: NodeId) -> (r: Self)
        ensures
            r == (NodeScopeKey { tenant, project, node }),
    {
        NodeScopeKey { tenant, project, node }
    }

    pub fn from_refs(tenant: &TenantId, project: &ProjectId, node: &NodeId) -> (r: Self)
        ensures
            r == (NodeScopeKey { tenant: *tenant, project: *project, node: *node }),
    {
        NodeScopeKey { tenant: tenant.clone(), project: project.clone(), node: node.clone() }
    }

    /// The subject of the credential of this node.
    pub fn credential_subject(&self) -> (r: String)
        ensures
            r@ == node_subject(self.key()),
    {
        let tenant: String = counted_text(&self.tenant);
        let project: String = counted_text(&self.project);
        let node: String = counted_text(&self.node);
        let head: String = concat5("node:", tenant.as_str(), ":", project.as_str(), ":");
        head.concat(node.as_str())
    }
}

/// A length-prefixed part can be told from what follows it.
proof fn lemma_counted_split(a: Seq<char>, x: Seq<char>, b: Seq<char>, y: Seq<char>)
    requires
        counted(a) + x == counted(b) + y,
    ensures
        a == b,
        x == y,
{
    reveal_strlit(":");
    let m = decimal(byte_len(a));
    let n = decimal(byte_len(b));
    let s = counted(a) + x;
    let t = counted(b) + y;
    assert(s =~= m + seq![':'] + (a + x));
    assert(t =~= n + seq![':'] + (b + y));
    if m.len() < n.len() {
        assert(s[m.len() as int] == ':');
        assert(t[m.len() as int] == n[m.len() as int]);
        lemma_decimal_digits(byte_len(b), m.len() as int);
    }
    if n.len() < m.len() {
        assert(t[n.len() as int] == ':');
        assert(s[n.len() as int] == m[n.len() as int]);
        lemma_decimal_digits(byte_len(a), n.len() as int);
    }
    assert(m =~= s.take(m.len() as int));
    assert(n =~= t.take(n.len() as int));
    lemma_decimal_injective(byte_len(a), byte_len(b));
    let rest = a + x;
    assert(rest =~= s.skip(m.len() as int + 1));
    assert(b + y =~= t.skip(n.len() as int + 1));
    assert(rest == b + y);
    assert(a =~= rest.take(a.len() as int));
    assert(b =~= rest.take(b.len() as int));
    if a.len() < b.len() {
        let tail = b.skip(a.len() as int);
        assert(b =~= a + tail);
        lemma_encode_concat(a, tail);
        lemma_byte_len(tail);
    }
    if b.len() < a.len() {
        let tail = a.skip(b.len() as int);
        assert(a =~= b + tail);
        lemma_encode_concat(b, tail);
        lemma_byte_len(tail);
    }
    assert(x =~= rest.skip(a.len() as int));
    assert(y =~= rest.skip(b.len() as int));
}

proof fn lemma_regroup(
    h: Seq<char>,
    c0: Seq<char>,
    sep: Seq<char>,
    c1: Seq<char>,
    c2: Seq<char>,
)
    ensures
        h + c0 + sep + c1 + sep + c2 == h + (c0 + (sep + (c1 + (sep + c2)))),
{
    assert(h + c0 + sep + c1 + sep + c2 =~= h + (c0 + (sep + (c1 + (sep + c2)))));
}

proof fn lemma_cancel(h: Seq<char>, x: Seq<char>, y: Seq<char>)
    requires
        h + x == h + y,
    ensures
        x == y,
{
    assert(x =~= (h + x).skip(h.len() as int));
    assert(y =~= (h + y).skip(h.len() as int));
}

/// Nodes of different scopes have different credential subjects, even where their node
/// identifiers agree.
pub proof fn node_subjects_are_distinct(a: ScopeText, b: ScopeText)
    requires
        node_subject(a) == node_subject(b),
    ensures
        a == b,
{
    let sep = ":"@;
    let none = Seq::<char>::empty();
    let a2 = counted(a.2);
    let b2 = counted(b.2);
    let a1 = counted(a.1);
    let b1 = counted(b.1);
    lemma_regroup("node:"@, counted(a.0), sep, a1, a2);
    lemma_regroup("node:"@, counted(b.0), sep, b1, b2);
    lemma_cancel("node:"@, counted(a.0) + (sep + (a1 + (sep + a2))), counted(b.0) + (sep + (b1 + (
    sep + b2))));
    lemma_counted_split(a.0, sep + (a1 + (sep + a2)), b.0, sep + (b1 + (sep + b2)));
    lemma_cancel(sep, a1 + (sep + a2), b1 + (sep + b2));
    lemma_counted_split(a.1, sep + a2, b.1, sep + b2);
    lemma_cancel(sep, a2, b2);
    assert(a2 + none =~= a2);
    assert(b2 + none =~= b2);
    lemma_counted_split(a.2, none, b.2, none);
}

} // verus!
