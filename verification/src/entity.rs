//! The principals that an access-control entry grants a role to, and the
//! roles, each with the exact text that the remote service uses for it.

use crate::text::{lemma_prefix_of_concat, lemma_same_prefix_same_rest, same_text, strip_prefix};
use vstd::prelude::*;
use vstd::string::{StrSliceExecFns, StringExecFns};

verus! {

/// A team of a project.
#[derive(Clone, Copy, Debug, PartialEq, Eq, Structural)]
pub enum Team {
    Editors,
    Owners,
    Viewers,
}

/// Who an entry grants access to.
#[derive(Clone, Debug, PartialEq, Eq)]
pub enum Entity {
    /// One user, by id or e-mail address.
    User(String),
    /// One group, by id or e-mail address.
    Group(String),
    /// Everybody of one domain.
    Domain(String),
    /// One team of the project with the given id.
    Project(Team, String),
    /// Everybody.
    AllUsers,
    /// Everybody who is signed in.
    AllAuthenticatedUsers,
}

/// What an entry allows.
#[derive(Clone, Copy, Debug, PartialEq, Eq, Structural)]
pub enum Role {
    Owner,
    Reader,
}

/// An entity as a value of mathematics: its kind and the text it holds.
pub enum EntityModel {
    User(Seq<char>),
    Group(Seq<char>),
    Domain(Seq<char>),
    Project(Team, Seq<char>),
    AllUsers,
    AllAuthenticatedUsers,
}

impl View for Entity {
    type V = EntityModel;

    open spec fn view(&self) -> EntityModel {
        match self {
            Entity::User(id) => EntityModel::User(id@),
            Entity::Group(id) => EntityModel::Group(id@),
            Entity::Domain(domain) => EntityModel::Domain(domain@),
            Entity::Project(team, id) => EntityModel::Project(*team, id@),
            Entity::AllUsers => EntityModel::AllUsers,
            Entity::AllAuthenticatedUsers => EntityModel::AllAuthenticatedUsers,
        }
    }
}

impl EntityModel {
    /// The canonical text: `user-{id}`, `group-{id}`, `domain-{d}`,
    /// `project-{team}-{id}`, `allUsers` or `allAuthenticatedUsers`.
    pub open spec fn canonical(self) -> Seq<char> {
        match self {
            EntityModel::User(id) => "user-"@ + id,
            EntityModel::Group(id) => "group-"@ + id,
            EntityModel::Domain(domain) => "domain-"@ + domain,
            EntityModel::Project(team, id) => "project-"@ + (team.canonical() + "-"@ + id),
            EntityModel::AllUsers => "allUsers"@,
            EntityModel::AllAuthenticatedUsers => "allAuthenticatedUsers"@,
        }
    }
}

/// Makes the texts of all names known.
proof fn reveal_names()
    ensures
        "user-"@ == seq!['u', 's', 'e', 'r', '-'],
        "group-"@ == seq!['g', 'r', 'o', 'u', 'p', '-'],
        "domain-"@ == seq!['d', 'o', 'm', 'a', 'i', 'n', '-'],
        "project-"@ == seq!['p', 'r', 'o', 'j', 'e', 'c', 't', '-'],
        "allUsers"@ == seq!['a', 'l', 'l', 'U', 's', 'e', 'r', 's'],
        "allAuthenticatedUsers"@ == seq![
            'a', 'l', 'l', 'A', 'u', 't', 'h', 'e', 'n', 't', 'i', 'c', 'a', 't', 'e', 'd', 'U',
            's', 'e', 'r', 's',
        ],
        "editors"@ == seq!['e', 'd', 'i', 't', 'o', 'r', 's'],
        "owners"@ == seq!['o', 'w', 'n', 'e', 'r', 's'],
        "viewers"@ == seq!['v', 'i', 'e', 'w', 'e', 'r', 's'],
        "editors-"@ == "editors"@ + "-"@,
        "owners-"@ == "owners"@ + "-"@,
        "viewers-"@ == "viewers"@ + "-"@,
        "-"@ == seq!['-'],
{
    reveal_strlit("user-");
    reveal_strlit("group-");
    reveal_strlit("domain-");
    reveal_strlit("project-");
    reveal_strlit("allUsers");
    reveal_strlit("allAuthenticatedUsers");
    reveal_strlit("editors");
    reveal_strlit("owners");
    reveal_strlit("viewers");
    reveal_strlit("editors-");
    reveal_strlit("owners-");
    reveal_strlit("viewers-");
    reveal_strlit("-");
    assert("user-"@ =~= seq!['u', 's', 'e', 'r', '-']);
    assert("group-"@ =~= seq!['g', 'r', 'o', 'u', 'p', '-']);
    assert("domain-"@ =~= seq!['d', 'o', 'm', 'a', 'i', 'n', '-']);
    assert("project-"@ =~= seq!['p', 'r', 'o', 'j', 'e', 'c', 't', '-']);
    assert("allUsers"@ =~= seq!['a', 'l', 'l', 'U', 's', 'e', 'r', 's']);
    assert("allAuthenticatedUsers"@ =~= seq![
        'a', 'l', 'l', 'A', 'u', 't', 'h', 'e', 'n', 't', 'i', 'c', 'a', 't', 'e', 'd', 'U', 's',
        'e', 'r', 's',
    ]);
    assert("editors"@ =~= seq!['e', 'd', 'i', 't', 'o', 'r', 's']);
    assert("owners"@ =~= seq!['o', 'w', 'n', 'e', 'r', 's']);
    assert("viewers"@ =~= seq!['v', 'i', 'e', 'w', 'e', 'r', 's']);
    assert("-"@ =~= seq!['-']);
    assert("editors-"@ =~= "editors"@ + "-"@);
    assert("owners-"@ =~= "owners"@ + "-"@);
    assert("viewers-"@ =~= "viewers"@ + "-"@);
}

/// The first and the fourth character of a canonical text tell the kind.
proof fn lemma_canonical_marks(model: EntityModel)
    ensures
        model.canonical().len() >= 5,
        model is User ==> model.canonical()[0] == 'u',
        model is Group ==> model.canonical()[0] == 'g',
        model is Domain ==> model.canonical()[0] == 'd',
        model is Project ==> model.canonical()[0] == 'p',
        model is AllUsers ==> model.canonical()[0] == 'a' && model.canonical()[3] == 'U',
        model is AllAuthenticatedUsers ==> model.canonical()[0] == 'a' && model.canonical()[3]
            == 'A',
{
    reveal_names();
}

/// The first character of a team's name, and the name with its `-`.
proof fn lemma_team_marks(team: Team, id: Seq<char>)
    ensures
        (team.canonical() + "-"@ + id).len() >= 1,
        team == Team::Editors ==> (team.canonical() + "-"@ + id)[0] == 'e',
        team == Team::Owners ==> (team.canonical() + "-"@ + id)[0] == 'o',
        team == Team::Viewers ==> (team.canonical() + "-"@ + id)[0] == 'v',
{
    reveal_names();
}

/// Whether `result` is what reading `text` gives: an entity with that
/// canonical text, or nothing where no entity has it.
pub open spec fn reads_as(text: Seq<char>, result: Option<Entity>) -> bool {
    match result {
        Some(entity) => entity.canonical() == text,
        None => forall|model: EntityModel| model.canonical() != text,
    }
}

/// Reading the canonical text of an entity gives that entity back.
pub proof fn reading_inverts_writing(entity: Entity, result: Option<Entity>)
    requires
        reads_as(entity.canonical(), result),
    ensures
        result is Some,
        result->Some_0@ == entity@,
{
    if result is None {
        assert(entity@.canonical() == entity.canonical());
    } else {
        canonical_is_injective(result->Some_0@, entity@);
    }
}

/// Two entities with the same canonical text are the same entity.
pub proof fn canonical_is_injective(a: EntityModel, b: EntityModel)
    requires
        a.canonical() == b.canonical(),
    ensures
        a == b,
{
    lemma_canonical_marks(a);
    lemma_canonical_marks(b);
    match (a, b) {
        (EntityModel::User(x), EntityModel::User(y)) => {
            lemma_same_prefix_same_rest("user-"@, x, y);
        },
        (EntityModel::Group(x), EntityModel::Group(y)) => {
            lemma_same_prefix_same_rest("group-"@, x, y);
        },
        (EntityModel::Domain(x), EntityModel::Domain(y)) => {
            lemma_same_prefix_same_rest("domain-"@, x, y);
        },
        (EntityModel::Project(s, x), EntityModel::Project(t, y)) => {
            lemma_same_prefix_same_rest(
                "project-"@,
                s.canonical() + "-"@ + x,
                t.canonical() + "-"@ + y,
            );
            lemma_team_marks(s, x);
            lemma_team_marks(t, y);
            assert(s == t);
            lemma_same_prefix_same_rest(s.canonical() + "-"@, x, y);
        },
        _ => {},
    }
}

impl Team {
    /// The team's name on the wire.
    pub open spec fn canonical(self) -> Seq<char> {
        match self {
            Team::Editors => "editors"@,
            Team::Owners => "owners"@,
            Team::Viewers => "viewers"@,
        }
    }

    /// The team's name on the wire.
    pub fn as_str(self) -> (name: &'static str)
        ensures
            name@ == self.canonical(),
    {
        match self {
            Team::Editors => "editors",
            Team::Owners => "owners",
            Team::Viewers => "viewers",
        }
    }
}

impl Role {
    /// The role's name on the wire.
    pub open spec fn canonical(self) -> Seq<char> {
        match self {
            Role::Owner => "OWNER"@,
            Role::Reader => "READER"@,
        }
    }

    /// Reads a role from its name on the wire. Gives the role of that name,
    /// and nothing where no role has it.
    pub fn parse(text: &str) -> (result: Option<Role>)
        ensures
            match result {
                Some(role) => role.canonical() == text@,
                None => forall|role: Role| role.canonical() != text@,
            },
    {
        if same_text(text, "OWNER") {
            Some(Role::Owner)
        } else if same_text(text, "READER") {
            Some(Role::Reader)
        } else {
            None
        }
    }

    /// The role's name on the wire.
    pub fn as_str(self) -> (name: &'static str)
        ensures
            name@ == self.canonical(),
    {
        match self {
            Role::Owner => "OWNER",
            Role::Reader => "READER",
        }
    }
}

impl Entity {
    /// The entity's canonical text: `user-{id}`, `group-{id}`, `domain-{d}`,
    /// `project-{team}-{id}`, `allUsers` or `allAuthenticatedUsers`.
    pub open spec fn canonical(&self) -> Seq<char> {
        self@.canonical()
    }

    /// Reads an entity from its canonical text. Gives the entity whose
    /// canonical text this is, and nothing where no entity has this text.
    pub fn parse(text: &str) -> (result: Option<Entity>)
        ensures
            reads_as(text@, result),
    {
        proof {
            reveal_names();
        }
        if let Some(id) = strip_prefix(text, "user-") {
            return Some(Entity::User(String::from_str(id)));
        }
        if let Some(id) = strip_prefix(text, "group-") {
            return Some(Entity::Group(String::from_str(id)));
        }
        if let Some(domain) = strip_prefix(text, "domain-") {
            return Some(Entity::Domain(String::from_str(domain)));
        }
        if let Some(rest) = strip_prefix(text, "project-") {
            if let Some(id) = strip_prefix(rest, "editors-") {
                let entity = Entity::Project(Team::Editors, String::from_str(id));
                proof {
                    assert(Team::Editors.canonical() + "-"@ + id@ =~= rest@);
                }
                return Some(entity);
            }
            if let Some(id) = strip_prefix(rest, "owners-") {
                let entity = Entity::Project(Team::Owners, String::from_str(id));
                proof {
                    assert(Team::Owners.canonical() + "-"@ + id@ =~= rest@);
                }
                return Some(entity);
            }
            if let Some(id) = strip_prefix(rest, "viewers-") {
                let entity = Entity::Project(Team::Viewers, String::from_str(id));
                proof {
                    assert(Team::Viewers.canonical() + "-"@ + id@ =~= rest@);
                }
                return Some(entity);
            }
            proof {
                assert forall|model: EntityModel| model.canonical() != text@ by {
                    lemma_canonical_marks(model);
                    if model.canonical() == text@ {
                        let team = model->Project_0;
                        let id = model->Project_1;
                        let tail = team.canonical() + "-"@ + id;
                        lemma_same_prefix_same_rest("project-"@, tail, rest@);
                        lemma_prefix_of_concat(team.canonical() + "-"@, id);
                    }
                }
            }
            return None;
        }
        if same_text(text, "allUsers") {
            return Some(Entity::AllUsers);
        }
        if same_text(text, "allAuthenticatedUsers") {
            return Some(Entity::AllAuthenticatedUsers);
        }
        proof {
            assert forall|model: EntityModel| model.canonical() != text@ by {
                match model {
                    EntityModel::User(id) => lemma_prefix_of_concat("user-"@, id),
                    EntityModel::Group(id) => lemma_prefix_of_concat("group-"@, id),
                    EntityModel::Domain(domain) => lemma_prefix_of_concat("domain-"@, domain),
                    EntityModel::Project(team, id) => lemma_prefix_of_concat(
                        "project-"@,
                        team.canonical() + "-"@ + id,
                    ),
                    _ => {},
                }
            }
        }
        None
    }

    /// The entity's canonical text, as it stands in payloads and, escaped, in
    /// URLs.
    pub fn to_string(&self) -> (text: String)
        ensures
            text@ == self.canonical(),
    {
        match self {
            Entity::User(id) => {
                let mut text = String::from_str("user-");
                text.append(id.as_str());
                text
            },
            Entity::Group(id) => {
                let mut text = String::from_str("group-");
                text.append(id.as_str());
                text
            },
            Entity::Domain(domain) => {
                let mut text = String::from_str("domain-");
                text.append(domain.as_str());
                text
            },
            Entity::Project(team, id) => {
                let mut text = String::from_str("project-");
                text.append(team.as_str());
                text.append("-");
                text.append(id.as_str());
                proof {
                    assert(text@ =~= "project-"@ + (team.canonical() + "-"@ + id@));
                }
                text
            },
            Entity::AllUsers => String::from_str("allUsers"),
            Entity::AllAuthenticatedUsers => String::from_str("allAuthenticatedUsers"),
        }
    }
}

} // verus!
