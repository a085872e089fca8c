//! The deliverables that a build can produce.

use vstd::prelude::*;
use vstd::string::*;

verus! {

/// One category of build output.
#[derive(Clone, Copy, Debug, PartialEq, Eq, Structural)]
pub enum Artifact {
    /// The human-readable pages.
    Frontend,
    /// The machine-readable description.
    Json,
}

impl Artifact {
    /// The name by which the command line and the build refer to the artifact.
    pub open spec fn name_of(self) -> Seq<char> {
        match self {
            Artifact::Frontend => "frontend"@,
            Artifact::Json => "json"@,
        }
    }

    /// The artifact that a name denotes, if the name is a known one.
    pub open spec fn named(name: Seq<char>) -> Option<Artifact> {
        if name == "frontend"@ {
            Some(Artifact::Frontend)
        } else if name == "json"@ {
            Some(Artifact::Json)
        } else {
            None
        }
    }

    /// Returns the artifact's name.
    pub fn name(self) -> (s: &'static str)
        ensures
            s@ == self.name_of(),
    {
        match self {
            Artifact::Frontend => "frontend",
            Artifact::Json => "json",
        }
    }

    /// Looks an artifact up by name. Names are matched exactly.
    pub fn from_name(name: &str) -> (found: Option<Artifact>)
        ensures
            found == Artifact::named(name@),
    {
        let name = name.to_owned();
        if name == "frontend".to_owned() {
            Some(Artifact::Frontend)
        } else if name == "json".to_owned() {
            Some(Artifact::Json)
        } else {
            None
        }
    }
}

/// A non-empty set of artifacts.
///
/// The universe holds two artifacts, so a non-empty set is one of three
/// values; an empty selection cannot be written down.
#[derive(Clone, Copy, Debug, PartialEq, Eq, Structural)]
pub enum ArtifactSet {
    /// Just the frontend: what a build produces unless told otherwise.
    OnlyFrontend,
    /// Just the JSON description.
    OnlyJson,
    /// Every known artifact.
    Both,
}

impl View for ArtifactSet {
    type V = Set<Artifact>;

    open spec fn view(&self) -> Set<Artifact> {
        Set::new(|a: Artifact| self.has(a))
    }
}

impl ArtifactSet {
    /// Whether `artifact` belongs to the set.
    pub open spec fn has(self, artifact: Artifact) -> bool {
        match self {
            ArtifactSet::OnlyFrontend => artifact == Artifact::Frontend,
            ArtifactSet::OnlyJson => artifact == Artifact::Json,
            ArtifactSet::Both => true,
        }
    }

    /// Whether some entry of `names` is the name of `artifact`.
    pub open spec fn mentions(names: Seq<String>, artifact: Artifact) -> bool {
        exists|i: int|
            0 <= i < names.len() && Artifact::named(#[trigger] names[i]@) == Some(artifact)
    }

    /// The set of the known artifacts that `names` mentions: `None` where it
    /// mentions none. Unknown names, repetitions and order play no part.
    pub open spec fn selection(names: Seq<String>) -> Option<ArtifactSet> {
        if Self::mentions(names, Artifact::Frontend) {
            if Self::mentions(names, Artifact::Json) {
                Some(ArtifactSet::Both)
            } else {
                Some(ArtifactSet::OnlyFrontend)
            }
        } else if Self::mentions(names, Artifact::Json) {
            Some(ArtifactSet::OnlyJson)
        } else {
            None
        }
    }

    /// The artifacts that a build produces for what `--emit` held: the
    /// selection, and the default where no list was given or the list
    /// selects nothing.
    pub open spec fn resolved(emit: Option<Vec<String>>) -> ArtifactSet {
        match emit {
            Some(names) => match Self::selection(names@) {
                Some(set) => set,
                None => ArtifactSet::OnlyFrontend,
            },
            None => ArtifactSet::OnlyFrontend,
        }
    }

    /// The names of the members, in the order of the universe.
    pub open spec fn names_of(self) -> Seq<Seq<char>> {
        match self {
            ArtifactSet::OnlyFrontend => seq!["frontend"@],
            ArtifactSet::OnlyJson => seq!["json"@],
            ArtifactSet::Both => seq!["frontend"@, "json"@],
        }
    }

    /// Every known artifact: what the documentation tests are built with.
    pub fn all() -> (set: ArtifactSet)
        ensures
            set == ArtifactSet::Both,
            forall|a: Artifact| set@.contains(a),
    {
        ArtifactSet::Both
    }

    /// Returns whether `artifact` is a member.
    pub fn contains(self, artifact: Artifact) -> (found: bool)
        ensures
            found == self@.contains(artifact),
    {
        match self {
            ArtifactSet::OnlyFrontend => artifact == Artifact::Frontend,
            ArtifactSet::OnlyJson => artifact == Artifact::Json,
            ArtifactSet::Both => true,
        }
    }

    /// Returns the members' names in the order of the universe, as the build
    /// takes them.
    pub fn names(self) -> (names: Vec<&'static str>)
        ensures
            names@.len() == self.names_of().len(),
            forall|i: int|
                0 <= i < names@.len() ==> (#[trigger] names@[i])@ == self.names_of()[i],
    {
        let mut names: Vec<&'static str> = Vec::new();
        if self.contains(Artifact::Frontend) {
            names.push(Artifact::Frontend.name());
        }
        if self.contains(Artifact::Json) {
            names.push(Artifact::Json.name());
        }
        names
    }

    /// Collects the known artifacts that `names` mentions. Returns `None`
    /// where the list is empty or holds no known name.
    pub fn from_names(names: &Vec<String>) -> (set: Option<ArtifactSet>)
        ensures
            set == ArtifactSet::selection(names@),
    {
        let mut frontend = false;
        let mut json = false;
        let mut i: usize = 0;
        while i < names.len()
            invariant
                i <= names.len(),
                frontend == ArtifactSet::mentions(names@.take(i as int), Artifact::Frontend),
                json == ArtifactSet::mentions(names@.take(i as int), Artifact::Json),
            decreases names.len() - i,
        {
            proof {
                Self::lemma_mentions_step(names@, i as int, Artifact::Frontend);
                Self::lemma_mentions_step(names@, i as int, Artifact::Json);
            }
            match Artifact::from_name(names[i].as_str()) {
                Some(Artifact::Frontend) => {
                    frontend = true;
                },
                Some(Artifact::Json) => {
                    json = true;
                },
                None => {},
            }
            i += 1;
        }
        assert(names@.take(i as int) =~= names@);
        if frontend && json {
            Some(ArtifactSet::Both)
        } else if frontend {
            Some(ArtifactSet::OnlyFrontend)
        } else if json {
            Some(ArtifactSet::OnlyJson)
        } else {
            None
        }
    }

    /// A list one entry longer mentions what the shorter list mentions, and
    /// what the added entry names.
    proof fn lemma_mentions_step(names: Seq<String>, i: int, artifact: Artifact)
        requires
            0 <= i < names.len(),
        ensures
            Self::mentions(names.take(i + 1), artifact) == (Self::mentions(names.take(i), artifact)
                || Artifact::named(names[i]@) == Some(artifact)),
    {
        let before = names.take(i);
        let after = names.take(i + 1);
        if Self::mentions(before, artifact) {
            let k = choose|k: int|
                0 <= k < before.len() && Artifact::named(#[trigger] before[k]@) == Some(artifact);
            assert(after[k] == before[k]);
        }
        if Artifact::named(names[i]@) == Some(artifact) {
            assert(after[i] == names[i]);
        }
        if Self::mentions(after, artifact) {
            let k = choose|k: int|
                0 <= k < after.len() && Artifact::named(#[trigger] after[k]@) == Some(artifact);
            if k < i {
                assert(before[k] == after[k]);
            }
        }
    }

    /// Resolves what `--emit` held to the artifacts of a build: the known
    /// artifacts of the list, or the default where there is no list or it
    /// selects nothing.
    pub fn resolve(emit: &Option<Vec<String>>) -> (set: ArtifactSet)
        ensures
            set == ArtifactSet::resolved(*emit),
            emit is None ==> set == ArtifactSet::OnlyFrontend,
    {
        match emit {
            Some(names) => match ArtifactSet::from_names(names) {
                Some(set) => set,
                None => ArtifactSet::default(),
            },
            None => ArtifactSet::default(),
        }
    }
}

impl ArtifactSet {
    /// No set of artifacts is empty: a build always has something to
    /// produce.
    pub proof fn lemma_never_empty(self)
        ensures
            exists|a: Artifact| self@.contains(a),
            self@ != Set::<Artifact>::empty(),
    {
        let witness = match self {
            ArtifactSet::OnlyJson => Artifact::Json,
            _ => Artifact::Frontend,
        };
        assert(self@.contains(witness));
    }

    /// A list selects a set exactly where it mentions a known artifact, and
    /// the set then holds what the list mentions and nothing else.
    pub proof fn lemma_selection_holds_what_is_mentioned(names: Seq<String>)
        ensures
            Self::selection(names) is None <==> forall|a: Artifact| !Self::mentions(names, a),
            Self::selection(names) matches Some(set) ==> forall|a: Artifact|
                set@.contains(a) <==> Self::mentions(names, a),
    {
        if Self::selection(names) is None {
            assert forall|a: Artifact| !Self::mentions(names, a) by {
                match a {
                    Artifact::Frontend => {},
                    Artifact::Json => {},
                }
            }
        }
        if let Some(set) = Self::selection(names) {
            assert forall|a: Artifact| set@.contains(a) <==> Self::mentions(names, a) by {
                match a {
                    Artifact::Frontend => {},
                    Artifact::Json => {},
                }
            }
        }
    }

    /// The names of a set select that set again: what the build is handed
    /// names the members and nothing else.
    pub proof fn lemma_names_select_the_set(self, names: Seq<String>)
        requires
            names.len() == self.names_of().len(),
            forall|i: int| 0 <= i < names.len() ==> (#[trigger] names[i])@ == self.names_of()[i],
        ensures
            Self::selection(names) == Some(self),
    {
        reveal_strlit("frontend");
        reveal_strlit("json");
        assert("frontend"@.len() != "json"@.len());
        assert(Artifact::named(names[0]@) is Some);
        assert(self == ArtifactSet::Both ==> Artifact::named(names[1]@) is Some);
        assert forall|a: Artifact| Self::mentions(names, a) == self.has(a) by {
            if Self::mentions(names, a) {
                let k = choose|k: int|
                    0 <= k < names.len() && Artifact::named(#[trigger] names[k]@) == Some(a);
                assert(names[k]@ == self.names_of()[k]);
            }
        }
    }

    /// Where `--emit` is not given, a build produces the frontend and
    /// nothing else.
    pub proof fn lemma_no_list_selects_frontend()
        ensures
            Self::resolved(None) == ArtifactSet::OnlyFrontend,
            Self::resolved(None)@ == set![Artifact::Frontend],
    {
        assert(ArtifactSet::OnlyFrontend@ =~= set![Artifact::Frontend]);
    }

    /// Where `--emit` holds a list of known names, at least one, a build
    /// produces exactly the artifacts that the list names: neither the order
    /// of the names nor their repetition plays a part.
    pub proof fn lemma_valid_list_selects_its_members(names: Vec<String>)
        requires
            names@.len() > 0,
            forall|i: int|
                0 <= i < names@.len() ==> Artifact::named(#[trigger] names@[i]@) is Some,
        ensures
            forall|a: Artifact|
                Self::resolved(Some(names))@.contains(a) <==> Self::mentions(names@, a),
            Self::resolved(Some(names))@ == Set::new(|a: Artifact| Self::mentions(names@, a)),
    {
        Self::lemma_selection_holds_what_is_mentioned(names@);
        let first = Artifact::named(names@[0]@)->Some_0;
        assert(Self::mentions(names@, first));
        assert(Self::resolved(Some(names))@ =~= Set::new(|a: Artifact| Self::mentions(names@, a)));
    }
}

impl Default for ArtifactSet {
    /// The artifacts of a build that names none: just the frontend.
    fn default() -> (set: ArtifactSet)
        ensures
            set == ArtifactSet::OnlyFrontend,
    {
        ArtifactSet::OnlyFrontend
    }
}

} // verus!
