//! Workspaces: one directory per job, named by a random identifier.
//!
//! Isolation between jobs is by construction: every path that a job is
//! given lies in its own workspace, and workspaces with different
//! identifiers share no path. Identifiers come from a random source, so no
//! coordination between jobs is needed.

use vstd::prelude::*;
use vstd::string::*;

verus! {

/// A universally unique identifier.
#[verifier::external_type_specification]
#[verifier::external_body]
pub struct ExUuid(uuid::Uuid);

/// Directory that holds the baseline image. It must exist before any job
/// is staged.
pub const TEMPLATE_DIR: &'static str = "sandbox";

/// The entry of the baseline image that is copied into every workspace.
pub const TEMPLATE_ENTRY: &'static str = "sandbox/sandbox";

/// Length of a workspace identifier.
pub const ID_LEN: usize = 36;

/// Whether `c` is a decimal digit or one of the letters `a` to `f`.
pub open spec fn is_lower_hex(c: char) -> bool {
    ('0' <= c && c <= '9') || ('a' <= c && c <= 'f')
}

/// Whether `i` is one of the four places of a hyphen in an identifier.
pub open spec fn is_hyphen_place(i: int) -> bool {
    i == 8 || i == 13 || i == 18 || i == 23
}

/// Whether `id` has the shape of a workspace identifier: 36 characters,
/// hyphens at places 8, 13, 18 and 23, lower-case hexadecimal digits
/// everywhere else.
pub open spec fn is_workspace_id(id: Seq<char>) -> bool {
    &&& id.len() == 36
    &&& forall|i: int|
        0 <= i < 36 ==> if is_hyphen_place(i) {
            #[trigger] id[i] == '-'
        } else {
            is_lower_hex(id[i])
        }
}

/// Whether `path` lies below the directory `dir`.
pub open spec fn is_below(dir: Seq<char>, path: Seq<char>) -> bool {
    &&& path.len() > dir.len()
    &&& path.subrange(0, dir.len() as int) == dir
    &&& path[dir.len() as int] == '/'
}

/// Whether `path` is the workspace `id` itself or lies below it.
pub open spec fn owns(id: Seq<char>, path: Seq<char>) -> bool {
    path == id || is_below(id, path)
}

/// Workspaces with different identifiers share no path: what one owns, the
/// other does not.
pub proof fn lemma_workspaces_disjoint(a: Seq<char>, b: Seq<char>, path: Seq<char>)
    requires
        is_workspace_id(a),
        is_workspace_id(b),
        a != b,
        owns(a, path),
    ensures
        !owns(b, path),
{
    if is_below(b, path) && is_below(a, path) {
        assert(path.subrange(0, 36) == a);
        assert(path.subrange(0, 36) == b);
    }
}

/// `Uuid::new_v4`: a random identifier. Nothing is known of which.
#[verifier::external_body]
fn random_uuid() -> (r: uuid::Uuid) {
    uuid::Uuid::new_v4()
}

/// `Uuid`'s `Display`: the identifier in hyphenated lower-case form, that
/// is 32 hexadecimal digits in groups of 8, 4, 4, 4 and 12.
#[verifier::external_body]
fn uuid_text(id: &uuid::Uuid) -> (r: String)
    ensures
        is_workspace_id(r@),
{
    id.to_string()
}

/// The directory of one job.
pub struct Workspace {
    id: String,
}

impl View for Workspace {
    type V = Seq<char>;

    /// The workspace's identifier, which is also its directory's name.
    closed spec fn view(&self) -> Seq<char> {
        self.id@
    }
}

impl Workspace {
    #[verifier::type_invariant]
    spec fn well_named(self) -> bool {
        is_workspace_id(self.id@)
    }

    /// A workspace under a fresh random identifier.
    pub fn fresh() -> (r: Workspace)
        ensures
            is_workspace_id(r@),
    {
        let uuid = random_uuid();
        Workspace { id: uuid_text(&uuid) }
    }

    /// The workspace of a given identifier, if the text has the shape of
    /// one.
    pub fn named(id: &str) -> (r: Option<Workspace>)
        ensures
            r is Some <==> is_workspace_id(id@),
            r matches Some(w) ==> w@ == id@,
    {
        if id.unicode_len() != ID_LEN {
            return None;
        }
        let mut i: usize = 0;
        while i < ID_LEN
            invariant
                i <= 36,
                id@.len() == 36,
                forall|j: int|
                    0 <= j < i ==> if is_hyphen_place(j) {
                        #[trigger] id@[j] == '-'
                    } else {
                        is_lower_hex(id@[j])
                    },
            decreases 36 - i,
        {
            let c = id.get_char(i);
            let hyphen_place = i == 8 || i == 13 || i == 18 || i == 23;
            let fits = if hyphen_place {
                c == '-'
            } else {
                ('0' <= c && c <= '9') || ('a' <= c && c <= 'f')
            };
            if !fits {
                assert(!is_workspace_id(id@)) by {
                    if is_workspace_id(id@) {
                        assert(if is_hyphen_place(i as int) {
                            id@[i as int] == '-'
                        } else {
                            is_lower_hex(id@[i as int])
                        });
                    }
                }
                return None;
            }
            i += 1;
        }
        Some(Workspace { id: id.to_owned() })
    }

    /// The identifier, which always has the shape of one.
    pub fn id(&self) -> (r: &str)
        ensures
            r@ == self@,
            is_workspace_id(r@),
    {
        proof {
            use_type_invariant(self);
        }
        self.id.as_str()
    }

    /// The workspace's directory, relative to the working directory.
    pub fn dir(&self) -> (r: String)
        ensures
            r@ == self@,
            owns(self@, r@),
    {
        self.id.clone()
    }

    /// The path of a file directly in the workspace.
    pub open spec fn file(id: Seq<char>, name: Seq<char>) -> Seq<char> {
        id + seq!['/'] + name
    }

    /// A file directly in a workspace lies in that workspace.
    pub proof fn lemma_file_owned(id: Seq<char>, name: Seq<char>)
        ensures
            owns(id, Self::file(id, name)),
    {
        let path = Self::file(id, name);
        assert(path.subrange(0, id.len() as int) =~= id);
    }

    fn path_of(&self, name: &str) -> (r: String)
        ensures
            r@ == Self::file(self@, name@),
            owns(self@, r@),
    {
        let mut path = self.id.clone();
        path.append("/");
        path.append(name);
        proof {
            reveal_strlit("/");
            assert("/"@ =~= seq!['/']);
            Self::lemma_file_owned(self@, name@);
        }
        path
    }

    /// Where the command list is written for the isolation runtime.
    pub fn commands_path(&self) -> (r: String)
        ensures
            r@ == Self::file(self@, "commands.yaml"@),
            owns(self@, r@),
    {
        self.path_of("commands.yaml")
    }

    /// Where the isolation runtime leaves the result list.
    pub fn results_path(&self) -> (r: String)
        ensures
            r@ == Self::file(self@, "results.yaml"@),
            owns(self@, r@),
    {
        self.path_of("results.yaml")
    }
}

impl Clone for Workspace {
    fn clone(&self) -> (r: Workspace)
        ensures
            r@ == self@,
    {
        proof {
            use_type_invariant(self);
        }
        Workspace { id: self.id.clone() }
    }
}

} // verus!
