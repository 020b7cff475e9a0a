//! Validation of request parameters and the cache key built from them.
//!
//! A request names a server and a datafile. Only servers of a fixed shape
//! and datafiles from a fixed list are served; everything else is refused
//! before any cache tier or the upstream is consulted.

use crate::pattern::compile;
use crate::pattern::is_match;
use crate::pattern::pattern_compiles;
use crate::pattern::pattern_language;
use crate::pattern::regex_language;
use crate::text::same_text;
use regex::Regex;
use vstd::prelude::*;
use vstd::string::StringExecFns;

verus! {

/// The shape of a server name: two letters, then one to three digits.
pub const SERVER_PATTERN: &'static str = "^[a-zA-Z]{2}\\d{1,3}$";

/// Whether `server` has the shape of a server name.
pub open spec fn valid_server(server: Seq<char>) -> bool {
    pattern_language(SERVER_PATTERN@).contains(server)
}

/// Whether `datafile` is one of the datafiles that are served.
pub open spec fn valid_datafile(datafile: Seq<char>) -> bool {
    ||| datafile == "players.txt"@
    ||| datafile == "towns.txt"@
    ||| datafile == "alliances.txt"@
    ||| datafile == "islands.txt"@
}

/// The key text of a resource: server, a slash, datafile.
pub open spec fn key_text(server: Seq<char>, datafile: Seq<char>) -> Seq<char> {
    server + seq!['/'] + datafile
}

/// Whether `datafile` is one of the datafiles that are served.
pub fn is_valid_datafile(datafile: &str) -> (b: bool)
    ensures
        b == valid_datafile(datafile@),
{
    same_text(datafile, "players.txt") || same_text(datafile, "towns.txt") || same_text(
        datafile,
        "alliances.txt",
    ) || same_text(datafile, "islands.txt")
}

/// Identifies one cached resource. A key exists only for a valid server and
/// a valid datafile.
pub struct CacheKey {
    server: String,
    datafile: String,
    text: String,
}

impl CacheKey {
    #[verifier::type_invariant]
    spec fn inv(self) -> bool {
        self.wf()
    }

    /// What holds of every key.
    pub closed spec fn wf(&self) -> bool {
        &&& valid_server(self.server@)
        &&& valid_datafile(self.datafile@)
        &&& self.text@ == key_text(self.server@, self.datafile@)
    }

    /// The server that the key names.
    pub closed spec fn server_view(&self) -> Seq<char> {
        self.server@
    }

    /// The datafile that the key names.
    pub closed spec fn datafile_view(&self) -> Seq<char> {
        self.datafile@
    }

    /// The server that the key names.
    pub fn server(&self) -> (s: &str)
        ensures
            s@ == self.server_view(),
            valid_server(s@),
    {
        proof {
            use_type_invariant(self);
        }
        self.server.as_str()
    }

    /// The datafile that the key names.
    pub fn datafile(&self) -> (s: &str)
        ensures
            s@ == self.datafile_view(),
            valid_datafile(s@),
    {
        proof {
            use_type_invariant(self);
        }
        self.datafile.as_str()
    }

    /// The key as text, which is also the resource's relative path in the
    /// disk tier.
    pub fn as_str(&self) -> (s: &str)
        ensures
            s@ == self@,
    {
        proof {
            use_type_invariant(self);
        }
        self.text.as_str()
    }
}

impl View for CacheKey {
    type V = Seq<char>;

    closed spec fn view(&self) -> Seq<char> {
        self.text@
    }
}

/// Every key names a resource that is served: a well-formed key is the
/// text of a valid server and a valid datafile.
pub proof fn law_key_names_valid_resource(key: CacheKey)
    requires
        key.wf(),
    ensures
        valid_server(key.server_view()),
        valid_datafile(key.datafile_view()),
        key@ == key_text(key.server_view(), key.datafile_view()),
{
}

/// No valid datafile holds a slash, and all are of similar length.
proof fn lemma_datafile_has_no_slash(datafile: Seq<char>)
    requires
        valid_datafile(datafile),
    ensures
        9 <= datafile.len() <= 13,
        forall|i: int| 0 <= i < datafile.len() ==> datafile[i] != '/',
{
    reveal_strlit("players.txt");
    reveal_strlit("towns.txt");
    reveal_strlit("alliances.txt");
    reveal_strlit("islands.txt");
}

/// A key identifies its resource: two resources with the same key text are
/// the same server and the same datafile.
pub proof fn law_key_identifies_resource(
    server: Seq<char>,
    datafile: Seq<char>,
    other_server: Seq<char>,
    other_datafile: Seq<char>,
)
    requires
        valid_datafile(datafile),
        valid_datafile(other_datafile),
        key_text(server, datafile) == key_text(other_server, other_datafile),
    ensures
        server == other_server,
        datafile == other_datafile,
{
    lemma_datafile_has_no_slash(datafile);
    lemma_datafile_has_no_slash(other_datafile);
    let a = key_text(server, datafile);
    let b = key_text(other_server, other_datafile);
    let i = server.len() as int;
    let j = other_server.len() as int;
    assert(a.len() == i + 1 + datafile.len());
    assert(b.len() == j + 1 + other_datafile.len());
    if i < j {
        // The slash before `other_datafile` would lie inside `datafile`.
        assert(b[j] == '/' && a[j] == datafile[j - i - 1]);
    } else if i > j {
        assert(a[i] == '/' && b[i] == other_datafile[i - j - 1]);
    } else {
        assert forall|n: int| 0 <= n < i implies server[n] == other_server[n] by {
            assert(a[n] == server[n] && b[n] == other_server[n]);
        }
        assert forall|n: int| 0 <= n < datafile.len() implies datafile[n] == other_datafile[n] by {
            assert(a[i + 1 + n] == datafile[n] && b[i + 1 + n] == other_datafile[n]);
        }
    }
}

/// Decides which requests are served.
pub struct Validator {
    server: Regex,
}

impl Validator {
    #[verifier::type_invariant]
    spec fn inv(self) -> bool {
        self.wf()
    }

    /// The texts that the validator takes for server names: those that its
    /// compiled regex matches.
    pub closed spec fn servers(&self) -> Set<Seq<char>> {
        regex_language(self.server)
    }

    /// What holds of every validator: it takes for server names exactly the
    /// texts that [`SERVER_PATTERN`] matches.
    pub open spec fn wf(&self) -> bool {
        self.servers() == pattern_language(SERVER_PATTERN@)
    }

    /// Wraps a regex compiled from [`SERVER_PATTERN`], if there is one. The
    /// validator takes for server names what that regex matches.
    pub fn from_compiled(compiled: Option<Regex>) -> (r: Option<Validator>)
        requires
            compiled matches Some(re) ==> regex_language(re) == pattern_language(
                SERVER_PATTERN@,
            ),
        ensures
            r is Some <==> compiled is Some,
            r matches Some(v) ==> v.wf() && v.servers() == regex_language(compiled->0),
    {
        match compiled {
            Some(re) => Some(Validator { server: re }),
            None => None,
        }
    }

    /// Compiles [`SERVER_PATTERN`] and wraps the regex. There is a
    /// validator exactly if the pattern compiles, and it takes for server
    /// names exactly the texts that the pattern matches.
    pub fn new() -> (r: Option<Validator>)
        ensures
            r is Some <==> pattern_compiles(SERVER_PATTERN@),
            r matches Some(v) ==> v.wf(),
    {
        Validator::from_compiled(compile(SERVER_PATTERN))
    }

    /// Whether `server` has the shape of a server name.
    pub fn is_valid_server(&self, server: &str) -> (b: bool)
        ensures
            b == self.servers().contains(server@),
            b == valid_server(server@),
    {
        proof {
            use_type_invariant(self);
        }
        is_match(&self.server, server)
    }

    /// The key for `server` and `datafile`, if both are valid.
    pub fn key_for(&self, server: &str, datafile: &str) -> (r: Option<CacheKey>)
        ensures
            r is Some <==> valid_server(server@) && valid_datafile(datafile@),
            r matches Some(key) ==> {
                &&& key.wf()
                &&& key.server_view() == server@
                &&& key.datafile_view() == datafile@
                &&& key@ == key_text(server@, datafile@)
            },
    {
        if !self.is_valid_server(server) {
            return None;
        }
        if !is_valid_datafile(datafile) {
            return None;
        }
        let mut text = String::from_str(server);
        text.append("/");
        text.append(datafile);
        proof {
            reveal_strlit("/");
            assert("/"@ =~= seq!['/']);
        }
        Some(CacheKey { server: String::from_str(server), datafile: String::from_str(datafile), text })
    }
}

} // verus!
