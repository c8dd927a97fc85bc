//! Where the files of Codex are, and whether they belong together.
//!
//! A configuration is resolved once, so that a scan cannot see two homes.
use vstd::prelude::*;
use vstd::string::*;
#[allow(unused_imports)]
use vstd::utf8::encode_utf8;

use crate::encoding::{sha256_of, to_hex};
#[allow(unused_imports)]
use crate::encoding::{hex_lower, is_hex_lower, lemma_hex_lower, sha256_digest};
use crate::platform::{pushed_on_windows, starts_at_root, under_on_windows, Platform};
#[allow(unused_imports)]
use crate::platform::{is_absolute, windows_pushed, windows_under};
use crate::text::chars_of;

verus! {

/// A name below a directory. A name that is an absolute path stands for itself.
pub open spec fn joined(platform: Platform, base: Seq<char>, name: Seq<char>) -> Seq<char> {
    if platform.windows() {
        windows_pushed(base, name)
    } else if base.len() == 0 || is_absolute(platform, name) {
        name
    } else if base.last() == '/' {
        base + name
    } else {
        base + seq!['/'] + name
    }
}

pub fn join(platform: Platform, base: &str, name: &str) -> (r: String)
    ensures
        r@ == joined(platform, base@, name@),
{
    if platform.is_windows() {
        return pushed_on_windows(platform, base, name);
    }
    if starts_at_root(platform, name) {
        return name.to_owned();
    }
    let chars: Vec<char> = chars_of(base);
    let mut path: String = base.to_owned();
    if chars.len() > 0 && chars[chars.len() - 1] != '/' {
        path.push('/');
        assert(path@ =~= base@ + seq!['/']);
    }
    path.append(name);
    assert(path@ =~= joined(platform, base@, name@));
    path
}

/// Whether an absolute path without `.` and `..` is the directory or lies below it.
pub open spec fn under(platform: Platform, path: Seq<char>, base: Seq<char>) -> bool {
    if platform.windows() {
        windows_under(path, base)
    } else {
        ||| base == seq!['/'] && path.len() > 0 && path[0] == '/'
        ||| path == base
        ||| path.len() > base.len() && path.take(base.len() as int) == base
            && path[base.len() as int] == '/'
    }
}

pub fn is_under(platform: Platform, path: &str, base: &str) -> (r: bool)
    ensures
        r == under(platform, path@, base@),
{
    if platform.is_windows() {
        return under_on_windows(platform, path, base);
    }
    let path_chars: Vec<char> = chars_of(path);
    let base_chars: Vec<char> = chars_of(base);
    if base_chars.len() == 1 && base_chars[0] == '/' && path_chars.len() > 0 && path_chars[0]
        == '/' {
        assert(base@ =~= seq!['/']);
        return true;
    }
    assert(!(base@ == seq!['/'] && path@.len() > 0 && path@[0] == '/'));
    if path_chars.len() < base_chars.len() {
        return false;
    }
    let mut i: usize = 0;
    while i < base_chars.len()
        invariant
            !platform.windows(),
            i <= base_chars.len(),
            base_chars.len() <= path_chars.len(),
            path_chars@ == path@,
            base_chars@ == base@,
            !(base@ == seq!['/'] && path@.len() > 0 && path@[0] == '/'),
            forall|j: int| 0 <= j < i ==> #[trigger] path@[j] == base@[j],
        decreases base_chars.len() - i,
    {
        if path_chars[i] != base_chars[i] {
            assert(path@.take(base@.len() as int)[i as int] == path@[i as int]);
            return false;
        }
        i = i + 1;
    }
    assert(path@.take(base@.len() as int) =~= base@);
    if path_chars.len() == base_chars.len() {
        assert(path@ =~= base@);
        true
    } else {
        path_chars[base_chars.len()] == '/'
    }
}

/// What stands at a path.
#[derive(Clone, Copy, Debug, PartialEq, Eq, Structural)]
pub enum PrefixStatus {
    Missing,
    Failed,
    Present { directory: bool, symlink: bool },
}

/// A path on the way from the root, what stands there, and where it leads.
pub struct PrefixFact {
    pub path: String,
    pub status: PrefixStatus,
    pub canonical: Option<String>,
}

/// The last path on the way that exists: none when one could not be looked at.
pub open spec fn nearest(prefixes: Seq<PrefixFact>) -> Option<PrefixFact>
    decreases prefixes.len(),
{
    if prefixes.len() == 0 {
        None
    } else {
        match prefixes.last().status {
            PrefixStatus::Missing => nearest(prefixes.drop_last()),
            PrefixStatus::Failed => None,
            PrefixStatus::Present { .. } => Some(prefixes.last()),
        }
    }
}

pub open spec fn leads_under(platform: Platform, path: Option<String>, home: Seq<char>) -> bool {
    match path {
        Some(path) => under(platform, path@, home),
        None => false,
    }
}

/// A link on the way is accepted only where it is another name of a directory above home.
pub open spec fn home_alias(platform: Platform, prefix: PrefixFact, home: Seq<char>) -> bool {
    match prefix.canonical {
        Some(resolved) => !under(platform, prefix.path@, home) && under(platform, home, resolved@),
        None => false,
    }
}

/// From `i` on, no link leads astray up to the first path that is missing.
pub open spec fn no_stray_links(
    platform: Platform,
    prefixes: Seq<PrefixFact>,
    home: Seq<char>,
    i: int,
) -> bool
    decreases prefixes.len() - i,
{
    if i < 0 || i >= prefixes.len() {
        true
    } else {
        match prefixes[i].status {
            PrefixStatus::Missing => true,
            PrefixStatus::Failed => false,
            PrefixStatus::Present { symlink, .. } => (symlink ==> home_alias(
                platform,
                prefixes[i],
                home,
            )) && no_stray_links(platform, prefixes, home, i + 1),
        }
    }
}

/// Whether a file of Codex, which may not exist yet, lies within home.
pub open spec fn within_home(
    platform: Platform,
    home: Option<String>,
    path: Option<String>,
    prefixes: Seq<PrefixFact>,
) -> bool {
    match home {
        None => false,
        Some(home) => match path {
            Some(path) => under(platform, path@, home@),
            None => match nearest(prefixes) {
                None => false,
                Some(prefix) => {
                    &&& prefix.status matches PrefixStatus::Present { directory, symlink } && (
                    directory || symlink)
                    &&& leads_under(platform, prefix.canonical, home@)
                    &&& no_stray_links(platform, prefixes, home@, 0)
                },
            },
        },
    }
}

/// Whether a file of Codex lies within home, by where the two lead and, if the file does not
/// exist, by what stands on the way to it.
pub fn metadata_path_within_home(
    platform: Platform,
    canonical_home: &Option<String>,
    canonical_path: &Option<String>,
    prefixes: &Vec<PrefixFact>,
) -> (r: bool)
    ensures
        r == within_home(platform, *canonical_home, *canonical_path, prefixes@),
{
    let home: &String = match canonical_home {
        Some(home) => home,
        None => {
            return false;
        },
    };
    if let Some(path) = canonical_path {
        return is_under(platform, path.as_str(), home.as_str());
    }
    let mut n: usize = prefixes.len();
    assert(prefixes@.take(n as int) =~= prefixes@);
    while n > 0 && prefixes[n - 1].status == PrefixStatus::Missing
        invariant
            n <= prefixes.len(),
            nearest(prefixes@) == nearest(prefixes@.take(n as int)),
        decreases n,
    {
        assert(prefixes@.take(n as int).last() == prefixes@[n - 1]);
        assert(prefixes@.take(n as int).drop_last() =~= prefixes@.take(n - 1));
        n = n - 1;
    }
    if n == 0 {
        return false;
    }
    assert(prefixes@.take(n as int).last() == prefixes@[n - 1]);
    let existing: &PrefixFact = &prefixes[n - 1];
    match existing.status {
        PrefixStatus::Present { directory, symlink } => {
            if !directory && !symlink {
                return false;
            }
        },
        _ => {
            return false;
        },
    }
    let inside: bool = match &existing.canonical {
        Some(path) => is_under(platform, path.as_str(), home.as_str()),
        None => false,
    };
    if !inside {
        return false;
    }
    let mut i: usize = 0;
    while i < prefixes.len()
        invariant
            i <= prefixes.len(),
            no_stray_links(platform, prefixes@, home@, 0) == no_stray_links(
                platform,
                prefixes@,
                home@,
                i as int,
            ),
            *canonical_home == Some(*home),
            canonical_path is None,
            nearest(prefixes@) == Some(*existing),
            existing.status matches PrefixStatus::Present { directory, symlink } && (directory
                || symlink),
            leads_under(platform, existing.canonical, home@),
        decreases prefixes.len() - i,
    {
        let prefix: &PrefixFact = &prefixes[i];
        match prefix.status {
            PrefixStatus::Missing => {
                return true;
            },
            PrefixStatus::Failed => {
                return false;
            },
            PrefixStatus::Present { symlink, .. } => {
                if symlink {
                    let alias: bool = match &prefix.canonical {
                        Some(resolved) => !is_under(platform, prefix.path.as_str(), home.as_str())
                            && is_under(platform, home.as_str(), resolved.as_str()),
                        None => false,
                    };
                    if !alias {
                        return false;
                    }
                }
            },
        }
        i = i + 1;
    }
    true
}

/// The files of Codex.
#[derive(Clone, Debug, PartialEq, Eq)]
pub struct CodexMetadataPaths {
    pub state_index_path: String,
    pub session_index_path: String,
    pub global_state_path: String,
}

#[verifier::ext_equal]
pub struct MetadataPathFacts {
    pub state_index_path: Seq<char>,
    pub session_index_path: Seq<char>,
    pub global_state_path: Seq<char>,
}

impl DeepView for CodexMetadataPaths {
    type V = MetadataPathFacts;

    open spec fn deep_view(&self) -> MetadataPathFacts {
        MetadataPathFacts {
            state_index_path: self.state_index_path@,
            session_index_path: self.session_index_path@,
            global_state_path: self.global_state_path@,
        }
    }
}

pub open spec fn paths_of(platform: Platform, home: Seq<char>) -> MetadataPathFacts {
    MetadataPathFacts {
        state_index_path: joined(platform, home, "state_5.sqlite"@),
        session_index_path: joined(platform, home, "session_index.jsonl"@),
        global_state_path: joined(platform, home, ".codex-global-state.json"@),
    }
}

impl CodexMetadataPaths {
    pub fn from_home(platform: Platform, home: &str) -> (r: Self)
        ensures
            r.deep_view() == paths_of(platform, home@),
    {
        CodexMetadataPaths {
            state_index_path: join(platform, home, "state_5.sqlite"),
            session_index_path: join(platform, home, "session_index.jsonl"),
            global_state_path: join(platform, home, ".codex-global-state.json"),
        }
    }

    pub fn state_index_path(&self) -> (r: &str)
        ensures
            r@ == self.deep_view().state_index_path,
    {
        self.state_index_path.as_str()
    }

    pub fn session_index_path(&self) -> (r: &str)
        ensures
            r@ == self.deep_view().session_index_path,
    {
        self.session_index_path.as_str()
    }

    pub fn global_state_path(&self) -> (r: &str)
        ensures
            r@ == self.deep_view().global_state_path,
    {
        self.global_state_path.as_str()
    }
}

/// Why there is no configuration.
#[derive(Clone, Debug, PartialEq, Eq)]
pub struct CodexConfigError {
    code: &'static str,
    attempted_home: String,
    resolved_home: Option<String>,
    metadata_path: Option<String>,
}

#[verifier::ext_equal]
pub struct ConfigErrorFacts {
    pub code: Seq<char>,
    pub attempted_home: Seq<char>,
    pub resolved_home: Option<Seq<char>>,
    pub metadata_path: Option<Seq<char>>,
}

impl View for CodexConfigError {
    type V = ConfigErrorFacts;

    closed spec fn view(&self) -> ConfigErrorFacts {
        ConfigErrorFacts {
            code: self.code@,
            attempted_home: self.attempted_home@,
            resolved_home: self.resolved_home.deep_view(),
            metadata_path: self.metadata_path.deep_view(),
        }
    }
}

pub open spec fn path_view(path: Option<&String>) -> Option<Seq<char>> {
    match path {
        Some(path) => Some(path@),
        None => None,
    }
}

impl CodexConfigError {
    pub fn code(&self) -> (r: &'static str)
        ensures
            r@ == self@.code,
    {
        self.code
    }

    pub fn attempted_home(&self) -> (r: &str)
        ensures
            r@ == self@.attempted_home,
    {
        self.attempted_home.as_str()
    }

    pub fn resolved_home(&self) -> (r: Option<&String>)
        ensures
            path_view(r) == self@.resolved_home,
    {
        self.resolved_home.as_ref()
    }

    pub fn metadata_path(&self) -> (r: Option<&String>)
        ensures
            path_view(r) == self@.metadata_path,
    {
        self.metadata_path.as_ref()
    }

    /// What the error says: its code.
    pub fn message(&self) -> (r: String)
        ensures
            r@ == self@.code,
    {
        self.code.to_owned()
    }
}

/// A home with its files and its fingerprint.
#[derive(Debug, PartialEq, Eq)]
pub struct CodexConfig {
    home: String,
    home_fingerprint: String,
    metadata: CodexMetadataPaths,
}

#[verifier::ext_equal]
pub struct ConfigFacts {
    pub home: Seq<char>,
    pub home_fingerprint: Seq<char>,
    pub metadata: MetadataPathFacts,
}

impl View for CodexConfig {
    type V = ConfigFacts;

    closed spec fn view(&self) -> ConfigFacts {
        ConfigFacts {
            home: self.home@,
            home_fingerprint: self.home_fingerprint@,
            metadata: self.metadata.deep_view(),
        }
    }
}

#[derive(Clone, Debug, PartialEq, Eq)]
pub enum CodexConfigResolution {
    Ready(CodexConfig),
    Invalid(CodexConfigError),
}

pub enum ResolutionFacts {
    Ready(ConfigFacts),
    Invalid(ConfigErrorFacts),
}

impl DeepView for CodexConfigResolution {
    type V = ResolutionFacts;

    open spec fn deep_view(&self) -> ResolutionFacts {
        match self {
            CodexConfigResolution::Ready(config) => ResolutionFacts::Ready(config@),
            CodexConfigResolution::Invalid(error) => ResolutionFacts::Invalid(error@),
        }
    }
}

/// A home is known by the SHA-256 of its path.
pub open spec fn home_fingerprint_of(home: Seq<char>) -> Seq<char> {
    hex_lower(sha256_digest(encode_utf8(home)))
}

/// A fingerprint is 64 lower-case hexadecimal digits.
pub open spec fn is_fingerprint(text: Seq<char>) -> bool {
    &&& text.len() == 64
    &&& forall|i: int| 0 <= i < text.len() ==> is_hex_lower(#[trigger] text[i])
}

pub fn fingerprint(home: &str) -> (r: String)
    ensures
        r@ == home_fingerprint_of(home@),
        is_fingerprint(r@),
{
    let digest: [u8; 32] = sha256_of(home.as_bytes());
    proof {
        lemma_hex_lower(digest@);
    }
    to_hex(digest.as_slice())
}

/// The home to try: the configured one, else the one below the home of the user, else one
/// below wherever the program runs.
pub open spec fn candidate(
    platform: Platform,
    codex_home: Option<Seq<char>>,
    user_home: Option<Seq<char>>,
) -> Seq<char> {
    match codex_home {
        Some(home) => if home.len() > 0 {
            home
        } else {
            candidate_below(platform, user_home)
        },
        None => candidate_below(platform, user_home),
    }
}

pub open spec fn candidate_below(platform: Platform, user_home: Option<Seq<char>>) -> Seq<char> {
    match user_home {
        Some(home) => joined(platform, home, ".codex"@),
        None => ".codex"@,
    }
}

pub fn default_candidate(
    platform: Platform,
    codex_home: Option<String>,
    user_home: &Option<String>,
) -> (r: String)
    ensures
        r@ == candidate(platform, codex_home.deep_view(), user_home.deep_view()),
{
    if let Some(home) = codex_home {
        if !home.as_str().is_empty() {
            return home;
        }
    }
    match user_home {
        Some(home) => join(platform, home.as_str(), ".codex"),
        None => ".codex".to_owned(),
    }
}

/// The first of the files that lies outside.
pub open spec fn stray_path(metadata: MetadataPathFacts, inside: [bool; 3]) -> Option<Seq<char>> {
    if !inside[0] {
        Some(metadata.state_index_path)
    } else if !inside[1] {
        Some(metadata.session_index_path)
    } else if !inside[2] {
        Some(metadata.global_state_path)
    } else {
        None
    }
}

/// What a home comes to: `resolved_home` is where it leads, and `inside` says of each of the
/// files whether it lies within.
pub open spec fn resolved(
    platform: Platform,
    attempted_home: Seq<char>,
    resolved_home: Option<Seq<char>>,
    metadata: MetadataPathFacts,
    inside: [bool; 3],
) -> ResolutionFacts {
    match resolved_home {
        None => ResolutionFacts::Invalid(
            ConfigErrorFacts {
                code: "CODEX_HOME_RESOLUTION_FAILED"@,
                attempted_home,
                resolved_home,
                metadata_path: None,
            },
        ),
        Some(home) => if !is_absolute(platform, home) {
            ResolutionFacts::Invalid(
                ConfigErrorFacts {
                    code: "CODEX_HOME_NOT_ABSOLUTE"@,
                    attempted_home,
                    resolved_home,
                    metadata_path: None,
                },
            )
        } else if stray_path(metadata, inside) is Some {
            ResolutionFacts::Invalid(
                ConfigErrorFacts {
                    code: "CODEX_METADATA_HOME_MISMATCH"@,
                    attempted_home,
                    resolved_home,
                    metadata_path: stray_path(metadata, inside),
                },
            )
        } else {
            ResolutionFacts::Ready(
                ConfigFacts { home, home_fingerprint: home_fingerprint_of(home), metadata },
            )
        },
    }
}

impl Clone for CodexConfig {
    fn clone(&self) -> (r: Self)
        ensures
            r@ == self@,
    {
        proof {
            use_type_invariant(self);
        }
        CodexConfig {
            home: self.home.clone(),
            home_fingerprint: self.home_fingerprint.clone(),
            metadata: CodexMetadataPaths {
                state_index_path: self.metadata.state_index_path.clone(),
                session_index_path: self.metadata.session_index_path.clone(),
                global_state_path: self.metadata.global_state_path.clone(),
            },
        }
    }
}

impl CodexConfig {
    #[verifier::type_invariant]
    spec fn known(self) -> bool {
        is_fingerprint(self.home_fingerprint@)
    }

    /// Resolves a home whose files are where they always are.
    pub fn from_home(
        platform: Platform,
        attempted_home: String,
        resolved_home: Option<String>,
        inside: [bool; 3],
    ) -> (r: CodexConfigResolution)
        ensures
            r.deep_view() == resolved(
                platform,
                attempted_home@,
                resolved_home.deep_view(),
                match resolved_home {
                    Some(home) => paths_of(platform, home@),
                    None => paths_of(platform, attempted_home@),
                },
                inside,
            ),
    {
        let metadata: CodexMetadataPaths = match &resolved_home {
            Some(home) => CodexMetadataPaths::from_home(platform, home.as_str()),
            None => CodexMetadataPaths::from_home(platform, attempted_home.as_str()),
        };
        CodexConfig::with_metadata_paths(
            platform,
            attempted_home,
            resolved_home,
            metadata,
            inside,
        )
    }

    /// Resolves a home whose files are elsewhere.
    pub fn with_metadata_paths(
        platform: Platform,
        attempted_home: String,
        resolved_home: Option<String>,
        metadata: CodexMetadataPaths,
        inside: [bool; 3],
    ) -> (r: CodexConfigResolution)
        ensures
            r.deep_view() == resolved(
                platform,
                attempted_home@,
                resolved_home.deep_view(),
                metadata.deep_view(),
                inside,
            ),
    {
        let home: String = match &resolved_home {
            Some(home) => home.clone(),
            None => {
                return CodexConfigResolution::Invalid(
                    CodexConfigError {
                        code: "CODEX_HOME_RESOLUTION_FAILED",
                        attempted_home,
                        resolved_home: None,
                        metadata_path: None,
                    },
                );
            },
        };
        if !starts_at_root(platform, home.as_str()) {
            return CodexConfigResolution::Invalid(
                CodexConfigError {
                    code: "CODEX_HOME_NOT_ABSOLUTE",
                    attempted_home,
                    resolved_home,
                    metadata_path: None,
                },
            );
        }
        let stray: Option<String> = if !inside[0] {
            Some(metadata.state_index_path.clone())
        } else if !inside[1] {
            Some(metadata.session_index_path.clone())
        } else if !inside[2] {
            Some(metadata.global_state_path.clone())
        } else {
            None
        };
        if stray.is_some() {
            return CodexConfigResolution::Invalid(
                CodexConfigError {
                    code: "CODEX_METADATA_HOME_MISMATCH",
                    attempted_home,
                    resolved_home,
                    metadata_path: stray,
                },
            );
        }
        let home_fingerprint: String = fingerprint(home.as_str());
        CodexConfigResolution::Ready(CodexConfig { home, home_fingerprint, metadata })
    }

    pub fn home(&self) -> (r: &str)
        ensures
            r@ == self@.home,
    {
        self.home.as_str()
    }

    pub fn home_fingerprint(&self) -> (r: &str)
        ensures
            r@ == self@.home_fingerprint,
            is_fingerprint(r@),
    {
        proof {
            use_type_invariant(&*self);
        }
        self.home_fingerprint.as_str()
    }

    pub fn metadata(&self) -> (r: &CodexMetadataPaths)
        ensures
            r.deep_view() == self@.metadata,
    {
        &self.metadata
    }
}

impl CodexConfigResolution {
    /// The home to look for quota credentials in: the best that is known of it.
    pub fn quota_home(&self) -> (r: &str)
        ensures
            r@ == match self.deep_view() {
                ResolutionFacts::Ready(config) => config.home,
                ResolutionFacts::Invalid(error) => match error.resolved_home {
                    Some(home) => home,
                    None => error.attempted_home,
                },
            },
    {
        match self {
            CodexConfigResolution::Ready(config) => config.home(),
            CodexConfigResolution::Invalid(error) => match &error.resolved_home {
                Some(home) => home.as_str(),
                None => error.attempted_home.as_str(),
            },
        }
    }
}

/// On Unix a file of Codex where it always is lies within its home.
pub proof fn law_files_lie_within_home(platform: Platform, home: Seq<char>)
    requires
        !platform.windows(),
        is_absolute(platform, home),
        home == seq!['/'] || home.last() != '/',
    ensures
        under(platform, paths_of(platform, home).state_index_path, home),
        under(platform, paths_of(platform, home).session_index_path, home),
        under(platform, paths_of(platform, home).global_state_path, home),
{
    reveal_strlit("state_5.sqlite");
    reveal_strlit("session_index.jsonl");
    reveal_strlit(".codex-global-state.json");
    let paths = paths_of(platform, home);
    assert(paths.state_index_path.take(home.len() as int) =~= home);
    assert(paths.session_index_path.take(home.len() as int) =~= home);
    assert(paths.global_state_path.take(home.len() as int) =~= home);
}

/// On Unix lying below passes on.
pub proof fn law_under_is_transitive(platform: Platform, a: Seq<char>, b: Seq<char>, c: Seq<char>)
    requires
        !platform.windows(),
        under(platform, a, b),
        under(platform, b, c),
        c.len() > 0,
    ensures
        under(platform, a, c),
{
    if b == seq!['/'] {
        if c == b {
        } else {
            assert(c.len() <= 1);
            assert(b.take(c.len() as int).len() == c.len());
        }
    } else if c == seq!['/'] {
        assert(b.take(1)[0] == b[0]);
        if a != b {
            assert(a.take(b.len() as int)[0] == a[0]);
        }
    } else if a != b && b != c {
        assert(a.take(c.len() as int) =~= a.take(b.len() as int).take(c.len() as int));
        assert(a[c.len() as int] == a.take(b.len() as int)[c.len() as int]);
    }
}

/// A ready configuration has an absolute home, and its fingerprint is that of the home alone.
pub proof fn law_ready_homes_are_absolute(
    platform: Platform,
    attempted_home: Seq<char>,
    resolved_home: Option<Seq<char>>,
    metadata: MetadataPathFacts,
    inside: [bool; 3],
    config: ConfigFacts,
)
    requires
        resolved(platform, attempted_home, resolved_home, metadata, inside)
            == ResolutionFacts::Ready(config),
    ensures
        is_absolute(platform, config.home),
        resolved_home == Some(config.home),
        config.home_fingerprint == home_fingerprint_of(config.home),
        inside[0] && inside[1] && inside[2],
{
}

} // verus!
