//! Repository references: the descriptor type and the resolver that reads a
//! reference string into it.

use vstd::prelude::*;
use vstd::string::*;
use crate::grammar::{
    check_full_form, check_short_form, full_form, full_shape, full_text, is_head, is_host_text,
    is_name, is_separator, is_tail, lemma_empty_part_fits_no_form, lemma_full_form_parts_occur,
    lemma_full_shape_is_unique, lemma_shapes_exclude_each_other, lemma_short_form_parts_occur,
    lemma_short_shape_is_unique, short_form, short_shape, short_text, CharClass,
};
use crate::pattern::{captures, leftmost_groups};
use crate::text::{contains, contains_seq};

verus! {

/// A hosting provider.
#[derive(Debug, Clone, PartialEq, Eq)]
pub enum Host {
    Github,
    /// GitLab, with the domain of the instance.
    Gitlab(String),
    BitBucket,
}

/// A resolved repository: provider, owner and project.
#[derive(Debug, Clone, PartialEq, Eq)]
pub struct Repo {
    pub host: Host,
    pub project: String,
    pub owner: String,
}

/// Why a reference string could not be resolved.
#[derive(Debug, Clone, Copy, PartialEq, Eq)]
pub enum ParseError {
    /// The string has the shape of neither grammar.
    UnparsableReference,
    /// The string names a provider other than the three supported ones.
    UnsupportedProvider,
}

/// Mathematical model of a [`Host`].
pub enum HostModel {
    Github,
    Gitlab(Seq<char>),
    BitBucket,
}

/// Mathematical model of a [`Repo`].
pub struct RepoModel {
    pub host: HostModel,
    pub owner: Seq<char>,
    pub project: Seq<char>,
}

impl View for Host {
    type V = HostModel;

    open spec fn view(&self) -> HostModel {
        match self {
            Host::Github => HostModel::Github,
            Host::Gitlab(domain) => HostModel::Gitlab(domain@),
            Host::BitBucket => HostModel::BitBucket,
        }
    }
}

impl View for Repo {
    type V = RepoModel;

    open spec fn view(&self) -> RepoModel {
        RepoModel { host: self.host@, owner: self.owner@, project: self.project@ }
    }
}

impl RepoModel {
    /// Owner and project are names, that is non-empty runs of word
    /// characters and hyphens, and the domain of a GitLab host is not empty.
    pub open spec fn well_formed(self) -> bool {
        &&& is_name(self.owner)
        &&& is_name(self.project)
        &&& self.host matches HostModel::Gitlab(domain) ==> domain.len() > 0
    }
}

/// The domain given to GitLab when the reference names none.
pub open spec fn default_gitlab_domain() -> Seq<char> {
    "gitlab.com"@
}

/// The provider that a host token selects, by case-sensitive containment of
/// `github`, `gitlab` or `bitbucket`, tried in that order; `domain` is what a
/// GitLab host is given as its domain. `None` when the token holds none of
/// the three.
pub open spec fn provider_of(token: Seq<char>, domain: Seq<char>) -> Option<HostModel> {
    if contains_seq(token, "github"@) {
        Some(HostModel::Github)
    } else if contains_seq(token, "gitlab"@) {
        Some(HostModel::Gitlab(domain))
    } else if contains_seq(token, "bitbucket"@) {
        Some(HostModel::BitBucket)
    } else {
        None
    }
}

/// Selects the provider named by `token`; see [`provider_of`].
pub fn select_provider(token: &str, domain: &str) -> (r: Option<Host>)
    ensures
        r.is_some() == provider_of(token@, domain@).is_some(),
        r matches Some(h) ==> Some(h@) == provider_of(token@, domain@),
{
    if contains(token, "github") {
        Some(Host::Github)
    } else if contains(token, "gitlab") {
        Some(Host::Gitlab(String::from_str(domain)))
    } else if contains(token, "bitbucket") {
        Some(Host::BitBucket)
    } else {
        None
    }
}

/// The model of a resolver's outcome.
pub open spec fn outcome(r: Result<Repo, ParseError>) -> Result<RepoModel, ParseError> {
    match r {
        Ok(repo) => Ok(repo@),
        Err(e) => Err(e),
    }
}

/// Group `i` of a match, `None` where the match has no such group or the
/// group took no part in it.
pub open spec fn group(groups: Seq<Option<Seq<char>>>, i: int) -> Option<Seq<char>> {
    if 0 <= i < groups.len() {
        groups[i]
    } else {
        None
    }
}

/// The full-URL form as a regular expression over the whole string. Group 1
/// is the host, group 2 the owner, group 3 the project.
pub const FULL_URL_GRAMMAR: &'static str =
    "^(?:git@|https://)([0-9A-Za-z_.@]+)[/:]([0-9A-Za-z_-]+)/([0-9A-Za-z_-]+)(?:\\.git)?/?$";

/// The short form as a regular expression over the whole string. Group 1 is
/// the token before the colon and is absent where there is no colon, group 2
/// is the owner, group 3 the project.
pub const SHORT_GRAMMAR: &'static str =
    "^(?:([0-9A-Za-z_]*):)?([0-9A-Za-z_-]+)/([0-9A-Za-z_-]+)$";

/// What a match of the full-URL expression on `src` resolves to.
///
/// The groups count only where `src` is the full URL of the host, owner and
/// project that they name; otherwise, and where a group is missing, the
/// reference is unparsable. The whole host becomes the domain of a GitLab
/// host, and a host that names none of the providers is unsupported.
pub open spec fn full_url_outcome(src: Seq<char>, groups: Seq<Option<Seq<char>>>) -> Result<
    RepoModel,
    ParseError,
> {
    match (group(groups, 1), group(groups, 2), group(groups, 3)) {
        (Some(host), Some(owner), Some(project)) => {
            if !full_form(src, host, owner, project) {
                Err(ParseError::UnparsableReference)
            } else {
                match provider_of(host, host) {
                    Some(h) => Ok(RepoModel { host: h, owner, project }),
                    None => Err(ParseError::UnsupportedProvider),
                }
            }
        },
        _ => Err(ParseError::UnparsableReference),
    }
}

/// What a match of the short-form expression on `src` resolves to.
///
/// The groups count only where `src` is the short reference of the token,
/// owner and project that they name; otherwise, and where owner or project
/// is missing, the reference is unparsable. Without a token the host is
/// GitHub; a token selects the provider, GitLab getting its default domain,
/// and a token that names none of the providers is unsupported.
pub open spec fn short_outcome(src: Seq<char>, groups: Seq<Option<Seq<char>>>) -> Result<
    RepoModel,
    ParseError,
> {
    match (group(groups, 2), group(groups, 3)) {
        (Some(owner), Some(project)) => {
            if !short_form(src, group(groups, 1), owner, project) {
                Err(ParseError::UnparsableReference)
            } else {
                match group(groups, 1) {
                    None => Ok(RepoModel { host: HostModel::Github, owner, project }),
                    Some(token) => match provider_of(token, default_gitlab_domain()) {
                        Some(h) => Ok(RepoModel { host: h, owner, project }),
                        None => Err(ParseError::UnsupportedProvider),
                    },
                }
            }
        },
        _ => Err(ParseError::UnparsableReference),
    }
}

/// Group `i` of a match as a string slice.
fn group_of(groups: &Vec<Option<String>>, i: usize) -> (r: Option<&str>)
    ensures
        r.is_some() == group(groups.deep_view(), i as int).is_some(),
        r matches Some(s) ==> Some(s@) == group(groups.deep_view(), i as int),
{
    if i < groups.len() {
        match &groups[i] {
            Some(s) => Some(s.as_str()),
            None => None,
        }
    } else {
        None
    }
}

/// Resolves a match of the full-URL expression on `src`, given as its
/// capture groups.
pub fn resolve_full(src: &str, groups: &Vec<Option<String>>) -> (r: Result<Repo, ParseError>)
    ensures
        outcome(r) == full_url_outcome(src@, groups.deep_view()),
        r matches Ok(repo) ==> denotes(src@, repo@) && repo@.well_formed(),
        r == Err::<Repo, ParseError>(ParseError::UnsupportedProvider) ==> names_stranger(src@),
{
    match (group_of(groups, 1), group_of(groups, 2), group_of(groups, 3)) {
        (Some(host), Some(owner), Some(project)) => {
            if !check_full_form(src, host, owner, project) {
                Err(ParseError::UnparsableReference)
            } else {
                match select_provider(host, host) {
                    Some(h) => Ok(
                        Repo {
                            host: h,
                            project: String::from_str(project),
                            owner: String::from_str(owner),
                        },
                    ),
                    None => Err(ParseError::UnsupportedProvider),
                }
            }
        },
        _ => Err(ParseError::UnparsableReference),
    }
}

/// Resolves a match of the short-form expression on `src`, given as its
/// capture groups.
pub fn resolve_short(src: &str, groups: &Vec<Option<String>>) -> (r: Result<Repo, ParseError>)
    ensures
        outcome(r) == short_outcome(src@, groups.deep_view()),
        r matches Ok(repo) ==> denotes(src@, repo@) && repo@.well_formed(),
        r == Err::<Repo, ParseError>(ParseError::UnsupportedProvider) ==> names_stranger(src@),
{
    proof {
        reveal_strlit("gitlab.com");
    }
    match (group_of(groups, 2), group_of(groups, 3)) {
        (Some(owner), Some(project)) => {
            let token = group_of(groups, 1);
            if !check_short_form(src, token, owner, project) {
                Err(ParseError::UnparsableReference)
            } else {
                let host = match token {
                    None => Some(Host::Github),
                    Some(t) => select_provider(t, "gitlab.com"),
                };
                match host {
                    Some(h) => Ok(
                        Repo {
                            host: h,
                            project: String::from_str(project),
                            owner: String::from_str(owner),
                        },
                    ),
                    None => Err(ParseError::UnsupportedProvider),
                }
            }
        },
        _ => Err(ParseError::UnparsableReference),
    }
}

/// What a reference string resolves to: the full-URL expression is tried
/// first and, where it matches, decides alone; the short-form expression is
/// tried only when the first finds nothing; a string that neither matches is
/// unparsable.
pub open spec fn resolution(src: Seq<char>) -> Result<RepoModel, ParseError> {
    match leftmost_groups(FULL_URL_GRAMMAR@, src) {
        Some(groups) => full_url_outcome(src, groups),
        None => match leftmost_groups(SHORT_GRAMMAR@, src) {
            Some(groups) => short_outcome(src, groups),
            None => Err(ParseError::UnparsableReference),
        },
    }
}

/// `src` names `repo`: it is a full URL of the repository's owner and
/// project on a host that selects its provider, or a short reference of them
/// that has no token and means GitHub, or has a token that selects the
/// provider.
pub open spec fn denotes(src: Seq<char>, repo: RepoModel) -> bool {
    ||| exists|host: Seq<char>| #[trigger]
        full_form(src, host, repo.owner, repo.project) && provider_of(host, host) == Some(
            repo.host,
        )
    ||| short_form(src, None, repo.owner, repo.project) && repo.host == HostModel::Github
    ||| exists|token: Seq<char>| #[trigger]
        short_form(src, Some(token), repo.owner, repo.project) && provider_of(
            token,
            default_gitlab_domain(),
        ) == Some(repo.host)
}

/// `src` names a repository on a host outside the three providers: it is a
/// full URL whose host selects none of them, or a short reference whose
/// token selects none.
pub open spec fn names_stranger(src: Seq<char>) -> bool {
    ||| exists|host: Seq<char>, owner: Seq<char>, project: Seq<char>| #[trigger]
        full_form(src, host, owner, project) && provider_of(host, host) is None
    ||| exists|token: Seq<char>, owner: Seq<char>, project: Seq<char>| #[trigger]
        short_form(src, Some(token), owner, project) && provider_of(
            token,
            default_gitlab_domain(),
        ) is None
}

/// Whatever the search finds, a reference resolves only to a repository that
/// it names, and is refused as unsupported only where it names a host
/// outside the three providers.
pub proof fn law_resolution_is_sound(src: Seq<char>)
    ensures
        resolution(src) matches Ok(repo) ==> denotes(src, repo) && repo.well_formed(),
        resolution(src) == Err::<RepoModel, ParseError>(ParseError::UnsupportedProvider)
            ==> names_stranger(src),
{
    reveal_strlit("gitlab.com");
}

/// The host of a full URL that names `repo`, where `src` is one.
pub open spec fn host_in(src: Seq<char>, repo: RepoModel) -> Seq<char> {
    choose|host: Seq<char>| #[trigger]
        full_form(src, host, repo.owner, repo.project) && provider_of(host, host) == Some(
            repo.host,
        )
}

/// The token of a short reference that names `repo`, where `src` is one:
/// `None` where it has no token.
pub open spec fn token_in(src: Seq<char>, repo: RepoModel) -> Option<Seq<char>> {
    if short_form(src, None, repo.owner, repo.project) && repo.host == HostModel::Github {
        None
    } else {
        Some(
            choose|token: Seq<char>| #[trigger]
                short_form(src, Some(token), repo.owner, repo.project) && provider_of(
                    token,
                    default_gitlab_domain(),
                ) == Some(repo.host),
        )
    }
}

/// `src` names `repo` as a full URL.
pub open spec fn denotes_in_full(src: Seq<char>, repo: RepoModel) -> bool {
    exists|host: Seq<char>| #[trigger]
        full_form(src, host, repo.owner, repo.project) && provider_of(host, host) == Some(
            repo.host,
        )
}

/// A string that names a repository holds the owner and the project that it
/// names, and a slash.
pub proof fn law_named_parts_occur(src: Seq<char>, repo: RepoModel)
    requires
        denotes(src, repo),
    ensures
        contains_seq(src, repo.owner),
        contains_seq(src, repo.project),
        contains_seq(src, "/"@),
{
    if denotes_in_full(src, repo) {
        lemma_full_form_parts_occur(src, host_in(src, repo), repo.owner, repo.project);
    } else {
        lemma_short_form_parts_occur(src, token_in(src, repo), repo.owner, repo.project);
    }
}

/// A string that names a host outside the three providers holds a slash.
pub proof fn law_stranger_holds_slash(src: Seq<char>)
    requires
        names_stranger(src),
    ensures
        contains_seq(src, "/"@),
{
    if exists|host: Seq<char>, owner: Seq<char>, project: Seq<char>| #[trigger]
        full_form(src, host, owner, project) && provider_of(host, host) is None {
        let (host, owner, project) = choose|host: Seq<char>, owner: Seq<char>, project: Seq<char>|
         #[trigger]
            full_form(src, host, owner, project) && provider_of(host, host) is None;
        lemma_full_form_parts_occur(src, host, owner, project);
    } else {
        let (token, owner, project) = choose|
            token: Seq<char>,
            owner: Seq<char>,
            project: Seq<char>,
        | #[trigger]
            short_form(src, Some(token), owner, project) && provider_of(
                token,
                default_gitlab_domain(),
            ) is None;
        lemma_short_form_parts_occur(src, Some(token), owner, project);
    }
}

/// A string names at most one repository: the form, the host, the owner and
/// the project are all read off the string in one way only.
pub proof fn law_names_one_repository(src: Seq<char>, repo: RepoModel, other: RepoModel)
    requires
        denotes(src, repo),
        denotes(src, other),
    ensures
        repo == other,
{
    if denotes_in_full(src, repo) {
        let host = host_in(src, repo);
        if denotes_in_full(src, other) {
            lemma_full_shape_is_unique(
                src,
                host,
                repo.owner,
                repo.project,
                host_in(src, other),
                other.owner,
                other.project,
            );
        } else {
            lemma_shapes_exclude_each_other(
                src,
                host,
                repo.owner,
                repo.project,
                token_in(src, other),
                other.owner,
                other.project,
            );
        }
    } else {
        let token = token_in(src, repo);
        if denotes_in_full(src, other) {
            lemma_shapes_exclude_each_other(
                src,
                host_in(src, other),
                other.owner,
                other.project,
                token,
                repo.owner,
                repo.project,
            );
        } else {
            lemma_short_shape_is_unique(
                src,
                token,
                repo.owner,
                repo.project,
                token_in(src, other),
                other.owner,
                other.project,
            );
        }
    }
}

/// A string that names a host outside the three providers names no
/// repository.
pub proof fn law_stranger_names_no_repository(src: Seq<char>, repo: RepoModel)
    requires
        names_stranger(src),
    ensures
        !denotes(src, repo),
{
    if denotes(src, repo) {
        if exists|host: Seq<char>, owner: Seq<char>, project: Seq<char>| #[trigger]
            full_form(src, host, owner, project) && provider_of(host, host) is None {
            let (host, owner, project) = choose|
                host: Seq<char>,
                owner: Seq<char>,
                project: Seq<char>,
            | #[trigger]
                full_form(src, host, owner, project) && provider_of(host, host) is None;
            if denotes_in_full(src, repo) {
                lemma_full_shape_is_unique(
                    src,
                    host,
                    owner,
                    project,
                    host_in(src, repo),
                    repo.owner,
                    repo.project,
                );
            } else {
                lemma_shapes_exclude_each_other(
                    src,
                    host,
                    owner,
                    project,
                    token_in(src, repo),
                    repo.owner,
                    repo.project,
                );
            }
        } else {
            let (token, owner, project) = choose|
                token: Seq<char>,
                owner: Seq<char>,
                project: Seq<char>,
            | #[trigger]
                short_form(src, Some(token), owner, project) && provider_of(
                    token,
                    default_gitlab_domain(),
                ) is None;
            if denotes_in_full(src, repo) {
                lemma_shapes_exclude_each_other(
                    src,
                    host_in(src, repo),
                    repo.owner,
                    repo.project,
                    Some(token),
                    owner,
                    project,
                );
            } else {
                lemma_short_shape_is_unique(
                    src,
                    Some(token),
                    owner,
                    project,
                    token_in(src, repo),
                    repo.owner,
                    repo.project,
                );
            }
        }
    }
}

/// A reference that names a repository resolves to that repository or is
/// unparsable, whatever the search finds: it resolves to no other
/// repository and is never taken for an unsupported provider.
pub proof fn law_resolution_is_determined(src: Seq<char>, repo: RepoModel)
    requires
        denotes(src, repo),
    ensures
        resolution(src) == Ok::<RepoModel, ParseError>(repo) || resolution(src) == Err::<
            RepoModel,
            ParseError,
        >(ParseError::UnparsableReference),
{
    law_resolution_is_sound(src);
    match resolution(src) {
        Ok(found) => {
            law_names_one_repository(src, repo, found);
        },
        Err(_) => {
            if names_stranger(src) {
                law_stranger_names_no_repository(src, repo);
            }
        },
    }
}

/// A reference that names a host outside the three providers never
/// resolves: it is refused, and in particular never taken for a GitHub
/// repository.
pub proof fn law_stranger_never_resolves(src: Seq<char>)
    requires
        names_stranger(src),
    ensures
        resolution(src) is Err,
{
    law_resolution_is_sound(src);
    match resolution(src) {
        Ok(found) => {
            law_stranger_names_no_repository(src, found);
        },
        Err(_) => {},
    }
}

/// Every way to write a full URL of one host, owner and project names the
/// same repository: neither the head nor the separator nor `.git` nor the
/// last slash is part of what is named. A URL on a host that selects no
/// provider names a stranger.
pub proof fn law_full_urls_name_alike(
    head: Seq<char>,
    host: Seq<char>,
    sep: Seq<char>,
    owner: Seq<char>,
    project: Seq<char>,
    tail: Seq<char>,
)
    requires
        is_head(head),
        is_separator(sep),
        is_tail(tail),
        is_host_text(host),
        is_name(owner),
        is_name(project),
    ensures
        match provider_of(host, host) {
            Some(provider) => denotes(
                full_text(head, host, sep, owner, project, tail),
                RepoModel { host: provider, owner, project },
            ),
            None => names_stranger(full_text(head, host, sep, owner, project, tail)),
        },
{
    let src = full_text(head, host, sep, owner, project, tail);
    assert(full_form(src, host, owner, project));
}

/// A short reference without a token names the GitHub repository of its
/// owner and project, however the owner begins; one with a token names the
/// repository at the provider that the token selects, and a stranger where
/// the token selects none.
pub proof fn law_short_references_name_alike(
    token: Option<Seq<char>>,
    owner: Seq<char>,
    project: Seq<char>,
)
    requires
        is_name(owner),
        is_name(project),
        token matches Some(t) ==> CharClass::Word.admits_all(t),
    ensures
        match token {
            None => denotes(
                short_text(token, owner, project),
                RepoModel { host: HostModel::Github, owner, project },
            ),
            Some(t) => match provider_of(t, default_gitlab_domain()) {
                Some(provider) => denotes(
                    short_text(token, owner, project),
                    RepoModel { host: provider, owner, project },
                ),
                None => names_stranger(short_text(token, owner, project)),
            },
        },
{
    let src = short_text(token, owner, project);
    assert(short_form(src, token, owner, project));
}

/// Once the search hands back the parts of a full URL, the outcome is owed:
/// the repository at the provider that the host selects, in every way of
/// writing the URL, and the refusal as unsupported where it selects none.
pub proof fn law_full_url_with_its_parts_resolves(
    head: Seq<char>,
    host: Seq<char>,
    sep: Seq<char>,
    owner: Seq<char>,
    project: Seq<char>,
    tail: Seq<char>,
    groups: Seq<Option<Seq<char>>>,
)
    requires
        is_head(head),
        is_separator(sep),
        is_tail(tail),
        is_host_text(host),
        is_name(owner),
        is_name(project),
        group(groups, 1) == Some(host),
        group(groups, 2) == Some(owner),
        group(groups, 3) == Some(project),
    ensures
        full_url_outcome(full_text(head, host, sep, owner, project, tail), groups) == (
            match provider_of(host, host) {
                Some(provider) => Ok::<RepoModel, ParseError>(
                    RepoModel { host: provider, owner, project },
                ),
                None => Err::<RepoModel, ParseError>(ParseError::UnsupportedProvider),
            }
        ),
{
    let src = full_text(head, host, sep, owner, project, tail);
    assert(full_form(src, host, owner, project));
}

/// Once the search hands back the parts of a short reference, the outcome is
/// owed: GitHub without a token, however the owner begins, and with a token
/// the provider that it selects or the refusal as unsupported.
pub proof fn law_short_reference_with_its_parts_resolves(
    token: Option<Seq<char>>,
    owner: Seq<char>,
    project: Seq<char>,
    groups: Seq<Option<Seq<char>>>,
)
    requires
        is_name(owner),
        is_name(project),
        token matches Some(t) ==> CharClass::Word.admits_all(t),
        group(groups, 1) == token,
        group(groups, 2) == Some(owner),
        group(groups, 3) == Some(project),
    ensures
        short_outcome(short_text(token, owner, project), groups) == (match token {
            None => Ok::<RepoModel, ParseError>(
                RepoModel { host: HostModel::Github, owner, project },
            ),
            Some(t) => match provider_of(t, default_gitlab_domain()) {
                Some(provider) => Ok::<RepoModel, ParseError>(
                    RepoModel { host: provider, owner, project },
                ),
                None => Err::<RepoModel, ParseError>(ParseError::UnsupportedProvider),
            },
        }),
{
}

/// A string that is laid out as a reference of either form, but with an
/// empty owner or an empty project, is unparsable: nothing else in it is
/// taken for the missing part.
pub proof fn law_empty_owner_or_project_is_unparsable(
    src: Seq<char>,
    host: Seq<char>,
    token: Option<Seq<char>>,
    owner: Seq<char>,
    project: Seq<char>,
)
    requires
        full_shape(src, host, owner, project) || short_shape(src, token, owner, project),
        owner.len() == 0 || project.len() == 0,
    ensures
        resolution(src) == Err::<RepoModel, ParseError>(ParseError::UnparsableReference),
{
    law_resolution_is_sound(src);
    lemma_empty_part_fits_no_form(src, host, token, owner, project);
}

/// A reference without a slash is unparsable, whatever else it holds.
pub proof fn law_no_slash_is_unparsable(src: Seq<char>)
    requires
        !contains_seq(src, "/"@),
    ensures
        resolution(src) == Err::<RepoModel, ParseError>(ParseError::UnparsableReference),
{
    law_resolution_is_sound(src);
    match resolution(src) {
        Ok(repo) => {
            law_named_parts_occur(src, repo);
        },
        Err(_) => {
            if names_stranger(src) {
                law_stranger_holds_slash(src);
            }
        },
    }
}

/// Resolves a reference string into a repository descriptor.
pub fn parse(src: &str) -> (r: Result<Repo, ParseError>)
    ensures
        outcome(r) == resolution(src@),
        r matches Ok(repo) ==> {
            &&& denotes(src@, repo@)
            &&& repo@.well_formed()
            &&& contains_seq(src@, repo@.owner)
            &&& contains_seq(src@, repo@.project)
        },
        r == Err::<Repo, ParseError>(ParseError::UnsupportedProvider) ==> names_stranger(src@),
        !contains_seq(src@, "/"@) ==> r == Err::<Repo, ParseError>(
            ParseError::UnparsableReference,
        ),
{
    proof {
        law_resolution_is_sound(src@);
        match resolution(src@) {
            Ok(repo) => {
                law_named_parts_occur(src@, repo);
            },
            Err(_) => {},
        }
        if !contains_seq(src@, "/"@) {
            law_no_slash_is_unparsable(src@);
        }
    }
    match captures(FULL_URL_GRAMMAR, src) {
        Some(groups) => resolve_full(src, &groups),
        None => match captures(SHORT_GRAMMAR, src) {
            Some(groups) => resolve_short(src, &groups),
            None => Err(ParseError::UnparsableReference),
        },
    }
}

impl HostModel {
    /// The provider's name as it is shown.
    pub open spec fn display_name(self) -> Seq<char> {
        match self {
            HostModel::Github => "GitHub"@,
            HostModel::Gitlab(_) => "GitLab"@,
            HostModel::BitBucket => "BitBucket"@,
        }
    }
}

impl Host {
    /// The provider's name as it is shown.
    pub fn display_name(&self) -> (r: &'static str)
        ensures
            r@ == self@.display_name(),
    {
        match self {
            Host::Github => "GitHub",
            Host::Gitlab(_) => "GitLab",
            Host::BitBucket => "BitBucket",
        }
    }
}

impl RepoModel {
    /// The label of a repository: owner, a slash, project, ` from ` and the
    /// provider's name.
    pub open spec fn label(self) -> Seq<char> {
        self.owner + "/"@ + self.project + " from "@ + self.host.display_name()
    }
}

impl Repo {
    /// The human-readable label of the repository.
    pub fn label(&self) -> (r: String)
        ensures
            r@ == self@.label(),
    {
        let mut text = self.owner.clone();
        text.append("/");
        text.append(self.project.as_str());
        text.append(" from ");
        text.append(self.host.display_name());
        text
    }
}

impl ParseError {
    /// The message shown for this error.
    pub open spec fn message_text(self) -> Seq<char> {
        match self {
            ParseError::UnparsableReference => "Could not parse repository"@,
            ParseError::UnsupportedProvider => "Git provider not supported."@,
        }
    }

    /// The message shown for this error.
    pub fn message(&self) -> (r: String)
        ensures
            r@ == self.message_text(),
    {
        match self {
            ParseError::UnparsableReference => String::from_str("Could not parse repository"),
            ParseError::UnsupportedProvider => String::from_str("Git provider not supported."),
        }
    }
}

/// Validates a reference string: `Ok` exactly when it resolves, otherwise the
/// message of the error that [`parse`] gives.
pub fn validate_src(src: String) -> (r: Result<(), String>)
    ensures
        match resolution(src@) {
            Ok(_) => r is Ok,
            Err(e) => r matches Err(m) && m@ == e.message_text(),
        },
{
    match parse(src.as_str()) {
        Ok(_) => Ok(()),
        Err(e) => Err(e.message()),
    }
}

} // verus!
