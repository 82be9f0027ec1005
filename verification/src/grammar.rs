//! The two shapes of a repository reference, stated over characters, and the
//! tests that hold a string against them.

use vstd::prelude::*;
use vstd::string::*;
use crate::text::{contains_seq, occurs_at};

verus! {

/// A word character: an ASCII letter, an ASCII digit or the underscore.
pub open spec fn is_word_char(c: char) -> bool {
    ('a' <= c && c <= 'z') || ('A' <= c && c <= 'Z') || ('0' <= c && c <= '9') || c == '_'
}

/// A character of an owner or project name: a word character or a hyphen.
pub open spec fn is_name_char(c: char) -> bool {
    is_word_char(c) || c == '-'
}

/// A character of a host: a word character, a dot or `@`.
pub open spec fn is_host_char(c: char) -> bool {
    is_word_char(c) || c == '.' || c == '@'
}

/// A kind of character.
#[derive(Debug, Clone, Copy, PartialEq, Eq)]
pub enum CharClass {
    /// Word characters.
    Word,
    /// Characters of an owner or project name.
    Name,
    /// Characters of a host.
    Host,
}

impl CharClass {
    /// Whether `c` is of this kind.
    pub open spec fn admits(self, c: char) -> bool {
        match self {
            CharClass::Word => is_word_char(c),
            CharClass::Name => is_name_char(c),
            CharClass::Host => is_host_char(c),
        }
    }

    /// Whether every character of `text` is of this kind.
    pub open spec fn admits_all(self, text: Seq<char>) -> bool {
        forall|i: int| 0 <= i < text.len() ==> self.admits(#[trigger] text[i])
    }

    /// Whether `c` is of this kind.
    pub fn holds(&self, c: char) -> (r: bool)
        ensures
            r == self.admits(c),
    {
        let word = ('a' <= c && c <= 'z') || ('A' <= c && c <= 'Z') || ('0' <= c && c <= '9') || c
            == '_';
        match self {
            CharClass::Word => word,
            CharClass::Name => word || c == '-',
            CharClass::Host => word || c == '.' || c == '@',
        }
    }

    /// Whether every character of `text` is of this kind.
    pub fn holds_all(&self, text: &str) -> (r: bool)
        ensures
            r == self.admits_all(text@),
    {
        for c in it: text.chars()
            invariant
                it.seq() == text@,
                forall|i: int| 0 <= i < it.index() ==> self.admits(#[trigger] text@[i]),
        {
            if !self.holds(c) {
                return false;
            }
        }
        true
    }
}

/// An owner or a project: one or more name characters.
pub open spec fn is_name(text: Seq<char>) -> bool {
    text.len() > 0 && CharClass::Name.admits_all(text)
}

/// A host: one or more host characters.
pub open spec fn is_host_text(text: Seq<char>) -> bool {
    text.len() > 0 && CharClass::Host.admits_all(text)
}

/// Whether `text` is an owner or a project.
pub fn check_name(text: &str) -> (r: bool)
    ensures
        r == is_name(text@),
{
    !text.is_empty() && CharClass::Name.holds_all(text)
}

/// The text of a full URL: head, host, separator, owner, a slash, project
/// and tail, in a row.
pub open spec fn full_text(
    head: Seq<char>,
    host: Seq<char>,
    sep: Seq<char>,
    owner: Seq<char>,
    project: Seq<char>,
    tail: Seq<char>,
) -> Seq<char> {
    head + (host + (sep + (owner + ("/"@ + (project + tail)))))
}

/// What a full URL starts with.
pub open spec fn is_head(text: Seq<char>) -> bool {
    text == "git@"@ || text == "https://"@
}

/// What parts host and owner in a full URL.
pub open spec fn is_separator(text: Seq<char>) -> bool {
    text == "/"@ || text == ":"@
}

/// What may follow the project in a full URL: nothing, `.git`, a slash, or
/// both.
pub open spec fn is_tail(text: Seq<char>) -> bool {
    text == ""@ || text == ".git"@ || text == "/"@ || text == ".git/"@
}

/// `src` is laid out, from its first character to its last, as a full URL
/// with these parts: `git@` or `https://`, the host, `/` or `:`, the owner,
/// a slash, the project, and optionally `.git` and a slash. Owner and
/// project may be empty here.
pub open spec fn full_shape(
    src: Seq<char>,
    host: Seq<char>,
    owner: Seq<char>,
    project: Seq<char>,
) -> bool {
    &&& is_host_text(host)
    &&& CharClass::Name.admits_all(owner)
    &&& CharClass::Name.admits_all(project)
    &&& exists|head: Seq<char>, sep: Seq<char>, tail: Seq<char>|
        is_head(head) && is_separator(sep) && is_tail(tail) && src == #[trigger] full_text(
            head,
            host,
            sep,
            owner,
            project,
            tail,
        )
}

/// `src` is, from its first character to its last, a full URL of this host,
/// owner and project: it is laid out as one, and neither owner nor project
/// is empty.
pub open spec fn full_form(
    src: Seq<char>,
    host: Seq<char>,
    owner: Seq<char>,
    project: Seq<char>,
) -> bool {
    full_shape(src, host, owner, project) && owner.len() > 0 && project.len() > 0
}

/// The text of a short reference: the token and a colon where there is a
/// token, then owner, a slash and project.
pub open spec fn short_text(token: Option<Seq<char>>, owner: Seq<char>, project: Seq<char>) -> Seq<
    char,
> {
    match token {
        Some(t) => t + (":"@ + (owner + ("/"@ + project))),
        None => owner + ("/"@ + project),
    }
}

/// `src` is laid out, from its first character to its last, as a short
/// reference with these parts, led by this token and a colon where there is
/// a token. A token is any run of word characters, the empty one too; owner
/// and project may be empty here.
pub open spec fn short_shape(
    src: Seq<char>,
    token: Option<Seq<char>>,
    owner: Seq<char>,
    project: Seq<char>,
) -> bool {
    &&& CharClass::Name.admits_all(owner)
    &&& CharClass::Name.admits_all(project)
    &&& token matches Some(t) ==> CharClass::Word.admits_all(t)
    &&& src == short_text(token, owner, project)
}

/// `src` is, from its first character to its last, a short reference of this
/// owner and project: it is laid out as one, and neither owner nor project
/// is empty.
pub open spec fn short_form(
    src: Seq<char>,
    token: Option<Seq<char>>,
    owner: Seq<char>,
    project: Seq<char>,
) -> bool {
    short_shape(src, token, owner, project) && owner.len() > 0 && project.len() > 0
}

/// Whether `src` is this full URL.
fn is_full_text(
    src: &String,
    head: &str,
    host: &str,
    sep: &str,
    owner: &str,
    project: &str,
    tail: &str,
) -> (r: bool)
    ensures
        r == (src@ == full_text(head@, host@, sep@, owner@, project@, tail@)),
{
    let mut text = String::from_str(head);
    text.append(host);
    text.append(sep);
    text.append(owner);
    text.append("/");
    text.append(project);
    text.append(tail);
    assert(text@ =~= full_text(head@, host@, sep@, owner@, project@, tail@));
    text == *src
}

/// Whether `src` is a full URL with this head and separator and any tail.
fn is_full_text_with(
    src: &String,
    head: &str,
    host: &str,
    sep: &str,
    owner: &str,
    project: &str,
) -> (r: bool)
    ensures
        r == (exists|tail: Seq<char>|
            is_tail(tail) && src@ == #[trigger] full_text(
                head@,
                host@,
                sep@,
                owner@,
                project@,
                tail,
            )),
{
    is_full_text(src, head, host, sep, owner, project, "") || is_full_text(
        src,
        head,
        host,
        sep,
        owner,
        project,
        ".git",
    ) || is_full_text(src, head, host, sep, owner, project, "/") || is_full_text(
        src,
        head,
        host,
        sep,
        owner,
        project,
        ".git/",
    )
}

/// Tests whether `src` is a full URL of this host, owner and project.
pub fn check_full_form(src: &str, host: &str, owner: &str, project: &str) -> (r: bool)
    ensures
        r == full_form(src@, host@, owner@, project@),
{
    if host.is_empty() || !CharClass::Host.holds_all(host) || !check_name(owner) || !check_name(
        project,
    ) {
        return false;
    }
    let whole = String::from_str(src);
    is_full_text_with(&whole, "git@", host, "/", owner, project) || is_full_text_with(
        &whole,
        "git@",
        host,
        ":",
        owner,
        project,
    ) || is_full_text_with(&whole, "https://", host, "/", owner, project) || is_full_text_with(
        &whole,
        "https://",
        host,
        ":",
        owner,
        project,
    )
}

/// Tests whether `src` is a short reference of this token, owner and
/// project.
pub fn check_short_form(src: &str, token: Option<&str>, owner: &str, project: &str) -> (r: bool)
    ensures
        r == short_form(
            src@,
            match token {
                Some(t) => Some(t@),
                None => None,
            },
            owner@,
            project@,
        ),
{
    if !check_name(owner) || !check_name(project) {
        return false;
    }
    let mut text = String::new();
    match token {
        Some(t) => {
            if !CharClass::Word.holds_all(t) {
                return false;
            }
            text.append(t);
            text.append(":");
        },
        None => {},
    }
    text.append(owner);
    text.append("/");
    text.append(project);
    assert(text@ =~= short_text(
        match token {
            Some(t) => Some(t@),
            None => None,
        },
        owner@,
        project@,
    ));
    text == String::from_str(src)
}

/// The middle of three texts in a row occurs in the whole, right after the
/// first.
pub proof fn lemma_middle_occurs(before: Seq<char>, middle: Seq<char>, after: Seq<char>)
    ensures
        occurs_at(before + (middle + after), middle, before.len() as int),
        contains_seq(before + (middle + after), middle),
{
    let whole = before + (middle + after);
    assert(whole.subrange(before.len() as int, (before.len() + middle.len()) as int) =~= middle);
}

/// Host, owner and project of a full URL occur in it, and so does a slash.
pub proof fn lemma_full_form_parts_occur(
    src: Seq<char>,
    host: Seq<char>,
    owner: Seq<char>,
    project: Seq<char>,
)
    requires
        full_form(src, host, owner, project),
    ensures
        contains_seq(src, host),
        contains_seq(src, owner),
        contains_seq(src, project),
        contains_seq(src, "/"@),
{
    let (head, sep, tail) = choose|head: Seq<char>, sep: Seq<char>, tail: Seq<char>|
        is_head(head) && is_separator(sep) && is_tail(tail) && src == #[trigger] full_text(
            head,
            host,
            sep,
            owner,
            project,
            tail,
        );
    let slash = "/"@;
    lemma_middle_occurs(head, host, sep + (owner + (slash + (project + tail))));
    lemma_middle_occurs(head + host + sep, owner, slash + (project + tail));
    lemma_middle_occurs(head + host + sep + owner, slash, project + tail);
    lemma_middle_occurs(head + host + sep + owner + slash, project, tail);
    assert(src =~= (head + host + sep) + (owner + (slash + (project + tail))));
    assert(src =~= (head + host + sep + owner) + (slash + (project + tail)));
    assert(src =~= (head + host + sep + owner + slash) + (project + tail));
}

/// Owner and project of a short reference occur in it, and so does a slash.
pub proof fn lemma_short_form_parts_occur(
    src: Seq<char>,
    token: Option<Seq<char>>,
    owner: Seq<char>,
    project: Seq<char>,
)
    requires
        short_form(src, token, owner, project),
    ensures
        contains_seq(src, owner),
        contains_seq(src, project),
        contains_seq(src, "/"@),
{
    let slash = "/"@;
    let lead = match token {
        Some(t) => t + ":"@,
        None => Seq::<char>::empty(),
    };
    assert(src =~= lead + (owner + (slash + project)));
    lemma_middle_occurs(lead, owner, slash + project);
    lemma_middle_occurs(lead + owner, slash, project);
    assert(src =~= (lead + owner) + (slash + project));
    lemma_middle_occurs(lead + owner + slash, project, Seq::<char>::empty());
    assert(src =~= (lead + owner + slash) + (project + Seq::<char>::empty()));
}

/// A run of one kind of character that starts a text and stops where the
/// kind stops is the only such run: two ways to split one text into such a
/// run and a rest are the same split.
pub proof fn lemma_run_is_unique(
    class: CharClass,
    run: Seq<char>,
    rest: Seq<char>,
    other_run: Seq<char>,
    other_rest: Seq<char>,
)
    requires
        run + rest == other_run + other_rest,
        class.admits_all(run),
        class.admits_all(other_run),
        rest.len() > 0 ==> !class.admits(rest[0]),
        other_rest.len() > 0 ==> !class.admits(other_rest[0]),
    ensures
        run == other_run,
        rest == other_rest,
{
    let whole = run + rest;
    assert(whole.len() == run.len() + rest.len());
    assert(whole.len() == other_run.len() + other_rest.len());
    if run.len() < other_run.len() {
        assert(whole[run.len() as int] == rest[0]);
        assert(whole[run.len() as int] == other_run[run.len() as int]);
        assert(false);
    }
    if other_run.len() < run.len() {
        assert(whole[other_run.len() as int] == other_rest[0]);
        assert(whole[other_run.len() as int] == run[other_run.len() as int]);
        assert(false);
    }
    assert(run =~= whole.subrange(0, run.len() as int));
    assert(other_run =~= whole.subrange(0, run.len() as int));
    assert(rest =~= whole.subrange(run.len() as int, whole.len() as int));
    assert(other_rest =~= whole.subrange(run.len() as int, whole.len() as int));
}

/// What follows a text in a row of two is fixed by the text and the whole.
pub proof fn lemma_same_lead(lead: Seq<char>, rest: Seq<char>, other_rest: Seq<char>)
    requires
        lead + rest == lead + other_rest,
    ensures
        rest == other_rest,
{
    let whole = lead + rest;
    assert(rest =~= whole.subrange(lead.len() as int, whole.len() as int));
    assert(other_rest =~= whole.subrange(lead.len() as int, whole.len() as int));
}

/// A string is laid out as a full URL in one way only: with one host, one
/// owner and one project.
pub proof fn lemma_full_shape_is_unique(
    src: Seq<char>,
    host: Seq<char>,
    owner: Seq<char>,
    project: Seq<char>,
    other_host: Seq<char>,
    other_owner: Seq<char>,
    other_project: Seq<char>,
)
    requires
        full_shape(src, host, owner, project),
        full_shape(src, other_host, other_owner, other_project),
    ensures
        host == other_host,
        owner == other_owner,
        project == other_project,
{
    reveal_strlit("git@");
    reveal_strlit("https://");
    reveal_strlit("/");
    reveal_strlit(":");
    reveal_strlit("");
    reveal_strlit(".git");
    reveal_strlit(".git/");
    let (h1, s1, t1) = choose|head: Seq<char>, sep: Seq<char>, tail: Seq<char>|
        is_head(head) && is_separator(sep) && is_tail(tail) && src == #[trigger] full_text(
            head,
            host,
            sep,
            owner,
            project,
            tail,
        );
    let (h2, s2, t2) = choose|head: Seq<char>, sep: Seq<char>, tail: Seq<char>|
        is_head(head) && is_separator(sep) && is_tail(tail) && src == #[trigger] full_text(
            head,
            other_host,
            sep,
            other_owner,
            other_project,
            tail,
        );
    let slash = "/"@;
    let after_owner_1 = slash + (project + t1);
    let after_owner_2 = slash + (other_project + t2);
    let after_sep_1 = owner + after_owner_1;
    let after_sep_2 = other_owner + after_owner_2;
    let after_host_1 = s1 + after_sep_1;
    let after_host_2 = s2 + after_sep_2;
    let after_head_1 = host + after_host_1;
    let after_head_2 = other_host + after_host_2;
    assert(src == h1 + after_head_1);
    assert(src == h2 + after_head_2);
    assert(src[0] == h1[0]);
    assert(src[0] == h2[0]);
    assert(h1 == h2);
    lemma_same_lead(h1, after_head_1, after_head_2);
    assert(after_host_1[0] == s1[0]);
    assert(after_host_2[0] == s2[0]);
    lemma_run_is_unique(CharClass::Host, host, after_host_1, other_host, after_host_2);
    assert(s1[0] == s2[0]);
    assert(s1 =~= s2);
    lemma_same_lead(s1, after_sep_1, after_sep_2);
    assert(after_owner_1[0] == '/');
    assert(after_owner_2[0] == '/');
    lemma_run_is_unique(CharClass::Name, owner, after_owner_1, other_owner, after_owner_2);
    lemma_same_lead(slash, project + t1, other_project + t2);
    lemma_run_is_unique(CharClass::Name, project, t1, other_project, t2);
}

/// A string is laid out as a short reference in one way only: with or
/// without a token, and with one token, one owner and one project.
pub proof fn lemma_short_shape_is_unique(
    src: Seq<char>,
    token: Option<Seq<char>>,
    owner: Seq<char>,
    project: Seq<char>,
    other_token: Option<Seq<char>>,
    other_owner: Seq<char>,
    other_project: Seq<char>,
)
    requires
        short_shape(src, token, owner, project),
        short_shape(src, other_token, other_owner, other_project),
    ensures
        token == other_token,
        owner == other_owner,
        project == other_project,
{
    reveal_strlit("/");
    reveal_strlit(":");
    let slash = "/"@;
    let colon = ":"@;
    let named_1 = owner + (slash + project);
    let named_2 = other_owner + (slash + other_project);
    assert((slash + project)[0] == '/');
    assert((slash + other_project)[0] == '/');
    match (token, other_token) {
        (Some(t1), Some(t2)) => {
            assert((colon + named_1)[0] == ':');
            assert((colon + named_2)[0] == ':');
            lemma_run_is_unique(CharClass::Word, t1, colon + named_1, t2, colon + named_2);
            lemma_same_lead(colon, named_1, named_2);
        },
        (None, None) => {},
        (Some(t), None) => {
            lemma_token_needs_colon(src, t, owner, project, other_owner, other_project);
        },
        (None, Some(t)) => {
            lemma_token_needs_colon(src, t, other_owner, other_project, owner, project);
        },
    }
    lemma_run_is_unique(
        CharClass::Name,
        owner,
        slash + project,
        other_owner,
        slash + other_project,
    );
    lemma_same_lead(slash, project, other_project);
}

/// No string is laid out as a short reference both with a token and without
/// one.
proof fn lemma_token_needs_colon(
    src: Seq<char>,
    token: Seq<char>,
    owner: Seq<char>,
    project: Seq<char>,
    bare_owner: Seq<char>,
    bare_project: Seq<char>,
)
    requires
        short_shape(src, Some(token), owner, project),
    ensures
        !short_shape(src, None, bare_owner, bare_project),
{
    reveal_strlit("/");
    reveal_strlit(":");
    if short_shape(src, None, bare_owner, bare_project) {
        let at = token.len() as int;
        let with_token = token + (":"@ + (owner + ("/"@ + project)));
        let bare = bare_owner + ("/"@ + bare_project);
        assert(with_token[at] == ':');
        if at < bare_owner.len() {
            assert(bare[at] == bare_owner[at]);
        } else if at == bare_owner.len() {
            assert(bare[at] == '/');
        } else {
            let cut = bare_owner.len() as int;
            assert(bare[cut] == '/');
            assert(with_token[cut] == token[cut]);
        }
    }
}

/// No string is laid out both as a full URL and as a short reference.
pub proof fn lemma_shapes_exclude_each_other(
    src: Seq<char>,
    host: Seq<char>,
    owner: Seq<char>,
    project: Seq<char>,
    token: Option<Seq<char>>,
    short_owner: Seq<char>,
    short_project: Seq<char>,
)
    requires
        full_shape(src, host, owner, project),
    ensures
        !short_shape(src, token, short_owner, short_project),
{
    if short_shape(src, token, short_owner, short_project) {
        reveal_strlit("git@");
        reveal_strlit("https://");
        reveal_strlit("/");
        reveal_strlit(":");
        let (head, sep, tail) = choose|head: Seq<char>, sep: Seq<char>, tail: Seq<char>|
            is_head(head) && is_separator(sep) && is_tail(tail) && src == #[trigger] full_text(
                head,
                host,
                sep,
                owner,
                project,
                tail,
            );
        let after_head = host + (sep + (owner + ("/"@ + (project + tail))));
        assert(src == head + after_head);
        // Either head starts with word characters, three or five of them,
        // and goes on with a character that is none.
        let word_len: int = if head == "git@"@ {
            3
        } else {
            5
        };
        assert forall|i: int| 0 <= i < word_len implies is_word_char(#[trigger] src[i]) by {
            assert(src[i] == head[i]);
        }
        assert(src[word_len] == head[word_len]);
        let named = short_owner + ("/"@ + short_project);
        match token {
            None => {
                // The owner would end where the head's word characters end,
                // at a character that is no slash.
                let cut = short_owner.len() as int;
                assert(named[cut] == '/');
                if cut < word_len {
                    assert(is_word_char(src[cut]));
                } else if cut > word_len {
                    assert(named[word_len] == short_owner[word_len]);
                }
            },
            Some(t) => {
                let with_token = t + (":"@ + named);
                let cut = t.len() as int;
                assert(with_token[cut] == ':');
                if cut < word_len {
                    assert(is_word_char(src[cut]));
                } else if cut > word_len {
                    assert(with_token[word_len] == t[word_len]);
                } else {
                    // The token is `https`: two slashes follow its colon in
                    // the URL, and at most one in a short reference.
                    assert(head == "https://"@);
                    assert(src[6] == head[6]);
                    assert(src[7] == head[7]);
                    assert(src.len() >= 9);
                    assert(with_token[6] == named[0]);
                    assert(with_token[7] == named[1]);
                    if short_owner.len() > 0 {
                        assert(named[0] == short_owner[0]);
                    } else {
                        assert(named[1] == short_project[0]);
                    }
                }
            },
        }
    }
}

/// A string that is laid out as a reference with an empty owner or an empty
/// project is no reference of either form, of whatever parts.
pub proof fn lemma_empty_part_fits_no_form(
    src: Seq<char>,
    host: Seq<char>,
    token: Option<Seq<char>>,
    owner: Seq<char>,
    project: Seq<char>,
)
    requires
        full_shape(src, host, owner, project) || short_shape(src, token, owner, project),
        owner.len() == 0 || project.len() == 0,
    ensures
        forall|h: Seq<char>, o: Seq<char>, p: Seq<char>| !#[trigger] full_form(src, h, o, p),
        forall|t: Option<Seq<char>>, o: Seq<char>, p: Seq<char>|
            !#[trigger] short_form(src, t, o, p),
{
    assert forall|h: Seq<char>, o: Seq<char>, p: Seq<char>| !#[trigger] full_form(
        src,
        h,
        o,
        p,
    ) by {
        if full_form(src, h, o, p) {
            if full_shape(src, host, owner, project) {
                lemma_full_shape_is_unique(src, host, owner, project, h, o, p);
            } else {
                lemma_shapes_exclude_each_other(src, h, o, p, token, owner, project);
            }
        }
    }
    assert forall|t: Option<Seq<char>>, o: Seq<char>, p: Seq<char>| !#[trigger] short_form(
        src,
        t,
        o,
        p,
    ) by {
        if short_form(src, t, o, p) {
            if full_shape(src, host, owner, project) {
                lemma_shapes_exclude_each_other(src, host, owner, project, t, o, p);
            } else {
                lemma_short_shape_is_unique(src, token, owner, project, t, o, p);
            }
        }
    }
}

} // verus!
