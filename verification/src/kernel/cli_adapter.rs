//! Recipes for driving agent CLIs non-interactively: the binary, the full
//! command with its flags, the extra environment, and output clean-up.

use vstd::prelude::*;

use super::cli_runner::{lemma_filter_by_push, spec_filter_by};

use super::text::{
    chars_of, chars_eq, first_word_bounds, lemma_trim_start_shape, range_has_whitespace, spec_has_whitespace,
    spec_is_whitespace, spec_trim, spec_trim_end, spec_trim_start, spec_words, trim, trim_range,
};

verus! {

broadcast use vstd::string::group_string_axioms;

/// Token counts reported by a backend (API backends only; CLIs report none).
#[derive(Debug, Clone, Copy, Default, PartialEq, Eq)]
pub struct TokenUsage {
    pub input: u64,
    pub output: u64,
}

/// How to drive an external agent CLI without interaction.
pub trait CliAdapter {
    /// The short stable identifier.
    spec fn spec_id(&self) -> Seq<char>;

    /// The display name.
    spec fn spec_display_name(&self) -> Seq<char>;

    /// The binary looked up on the `PATH`.
    spec fn spec_binary(&self) -> Seq<char>;

    /// The full shell command (binary, subcommand and flags).
    spec fn spec_command(&self) -> Seq<char>;

    /// Extra environment variables, as name/value pairs.
    spec fn spec_env(&self) -> Seq<(Seq<char>, Seq<char>)>;

    fn id(&self) -> (r: &'static str)
        ensures
            r@ == self.spec_id(),
    ;

    fn display_name(&self) -> (r: &'static str)
        ensures
            r@ == self.spec_display_name(),
    ;

    fn binary(&self) -> (r: &'static str)
        ensures
            r@ == self.spec_binary(),
    ;

    fn command(&self) -> (r: &'static str)
        ensures
            r@ == self.spec_command(),
    ;

    /// Extra environment variables needed in non-interactive mode.
    fn env(&self) -> (r: Vec<(&'static str, &'static str)>)
        ensures
            r@.map_values(|p: (&'static str, &'static str)| (p.0@, p.1@)) == self.spec_env(),
    ;

    /// Normalizes the CLI's standard output before the agent's parser reads it.
    fn clean_output(&self, stdout: &str) -> (r: String)
        ensures
            r@ == spec_trim(stdout@),
    {
        trim(stdout)
    }
}

/// Google Gemini CLI: clean standard output; needs the workspace trusted.
#[derive(Debug, Clone, Copy, PartialEq, Eq)]
pub struct Gemini;

/// OpenAI Codex through `exec`; `--skip-git-repo-check` lets it run outside git.
#[derive(Debug, Clone, Copy, PartialEq, Eq)]
pub struct Codex;

impl CliAdapter for Gemini {
    open spec fn spec_id(&self) -> Seq<char> {
        "gemini"@
    }

    open spec fn spec_display_name(&self) -> Seq<char> {
        "Google Gemini"@
    }

    open spec fn spec_binary(&self) -> Seq<char> {
        "gemini"@
    }

    open spec fn spec_command(&self) -> Seq<char> {
        "gemini"@
    }

    open spec fn spec_env(&self) -> Seq<(Seq<char>, Seq<char>)> {
        seq![("GEMINI_CLI_TRUST_WORKSPACE"@, "true"@)]
    }

    fn id(&self) -> (r: &'static str) {
        "gemini"
    }

    fn display_name(&self) -> (r: &'static str) {
        "Google Gemini"
    }

    fn binary(&self) -> (r: &'static str) {
        "gemini"
    }

    fn command(&self) -> (r: &'static str) {
        "gemini"
    }

    fn env(&self) -> (r: Vec<(&'static str, &'static str)>) {
        let mut v = Vec::new();
        v.push(("GEMINI_CLI_TRUST_WORKSPACE", "true"));
        assert(v@.map_values(|p: (&'static str, &'static str)| (p.0@, p.1@)) =~= self.spec_env());
        v
    }
}

impl CliAdapter for Codex {
    open spec fn spec_id(&self) -> Seq<char> {
        "codex"@
    }

    open spec fn spec_display_name(&self) -> Seq<char> {
        "OpenAI Codex"@
    }

    open spec fn spec_binary(&self) -> Seq<char> {
        "codex"@
    }

    open spec fn spec_command(&self) -> Seq<char> {
        "codex exec --skip-git-repo-check"@
    }

    open spec fn spec_env(&self) -> Seq<(Seq<char>, Seq<char>)> {
        Seq::empty()
    }

    fn id(&self) -> (r: &'static str) {
        "codex"
    }

    fn display_name(&self) -> (r: &'static str) {
        "OpenAI Codex"
    }

    fn binary(&self) -> (r: &'static str) {
        "codex"
    }

    fn command(&self) -> (r: &'static str) {
        "codex exec --skip-git-repo-check"
    }

    fn env(&self) -> (r: Vec<(&'static str, &'static str)>) {
        let v = Vec::new();
        assert(v@.map_values(|p: (&'static str, &'static str)| (p.0@, p.1@)) =~= self.spec_env());
        v
    }
}

/// One of the built-in adapters.
#[derive(Debug, Clone, Copy, PartialEq, Eq)]
pub enum BuiltinAdapter {
    Gemini(Gemini),
    Codex(Codex),
}

impl CliAdapter for BuiltinAdapter {
    open spec fn spec_id(&self) -> Seq<char> {
        match self {
            BuiltinAdapter::Gemini(a) => a.spec_id(),
            BuiltinAdapter::Codex(a) => a.spec_id(),
        }
    }

    open spec fn spec_display_name(&self) -> Seq<char> {
        match self {
            BuiltinAdapter::Gemini(a) => a.spec_display_name(),
            BuiltinAdapter::Codex(a) => a.spec_display_name(),
        }
    }

    open spec fn spec_binary(&self) -> Seq<char> {
        match self {
            BuiltinAdapter::Gemini(a) => a.spec_binary(),
            BuiltinAdapter::Codex(a) => a.spec_binary(),
        }
    }

    open spec fn spec_command(&self) -> Seq<char> {
        match self {
            BuiltinAdapter::Gemini(a) => a.spec_command(),
            BuiltinAdapter::Codex(a) => a.spec_command(),
        }
    }

    open spec fn spec_env(&self) -> Seq<(Seq<char>, Seq<char>)> {
        match self {
            BuiltinAdapter::Gemini(a) => a.spec_env(),
            BuiltinAdapter::Codex(a) => a.spec_env(),
        }
    }

    fn id(&self) -> (r: &'static str) {
        match self {
            BuiltinAdapter::Gemini(a) => a.id(),
            BuiltinAdapter::Codex(a) => a.id(),
        }
    }

    fn display_name(&self) -> (r: &'static str) {
        match self {
            BuiltinAdapter::Gemini(a) => a.display_name(),
            BuiltinAdapter::Codex(a) => a.display_name(),
        }
    }

    fn binary(&self) -> (r: &'static str) {
        match self {
            BuiltinAdapter::Gemini(a) => a.binary(),
            BuiltinAdapter::Codex(a) => a.binary(),
        }
    }

    fn command(&self) -> (r: &'static str) {
        match self {
            BuiltinAdapter::Gemini(a) => a.command(),
            BuiltinAdapter::Codex(a) => a.command(),
        }
    }

    fn env(&self) -> (r: Vec<(&'static str, &'static str)>) {
        match self {
            BuiltinAdapter::Gemini(a) => a.env(),
            BuiltinAdapter::Codex(a) => a.env(),
        }
    }
}

/// The built-in adapters, in display order.
pub open spec fn spec_builtin_adapters() -> Seq<BuiltinAdapter> {
    seq![
        BuiltinAdapter::Gemini(Gemini),
        BuiltinAdapter::Codex(Codex),
    ]
}

/// All built-in adapters, in display order (Gemini, then Codex).
pub fn builtin_adapters() -> (r: Vec<BuiltinAdapter>)
    ensures
        r@ == spec_builtin_adapters(),
{
    let mut v = Vec::new();
    v.push(BuiltinAdapter::Gemini(Gemini));
    v.push(BuiltinAdapter::Codex(Codex));
    assert(v@ =~= spec_builtin_adapters());
    v
}

/// The built-in adapters whose binary is installed, in order;
/// `installed[i]` tells whether the `i`-th adapter's binary was found on
/// the `PATH`.
pub fn available_adapters(installed: &[bool]) -> (r: Vec<BuiltinAdapter>)
    requires
        installed@.len() == spec_builtin_adapters().len(),
    ensures
        r@ == spec_filter_by(spec_builtin_adapters(), installed@),
{
    let all = builtin_adapters();
    let mut r: Vec<BuiltinAdapter> = Vec::new();
    let mut i: usize = 0;
    let ghost ads = spec_builtin_adapters();
    while i < all.len()
        invariant
            i <= all@.len(),
            all@ == ads,
            ads == spec_builtin_adapters(),
            installed@.len() == ads.len(),
            r@ == spec_filter_by(ads.take(i as int), installed@.take(i as int)),
        decreases all@.len() - i,
    {
        if installed[i] {
            r.push(all[i]);
        }
        proof {
            assert(ads.take(i + 1) =~= ads.take(i as int).push(ads[i as int]));
            assert(installed@.take(i + 1) =~= installed@.take(i as int).push(installed@[i as int]));
            lemma_filter_by_push(ads.take(i as int), installed@.take(i as int), ads[i as int], installed@[i as int]);
        }
        i = i + 1;
    }
    assert(ads.take(i as int) =~= ads);
    assert(installed@.take(i as int) =~= installed@);
    r
}

/// The first adapter of `adapters` whose binary is `bin`.
pub open spec fn spec_find_by_binary(adapters: Seq<BuiltinAdapter>, bin: Seq<char>) -> Option<BuiltinAdapter>
    decreases adapters.len(),
{
    if adapters.len() == 0 {
        None
    } else if adapters[0].spec_binary() == bin {
        Some(adapters[0])
    } else {
        spec_find_by_binary(adapters.drop_first(), bin)
    }
}

/// The first adapter of `adapters` whose id or binary is `name`.
pub open spec fn spec_find_by_name(adapters: Seq<BuiltinAdapter>, name: Seq<char>) -> Option<BuiltinAdapter>
    decreases adapters.len(),
{
    if adapters.len() == 0 {
        None
    } else if adapters[0].spec_id() == name || adapters[0].spec_binary() == name {
        Some(adapters[0])
    } else {
        spec_find_by_name(adapters.drop_first(), name)
    }
}

/// The adapter for a command: the one whose binary is the command's first word.
pub open spec fn spec_adapter_for_command(cmd: Seq<char>) -> Option<BuiltinAdapter> {
    if spec_words(cmd).len() == 0 {
        None
    } else {
        spec_find_by_binary(spec_builtin_adapters(), spec_words(cmd)[0])
    }
}

/// What `resolve_command` returns: a lone word naming a built-in adapter by
/// id or binary (surrounding blanks aside) becomes that adapter's full
/// command; anything else comes back intact.
pub open spec fn spec_resolve_command(input: Seq<char>) -> Seq<char> {
    let t = spec_trim(input);
    if !spec_has_whitespace(t) && spec_find_by_name(spec_builtin_adapters(), t) is Some {
        spec_find_by_name(spec_builtin_adapters(), t)->0.spec_command()
    } else {
        input
    }
}

/// Finds the adapter whose binary equals `bin` (given as characters).
fn find_by_binary(adapters: &Vec<BuiltinAdapter>, bin: &[char]) -> (r: Option<BuiltinAdapter>)
    ensures
        r == spec_find_by_binary(adapters@, bin@),
{
    let mut i: usize = 0;
    assert(adapters@.skip(0) =~= adapters@);
    while i < adapters.len()
        invariant
            i <= adapters@.len(),
            spec_find_by_binary(adapters@, bin@) == spec_find_by_binary(adapters@.skip(i as int), bin@),
        decreases adapters@.len() - i,
    {
        let a = adapters[i];
        let b = chars_of(a.binary());
        assert(adapters@.skip(i as int)[0] == a);
        assert(adapters@.skip(i as int).drop_first() =~= adapters@.skip(i + 1));
        if chars_eq(&b, bin) {
            return Some(a);
        }
        i = i + 1;
    }
    None
}

/// Finds the adapter whose id or binary equals `name` (given as characters).
fn find_by_name(adapters: &Vec<BuiltinAdapter>, name: &[char]) -> (r: Option<BuiltinAdapter>)
    ensures
        r == spec_find_by_name(adapters@, name@),
{
    let mut i: usize = 0;
    assert(adapters@.skip(0) =~= adapters@);
    while i < adapters.len()
        invariant
            i <= adapters@.len(),
            spec_find_by_name(adapters@, name@) == spec_find_by_name(adapters@.skip(i as int), name@),
        decreases adapters@.len() - i,
    {
        let a = adapters[i];
        let id = chars_of(a.id());
        let b = chars_of(a.binary());
        assert(adapters@.skip(i as int)[0] == a);
        assert(adapters@.skip(i as int).drop_first() =~= adapters@.skip(i + 1));
        if chars_eq(&id, name) || chars_eq(&b, name) {
            return Some(a);
        }
        i = i + 1;
    }
    None
}

/// The adapter whose binary is the first word of `cmd`, so that its
/// environment and output clean-up apply to hand-typed commands too.
pub fn adapter_for_command(cmd: &str) -> (r: Option<BuiltinAdapter>)
    ensures
        r == spec_adapter_for_command(cmd@),
{
    let cs = chars_of(cmd);
    match first_word_bounds(&cs) {
        None => None,
        Some((a, b)) => {
            let word = super::text::chars_range(&cs, a, b);
            let adapters = builtin_adapters();
            find_by_binary(&adapters, &word)
        },
    }
}

/// Maps a user's input to a command: a single word that is the id or the
/// binary of a built-in adapter (say `codex`) becomes its full command
/// (`codex exec --skip-git-repo-check`); other input, already carrying
/// flags or naming an unknown CLI, is returned intact.
pub fn resolve_command(input: &str) -> (r: String)
    ensures
        r@ == spec_resolve_command(input@),
{
    let cs = chars_of(input);
    let n = cs.len();
    let (a, b) = trim_range(&cs, 0, n);
    assert(cs@.subrange(0, n as int) =~= cs@);
    let t = super::text::chars_range(&cs, a, b);
    if !range_has_whitespace(&cs, a, b) {
        let adapters = builtin_adapters();
        if let Some(ad) = find_by_name(&adapters, &t) {
            return String::from_str(ad.command());
        }
    }
    String::from_str(input)
}

/// Dropping trailing whitespace keeps a prefix, ends on a non-blank, and
/// keeps a non-blank first character.
proof fn lemma_trim_end_shape(u: Seq<char>)
    ensures
        spec_trim_end(u).len() <= u.len(),
        spec_trim_end(u) == u.take(spec_trim_end(u).len() as int),
        spec_trim_end(u).len() > 0 ==> !spec_is_whitespace(spec_trim_end(u).last()),
        u.len() > 0 && !spec_is_whitespace(u[0]) ==> spec_trim_end(u).len() > 0,
    decreases u.len(),
{
    if u.len() > 0 && spec_is_whitespace(u.last()) {
        let d = u.drop_last();
        lemma_trim_end_shape(d);
        assert(d.take(spec_trim_end(d).len() as int) =~= u.take(spec_trim_end(d).len() as int));
        if u.len() > 1 {
            assert(d[0] == u[0]);
        }
    } else {
        assert(u.take(u.len() as int) =~= u);
    }
}

/// Trimming trimmed text changes nothing.
proof fn lemma_trim_idempotent(s: Seq<char>)
    ensures
        spec_trim(spec_trim(s)) == spec_trim(s),
{
    let a = spec_trim_start(s);
    lemma_trim_start_shape(s);
    let t = spec_trim_end(a);
    lemma_trim_end_shape(a);
    if t.len() > 0 {
        assert(t[0] == a[0]);
    }
    assert(spec_trim_start(t) == t);
    assert(spec_trim_end(t) == t);
}

/// Resolving a resolved command changes nothing: a full adapter command,
/// like any other resolved input, resolves to itself.
pub proof fn law_resolve_command_is_idempotent(input: Seq<char>)
    ensures
        spec_resolve_command(spec_resolve_command(input)) == spec_resolve_command(input),
{
    let t = spec_trim(input);
    lemma_trim_idempotent(input);
    if !spec_has_whitespace(t) && spec_find_by_name(spec_builtin_adapters(), t) is Some {
        let r = spec_find_by_name(spec_builtin_adapters(), t)->0.spec_command();
        reveal_strlit("gemini");
        reveal_strlit("codex");
        reveal_strlit("codex exec --skip-git-repo-check");
        let ads = spec_builtin_adapters();
        assert(ads[0] == BuiltinAdapter::Gemini(Gemini));
        assert(ads.drop_first()[0] == BuiltinAdapter::Codex(Codex));
        if r == "gemini"@ {
            assert(!spec_is_whitespace(r[0]) && !spec_is_whitespace(r.last()));
            assert(spec_trim_start(r) == r);
            lemma_trim_end_shape(r);
            assert(spec_trim_end(r) == r);
            assert(!spec_has_whitespace(r)) by {
                assert forall|i: int| 0 <= i < r.len() implies !spec_is_whitespace(#[trigger] r[i]) by {}
            }
            assert(spec_find_by_name(ads, r) == Some(BuiltinAdapter::Gemini(Gemini)));
        } else {
            assert(r == "codex exec --skip-git-repo-check"@);
            assert(!spec_is_whitespace(r[0]) && !spec_is_whitespace(r.last()));
            assert(spec_trim_start(r) == r);
            assert(spec_trim_end(r) == r);
            assert(spec_is_whitespace(r[5]));
            assert(spec_has_whitespace(r));
        }
    }
}

} // verus!
