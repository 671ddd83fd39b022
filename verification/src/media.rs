//! Media classification of module files and the decision it drives: which
//! kind of module a file is and whether its text must be transpiled first.

use vstd::prelude::*;

verus! {

/// What a module file is, judged by its file name alone.
#[derive(Clone, Copy, Debug, PartialEq, Eq, Structural)]
pub enum MediaType {
    JavaScript,
    Mjs,
    Cjs,
    Jsx,
    TypeScript,
    Mts,
    Cts,
    Dts,
    Dmts,
    Dcts,
    Tsx,
    Json,
    Unknown,
}

/// How the engine is to take a module's text.
#[derive(Clone, Copy, Debug, PartialEq, Eq, Structural)]
pub enum ModuleKind {
    JavaScript,
    Json,
}

/// What the loader does with a file of a given media type.
#[derive(Clone, Copy, Debug, PartialEq, Eq, Structural)]
pub struct LoadDecision {
    pub kind: ModuleKind,
    pub needs_transpile: bool,
}

/// Raised for a file whose media type is `Unknown`: no decision exists for it.
#[derive(Clone, Copy, Debug, PartialEq, Eq, Structural)]
pub struct ClassificationError;

/// The decision table. Plain script is handed on as it is, JSX and every
/// typed dialect is transpiled to script, JSON is a data module, and
/// `Unknown` has no entry.
pub open spec fn decision_of(media_type: MediaType) -> Option<LoadDecision> {
    match media_type {
        MediaType::JavaScript | MediaType::Mjs | MediaType::Cjs => Some(
            LoadDecision { kind: ModuleKind::JavaScript, needs_transpile: false },
        ),
        MediaType::Jsx => Some(LoadDecision { kind: ModuleKind::JavaScript, needs_transpile: true }),
        MediaType::TypeScript
        | MediaType::Mts
        | MediaType::Cts
        | MediaType::Dts
        | MediaType::Dmts
        | MediaType::Dcts
        | MediaType::Tsx => Some(
            LoadDecision { kind: ModuleKind::JavaScript, needs_transpile: true },
        ),
        MediaType::Json => Some(LoadDecision { kind: ModuleKind::Json, needs_transpile: false }),
        MediaType::Unknown => None,
    }
}

/// The media type that `deno_ast::MediaType::from_path` gives the file at
/// `path`, where it is one of the twelve known types of this crate, and
/// `None` where it is any other. That function goes by the extension of the
/// path's last component and takes it in either case. How a path falls into
/// components is the build target's; `media_type_of` asks only about paths
/// whose extension holds no separator.
pub uninterp spec fn media_type_of_path(path: Seq<char>) -> Option<MediaType>;

/// Calls `deno_ast::MediaType::from_path`. The contract only names the
/// result: it depends on nothing but the path's text, and the file is not
/// opened. A type that this crate has no variant for comes back as `None`.
#[verifier::external_body]
fn media_type_from_path(path: &str) -> (media_type: Option<MediaType>)
    ensures
        media_type == media_type_of_path(path@),
{
    match deno_ast::MediaType::from_path(std::path::Path::new(path)) {
        deno_ast::MediaType::JavaScript => Some(MediaType::JavaScript),
        deno_ast::MediaType::Mjs => Some(MediaType::Mjs),
        deno_ast::MediaType::Cjs => Some(MediaType::Cjs),
        deno_ast::MediaType::Jsx => Some(MediaType::Jsx),
        deno_ast::MediaType::TypeScript => Some(MediaType::TypeScript),
        deno_ast::MediaType::Mts => Some(MediaType::Mts),
        deno_ast::MediaType::Cts => Some(MediaType::Cts),
        deno_ast::MediaType::Dts => Some(MediaType::Dts),
        deno_ast::MediaType::Dmts => Some(MediaType::Dmts),
        deno_ast::MediaType::Dcts => Some(MediaType::Dcts),
        deno_ast::MediaType::Tsx => Some(MediaType::Tsx),
        deno_ast::MediaType::Json => Some(MediaType::Json),
        _ => None,
    }
}

/// Where the last `.` of `path` stands, or -1 where it holds none.
pub open spec fn last_dot(path: Seq<char>) -> int
    decreases path.len(),
{
    if path.len() == 0 {
        -1
    } else if path.last() == '.' {
        path.len() - 1
    } else {
        last_dot(path.drop_last())
    }
}

/// What follows the last `.` of `path`: the whole of it where it holds none.
pub open spec fn extension_of(path: Seq<char>) -> Seq<char> {
    path.skip(last_dot(path) + 1)
}

/// Whether `path` ends in a `.` and an extension written in the small
/// letters `a` to `z` alone, at least one of them. Every known extension is
/// written so. A path that ends otherwise (in a capital letter, in a
/// separator, in a `.`) has no extension that is known.
pub open spec fn has_plain_extension(path: Seq<char>) -> bool {
    &&& last_dot(path) >= 0
    &&& extension_of(path).len() > 0
    &&& forall|k: int|
        0 <= k < extension_of(path).len() ==> 'a' <= #[trigger] extension_of(path)[k] <= 'z'
}

/// The media type of the file at `path`, where `None` stands for a path that
/// cannot be written as text. Only a path with a plain extension has a
/// known type, so extensions are told apart with their case, and the
/// extension is that of the path's last component. Whatever is none of the
/// known types is `Unknown`.
pub open spec fn media_type_of(path: Option<Seq<char>>) -> MediaType {
    match path {
        Some(text) => if has_plain_extension(text) {
            match media_type_of_path(text) {
                Some(known) => known,
                None => MediaType::Unknown,
            }
        } else {
            MediaType::Unknown
        },
        None => MediaType::Unknown,
    }
}

/// A path as plain text.
pub open spec fn path_text(path: Option<&str>) -> Option<Seq<char>> {
    match path {
        Some(text) => Some(text@),
        None => None,
    }
}

/// The last `.` is a `.`, and none follows it.
proof fn last_dot_is_last(path: Seq<char>)
    ensures
        -1 <= last_dot(path) < path.len(),
        last_dot(path) >= 0 ==> path[last_dot(path)] == '.',
        forall|k: int| last_dot(path) < k < path.len() ==> path[k] != '.',
    decreases path.len(),
{
    if path.len() > 0 && path.last() != '.' {
        let front = path.drop_last();
        last_dot_is_last(front);
        assert forall|k: int| last_dot(path) < k < path.len() implies path[k] != '.' by {
            if k < front.len() {
                assert(front[k] == path[k]);
            }
        }
    }
}

/// Whether `path` has a plain extension.
fn plain_extension(path: &str) -> (plain: bool)
    ensures
        plain == has_plain_extension(path@),
{
    let n = path.unicode_len();
    let mut i: usize = n;
    let mut stopped = false;
    while i > 0 && !stopped
        invariant
            n == path@.len(),
            i <= n,
            stopped ==> i > 0 && !('a' <= path@[i - 1] <= 'z'),
            forall|k: int| i <= k < n ==> 'a' <= #[trigger] path@[k] <= 'z',
        decreases i + if stopped { 0int } else { 1int },
    {
        let c = path.get_char(i - 1);
        if 'a' <= c && c <= 'z' {
            i -= 1;
        } else {
            stopped = true;
        }
    }
    proof {
        last_dot_is_last(path@);
    }
    let ghost dot = last_dot(path@);
    let ghost ext = extension_of(path@);
    if i == 0 || i == n {
        proof {
            if i == 0 {
                assert(dot == -1) by {
                    if dot >= 0 {
                        assert('a' <= path@[dot] <= 'z');
                    }
                }
            } else if path@[n - 1] != '.' {
                assert(dot < n - 1);
                assert(ext[n - 1 - (dot + 1)] == path@[n - 1]);
            }
        }
        return false;
    }
    let c = path.get_char(i - 1);
    proof {
        assert(dot <= i - 1) by {
            if dot >= i {
                assert('a' <= path@[dot] <= 'z');
            }
        }
        if c == '.' {
            assert(dot == i - 1);
            assert forall|k: int| 0 <= k < ext.len() implies 'a' <= #[trigger] ext[k] <= 'z' by {
                assert(ext[k] == path@[i + k]);
            }
        } else {
            assert(dot < i - 1);
            assert(ext[i - 1 - (dot + 1)] == path@[i - 1]);
        }
    }
    c == '.'
}

/// Classifies a module file by its path; `None` is a path that cannot be
/// written as text. No file is read.
pub fn classify(path: Option<&str>) -> (media_type: MediaType)
    ensures
        media_type == media_type_of(path_text(path)),
{
    match path {
        Some(text) => if plain_extension(text) {
            match media_type_from_path(text) {
                Some(known) => known,
                None => MediaType::Unknown,
            }
        } else {
            MediaType::Unknown
        },
        None => MediaType::Unknown,
    }
}

/// Looks `media_type` up in the decision table. Every type but `Unknown`
/// has a decision; `Unknown` is refused, never given a default.
pub fn decide(media_type: MediaType) -> (decision: Result<LoadDecision, ClassificationError>)
    ensures
        decision_of(media_type) matches Some(d) ==> decision == Ok::<
            LoadDecision,
            ClassificationError,
        >(d),
        decision_of(media_type) is None ==> decision is Err,
        decision is Err <==> media_type == MediaType::Unknown,
{
    match media_type {
        MediaType::JavaScript | MediaType::Mjs | MediaType::Cjs => Ok(
            LoadDecision { kind: ModuleKind::JavaScript, needs_transpile: false },
        ),
        MediaType::Jsx => Ok(LoadDecision { kind: ModuleKind::JavaScript, needs_transpile: true }),
        MediaType::TypeScript
        | MediaType::Mts
        | MediaType::Cts
        | MediaType::Dts
        | MediaType::Dmts
        | MediaType::Dcts
        | MediaType::Tsx => Ok(LoadDecision { kind: ModuleKind::JavaScript, needs_transpile: true }),
        MediaType::Json => Ok(LoadDecision { kind: ModuleKind::Json, needs_transpile: false }),
        MediaType::Unknown => Err(ClassificationError),
    }
}

/// The table is total but for its one fatal entry, and a module is
/// transpiled exactly when it is script in a dialect the engine cannot run.
pub proof fn decision_table_is_total(media_type: MediaType)
    ensures
        decision_of(media_type) is None <==> media_type == MediaType::Unknown,
        decision_of(media_type) matches Some(d) ==> (d.kind == ModuleKind::Json <==> media_type
            == MediaType::Json),
        decision_of(media_type) matches Some(d) ==> (d.needs_transpile ==> d.kind
            == ModuleKind::JavaScript),
{
}

} // verus!
