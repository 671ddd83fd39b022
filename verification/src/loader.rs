//! The module loader: from a module's identifier, its local path and what
//! reading the file gave, to the source record that the engine takes.

use vstd::prelude::*;
use deno_ast::MediaType as TranspilerMediaType;
use crate::media::{classify, decide, decision_of, media_type_of, path_text, MediaType, ModuleKind};

verus! {

/// One loaded module: its kind, the script text to run, and the canonical
/// identifier it was loaded under.
#[derive(Debug, PartialEq, Eq)]
pub struct ModuleSource {
    pub kind: ModuleKind,
    pub code: String,
    pub specifier: String,
}

/// A `ModuleSource` as plain text.
pub ghost struct ModuleText {
    pub kind: ModuleKind,
    pub code: Seq<char>,
    pub specifier: Seq<char>,
}

impl View for ModuleSource {
    type V = ModuleText;

    open spec fn view(&self) -> ModuleText {
        ModuleText { kind: self.kind, code: self.code@, specifier: self.specifier@ }
    }
}

/// Why a load failed. Each failure ends that module's load; nothing is
/// retried.
#[derive(Debug, PartialEq, Eq)]
pub enum LoadError {
    /// The file's media type is unknown.
    Classification,
    /// The file could not be read as text; holds the reader's message.
    Io(String),
    /// The text could not be transpiled; holds the transpiler's message.
    Transpile(String),
}

/// A `LoadError` as plain text.
pub ghost enum LoadFailure {
    Classification,
    Io(Seq<char>),
    Transpile(Seq<char>),
}

impl View for LoadError {
    type V = LoadFailure;

    open spec fn view(&self) -> LoadFailure {
        match self {
            LoadError::Classification => LoadFailure::Classification,
            LoadError::Io(message) => LoadFailure::Io(message@),
            LoadError::Transpile(message) => LoadFailure::Transpile(message@),
        }
    }
}

/// A text-or-message result as plain text.
pub open spec fn text_of(outcome: Result<String, String>) -> Result<Seq<char>, Seq<char>> {
    match outcome {
        Ok(text) => Ok(text@),
        Err(message) => Err(message@),
    }
}

/// A load's result as plain text.
pub open spec fn outcome_of(loaded: Result<ModuleSource, LoadError>) -> Result<
    ModuleText,
    LoadFailure,
> {
    match loaded {
        Ok(module) => Ok(module@),
        Err(error) => Err(error@),
    }
}

/// `deno_ast::MediaType`, the transpiler's own media classification.
#[verifier::external_type_specification]
#[verifier::external_body]
pub struct ExTranspilerMediaType(TranspilerMediaType);

/// Hands a media type to the transpiler as its own `deno_ast::MediaType`,
/// variant for variant. No outside function is called.
#[verifier::external_body]
fn transpiler_media_type(media_type: MediaType) -> (outside: TranspilerMediaType) {
    match media_type {
        MediaType::JavaScript => TranspilerMediaType::JavaScript,
        MediaType::Mjs => TranspilerMediaType::Mjs,
        MediaType::Cjs => TranspilerMediaType::Cjs,
        MediaType::Jsx => TranspilerMediaType::Jsx,
        MediaType::TypeScript => TranspilerMediaType::TypeScript,
        MediaType::Mts => TranspilerMediaType::Mts,
        MediaType::Cts => TranspilerMediaType::Cts,
        MediaType::Dts => TranspilerMediaType::Dts,
        MediaType::Dmts => TranspilerMediaType::Dmts,
        MediaType::Dcts => TranspilerMediaType::Dcts,
        MediaType::Tsx => TranspilerMediaType::Tsx,
        MediaType::Json => TranspilerMediaType::Json,
        MediaType::Unknown => TranspilerMediaType::Unknown,
    }
}

/// What the transpiler makes of `text`, the source of the module
/// `specifier`, taken as `media_type`: `deno_ast::parse_module` on the text,
/// then `ParsedSource::transpile` with default options. `Ok` holds the
/// emitted script, `Err` the message of the step that failed (an identifier
/// that `url::Url::parse` refuses fails first).
pub uninterp spec fn transpiled(specifier: Seq<char>, media_type: MediaType, text: Seq<char>) -> Result<
    Seq<char>,
    Seq<char>,
>;

/// Calls `url::Url::parse` on the identifier, `deno_ast::parse_module` and
/// `ParsedSource::transpile`. The contract only names the result, which
/// depends on the identifier, the media type and the text alone; nothing is
/// claimed of the emitted code. A text that begins with a byte-order mark is
/// kept out: the parser may panic on one.
#[verifier::external_body]
fn transpile(specifier: &str, media_type: MediaType, text: &str) -> (emitted: Result<
    String,
    String,
>)
    requires
        text@.len() == 0 || text@[0] != '\u{feff}',
    ensures
        text_of(emitted) == transpiled(specifier@, media_type, text@),
{
    let specifier = url::Url::parse(specifier).map_err(|e| e.to_string())?;
    let params = deno_ast::ParseParams {
        specifier,
        text: text.into(),
        media_type: transpiler_media_type(media_type),
        capture_tokens: false,
        scope_analysis: false,
        maybe_syntax: None,
    };
    let parsed = deno_ast::parse_module(params).map_err(|e| e.to_string())?;
    let options = (Default::default(), Default::default(), Default::default());
    let emitted = parsed.transpile(&options.0, &options.1, &options.2);
    Ok(emitted.map_err(|e| e.to_string())?.into_source().text)
}

/// `text` without the byte-order marks it begins with.
pub open spec fn without_marks(text: Seq<char>) -> Seq<char>
    decreases text.len(),
{
    if text.len() > 0 && text[0] == '\u{feff}' {
        without_marks(text.skip(1))
    } else {
        text
    }
}

/// Drops the byte-order marks that `text` begins with.
fn strip_marks<'a>(text: &'a str) -> (rest: &'a str)
    ensures
        rest@ == without_marks(text@),
        rest@.len() == 0 || rest@[0] != '\u{feff}',
{
    let n = text.unicode_len();
    let mut k: usize = 0;
    let mut done = false;
    proof {
        assert(text@.skip(0) =~= text@);
    }
    while k < n && !done
        invariant
            n == text@.len(),
            k <= n,
            without_marks(text@) == without_marks(text@.skip(k as int)),
            done ==> k < n && text@[k as int] != '\u{feff}',
        decreases n - k + if done { 0int } else { 1int },
    {
        if text.get_char(k) == '\u{feff}' {
            proof {
                assert(text@.skip(k as int)[0] == text@[k as int]);
                assert(text@.skip(k as int).skip(1) =~= text@.skip(k + 1));
            }
            k += 1;
        } else {
            done = true;
        }
    }
    proof {
        let rest = text@.skip(k as int);
        assert(rest =~= text@.subrange(k as int, n as int));
        if k < n {
            assert(rest[0] == text@[k as int]);
        }
    }
    text.substring_char(k, n)
}

/// The record for a module whose text went through the transpiler: the
/// emitted script under the module's kind and identifier, or the
/// transpiler's failure.
pub open spec fn emitted_module(
    kind: ModuleKind,
    specifier: Seq<char>,
    emitted: Result<Seq<char>, Seq<char>>,
) -> Result<ModuleText, LoadFailure> {
    match emitted {
        Ok(code) => Ok(ModuleText { kind, code, specifier }),
        Err(message) => Err(LoadFailure::Transpile(message)),
    }
}

/// The load of a module of a given media type, once its file has been read.
///
/// An unknown media type fails the load whatever was read. Otherwise a
/// failed read fails it. Otherwise the record holds the file's text
/// unchanged where the decision asks for no transpiling. Where it asks for
/// it, the transpiler is handed the identifier, the media type and the text
/// without the byte-order marks it begins with: the record holds what it
/// emitted, and its failure is the load's.
pub open spec fn load_as(
    media_type: MediaType,
    specifier: Seq<char>,
    read: Result<Seq<char>, Seq<char>>,
) -> Result<ModuleText, LoadFailure> {
    match decision_of(media_type) {
        None => Err(LoadFailure::Classification),
        Some(decision) => match read {
            Err(message) => Err(LoadFailure::Io(message)),
            Ok(content) => if decision.needs_transpile {
                emitted_module(
                    decision.kind,
                    specifier,
                    transpiled(specifier, media_type, without_marks(content)),
                )
            } else {
                Ok(ModuleText { kind: decision.kind, code: content, specifier })
            },
        },
    }
}

/// The load of the module `specifier` from the file at `path`: that of a
/// module of the path's media type.
pub open spec fn load_of(
    specifier: Seq<char>,
    path: Option<Seq<char>>,
    read: Result<Seq<char>, Seq<char>>,
) -> Result<ModuleText, LoadFailure> {
    load_as(media_type_of(path), specifier, read)
}

/// Packages what the transpiler returned for the module `specifier`.
pub fn module_from_emit(kind: ModuleKind, specifier: &str, emitted: Result<String, String>) -> (loaded:
    Result<ModuleSource, LoadError>)
    ensures
        outcome_of(loaded) == emitted_module(kind, specifier@, text_of(emitted)),
{
    match emitted {
        Ok(code) => Ok(ModuleSource { kind, code, specifier: specifier.to_owned() }),
        Err(message) => Err(LoadError::Transpile(message)),
    }
}

/// Loads the module `specifier`, whose file has been classified as
/// `media_type`, given what reading that file as text returned: its
/// content, or the reader's message.
pub fn load_classified(media_type: MediaType, specifier: &str, read: Result<String, String>) -> (loaded:
    Result<ModuleSource, LoadError>)
    ensures
        outcome_of(loaded) == load_as(media_type, specifier@, text_of(read)),
{
    let decision = match decide(media_type) {
        Ok(decision) => decision,
        Err(_) => { return Err(LoadError::Classification); },
    };
    let content = match read {
        Ok(content) => content,
        Err(message) => { return Err(LoadError::Io(message)); },
    };
    if decision.needs_transpile {
        let emitted = transpile(specifier, media_type, strip_marks(content.as_str()));
        module_from_emit(decision.kind, specifier, emitted)
    } else {
        Ok(ModuleSource { kind: decision.kind, code: content, specifier: specifier.to_owned() })
    }
}

/// Loads the module `specifier` from the file at `path`, given what reading
/// that file as text returned: its content, or the reader's message.
pub fn load_source(specifier: &str, path: Option<&str>, read: Result<String, String>) -> (loaded:
    Result<ModuleSource, LoadError>)
    ensures
        outcome_of(loaded) == load_of(specifier@, path_text(path), text_of(read)),
{
    load_classified(classify(path), specifier, read)
}

/// A file of unknown media type never loads: not as an empty module, not
/// with its text handed on untransformed. No other file fails for its type.
pub proof fn unknown_media_type_never_loads(
    media_type: MediaType,
    specifier: Seq<char>,
    read: Result<Seq<char>, Seq<char>>,
)
    ensures
        media_type == MediaType::Unknown <==> load_as(media_type, specifier, read) == Err::<
            ModuleText,
            LoadFailure,
        >(LoadFailure::Classification),
{
}

/// A module that needs no transpiling is handed on exactly as it was read.
/// One that needs it holds the transpiler's output, or fails with the
/// transpiler's failure: the text as it was read is never handed on in its
/// place. A load that succeeds keeps the identifier it was asked for.
pub proof fn load_hands_on_or_transpiles(
    media_type: MediaType,
    specifier: Seq<char>,
    content: Seq<char>,
)
    ensures
        decision_of(media_type) matches Some(decision) ==> {
            let loaded = load_as(media_type, specifier, Ok(content));
            let emitted = transpiled(specifier, media_type, without_marks(content));
            &&& !decision.needs_transpile ==> loaded == Ok::<ModuleText, LoadFailure>(
                ModuleText { kind: decision.kind, code: content, specifier },
            )
            &&& decision.needs_transpile ==> (emitted matches Ok(code) ==> loaded == Ok::<
                ModuleText,
                LoadFailure,
            >(ModuleText { kind: decision.kind, code, specifier }))
            &&& decision.needs_transpile ==> (emitted matches Err(message) ==> loaded == Err::<
                ModuleText,
                LoadFailure,
            >(LoadFailure::Transpile(message)))
        },
        load_as(media_type, specifier, Ok(content)) matches Ok(module) ==> module.specifier
            == specifier,
{
}

} // verus!
