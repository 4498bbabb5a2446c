//! Where the source of a script module comes from, and what becomes of
//! its bytes before the engine sees them.

use data_url::DataUrl;
use deno_ast::{MediaType, ModuleSpecifier, ParseParams};
use vstd::prelude::*;
use vstd::string::*;
use vstd::utf8::*;

verus! {

/// The places a module can be loaded from, told apart by the scheme of
/// its specifier.
#[derive(Debug, Clone, Copy, PartialEq, Eq, Structural)]
pub enum SourceKind {
    /// `http` or `https`: fetched over the network.
    Remote,
    /// `file`: read from disk.
    File,
    /// `data`: held in the specifier itself.
    Data,
    /// Any other scheme: not loaded.
    Unsupported,
}

/// The kind of source that a scheme stands for. Schemes are compared
/// letter for letter.
pub open spec fn source_kind(scheme: Seq<char>) -> SourceKind {
    if scheme == "http"@ || scheme == "https"@ {
        SourceKind::Remote
    } else if scheme == "file"@ {
        SourceKind::File
    } else if scheme == "data"@ {
        SourceKind::Data
    } else {
        SourceKind::Unsupported
    }
}

/// Why a module was not loaded.
#[derive(Debug)]
pub enum LoadError {
    /// A `file` specifier that names no path.
    InvalidFileUrl,
    /// A `data` specifier that is no data URL, or whose body does not
    /// decode.
    InvalidDataUrl,
    /// A scheme that no source stands behind; it is kept for the message.
    InvalidScheme(String),
    /// A source that does not turn into JavaScript, with what the
    /// transpiler said of it.
    Transpile(String),
}

/// A load error, with its texts by their characters.
pub enum LoadErrorView {
    InvalidFileUrl,
    InvalidDataUrl,
    InvalidScheme(Seq<char>),
    Transpile(Seq<char>),
}

impl View for LoadError {
    type V = LoadErrorView;

    open spec fn view(&self) -> LoadErrorView {
        match self {
            LoadError::InvalidFileUrl => LoadErrorView::InvalidFileUrl,
            LoadError::InvalidDataUrl => LoadErrorView::InvalidDataUrl,
            LoadError::InvalidScheme(scheme) => LoadErrorView::InvalidScheme(scheme@),
            LoadError::Transpile(said) => LoadErrorView::Transpile(said@),
        }
    }
}

impl LoadErrorView {
    /// The message a load error is reported with.
    pub open spec fn message(self) -> Seq<char> {
        match self {
            LoadErrorView::InvalidFileUrl => "Invalid file URL."@,
            LoadErrorView::InvalidDataUrl => "Not a valid data URL."@,
            LoadErrorView::InvalidScheme(scheme) => "Invalid schema "@ + scheme,
            LoadErrorView::Transpile(said) => said,
        }
    }
}

impl LoadError {
    /// The message this error is reported with.
    pub fn message(&self) -> (text: String)
        ensures
            text@ == self@.message(),
    {
        match self {
            LoadError::InvalidFileUrl => String::from_str("Invalid file URL."),
            LoadError::InvalidDataUrl => String::from_str("Not a valid data URL."),
            LoadError::InvalidScheme(scheme) => {
                let mut text = String::from_str("Invalid schema ");
                text.append(scheme.as_str());
                text
            },
            LoadError::Transpile(said) => said.clone(),
        }
    }
}

/// How the bytes of a module are to be had.
#[derive(Debug)]
pub enum Fetch {
    /// By a request over the network.
    Remote,
    /// By reading the file that the specifier names.
    File,
    /// They are here: the decoded body of a data URL.
    Inline(Vec<u8>),
}

/// A way to the bytes, with inline bytes by their values.
pub enum FetchView {
    Remote,
    File,
    Inline(Seq<u8>),
}

impl View for Fetch {
    type V = FetchView;

    open spec fn view(&self) -> FetchView {
        match self {
            Fetch::Remote => FetchView::Remote,
            Fetch::File => FetchView::File,
            Fetch::Inline(bytes) => FetchView::Inline(bytes@),
        }
    }
}

/// A module ready for the engine.
#[derive(Debug)]
pub struct ModuleText {
    /// The module as JavaScript.
    pub code: String,
    /// The specifier the module was asked for by.
    pub url_specified: String,
    /// The specifier the module was found under: the same, as no
    /// redirect is followed.
    pub url_found: String,
}

/// A module ready for the engine, each text by its characters.
pub struct ModuleTextView {
    pub code: Seq<char>,
    pub url_specified: Seq<char>,
    pub url_found: Seq<char>,
}

impl View for ModuleText {
    type V = ModuleTextView;

    open spec fn view(&self) -> ModuleTextView {
        ModuleTextView {
            code: self.code@,
            url_specified: self.url_specified@,
            url_found: self.url_found@,
        }
    }
}

/// A prepared module or the reason there is none, seen through the views
/// of both sides.
pub open spec fn module_view(outcome: Result<ModuleText, LoadError>) -> Result<
    ModuleTextView,
    LoadErrorView,
> {
    match outcome {
        Ok(module) => Ok(module@),
        Err(error) => Err(error@),
    }
}

/// What the transpiler made of a source, by the characters of either
/// text: the JavaScript, or what it said in refusing.
pub open spec fn outcome_view(outcome: Result<String, String>) -> Result<Seq<char>, Seq<char>> {
    match outcome {
        Ok(code) => Ok(code@),
        Err(said) => Err(said@),
    }
}

/// An answer of the loader, seen through the views of both its sides.
pub open spec fn answer_view(answer: Result<Fetch, LoadError>) -> Result<FetchView, LoadErrorView> {
    match answer {
        Ok(fetch) => Ok(fetch@),
        Err(error) => Err(error@),
    }
}

/// The body that the `data_url` crate decodes from the data URL `url`:
/// `None` where it finds no data URL in the text, or base64 that does
/// not decode.
pub uninterp spec fn data_url_body(url: Seq<char>) -> Option<Seq<u8>>;

/// The text that `String::from_utf8_lossy` makes of `bytes`.
pub uninterp spec fn lossy_text(bytes: Seq<u8>) -> Seq<char>;

/// The JavaScript that `deno_ast` emits for the TypeScript module
/// `source` found under `specifier`, with its default options: `None`
/// where the specifier is no URL or the source does not parse or
/// transpile.
pub uninterp spec fn transpiled(specifier: Seq<char>, source: Seq<char>) -> Option<Seq<char>>;

/// The character U+FEFF, which a text may begin with as a byte order
/// mark.
pub open spec fn mark() -> char {
    '\u{feff}'
}

/// Whether a text begins with the mark.
pub open spec fn begins_with_mark(text: Seq<char>) -> bool {
    text.len() > 0 && text[0] == mark()
}

/// A text without the marks at its start, however many there are.
pub open spec fn without_marks(text: Seq<char>) -> Seq<char>
    decreases text.len(),
{
    if begins_with_mark(text) {
        without_marks(text.skip(1))
    } else {
        text
    }
}

/// The module that the transpiler's outcome gives for `specifier`.
pub open spec fn module_from(specifier: Seq<char>, outcome: Result<Seq<char>, Seq<char>>) -> Result<
    ModuleTextView,
    LoadErrorView,
> {
    match outcome {
        Ok(code) => Ok(ModuleTextView { code, url_specified: specifier, url_found: specifier }),
        Err(said) => Err(LoadErrorView::Transpile(said)),
    }
}

/// How a module with the given scheme is to be had, `body` being what
/// its specifier decodes to as a data URL.
pub open spec fn located(scheme: Seq<char>, body: Option<Seq<u8>>) -> Result<
    FetchView,
    LoadErrorView,
> {
    match source_kind(scheme) {
        SourceKind::Remote => Ok(FetchView::Remote),
        SourceKind::File => Ok(FetchView::File),
        SourceKind::Data => match body {
            Some(bytes) => Ok(FetchView::Inline(bytes)),
            None => Err(LoadErrorView::InvalidDataUrl),
        },
        SourceKind::Unsupported => Err(LoadErrorView::InvalidScheme(scheme)),
    }
}

/// Whether `bytes` begin with the UTF-8 byte order mark.
pub open spec fn has_bom(bytes: Seq<u8>) -> bool {
    bytes.len() >= 3 && bytes[0] == 0xEF && bytes[1] == 0xBB && bytes[2] == 0xBF
}

/// `bytes` without a byte order mark at their start.
pub open spec fn without_bom(bytes: Seq<u8>) -> Seq<u8> {
    if has_bom(bytes) {
        bytes.skip(3)
    } else {
        bytes
    }
}

/// `DataUrl::process` on `url`, then `DataUrl::decode_to_vec` on what it
/// found: the decoded body, the fragment left aside. Either call may
/// refuse the text; both are functions of the text alone.
#[verifier::external_body]
fn decode_data_url(url: &str) -> (body: Option<Vec<u8>>)
    ensures
        match body {
            Some(bytes) => data_url_body(url@) == Some(bytes@),
            None => data_url_body(url@) is None,
        },
{
    match DataUrl::process(url) {
        Ok(found) => match found.decode_to_vec() {
            Ok((bytes, _)) => Some(bytes),
            Err(_) => None,
        },
        Err(_) => None,
    }
}

/// `String::from_utf8_lossy`: the text that `bytes` encode, each
/// ill-formed sequence replaced by U+FFFD. Well-formed bytes decode to
/// the text they encode.
#[verifier::external_body]
fn decode_lossy(bytes: &Vec<u8>) -> (text: String)
    ensures
        text@ == lossy_text(bytes@),
        valid_utf8(bytes@) ==> text@ == decode_utf8(bytes@),
{
    String::from_utf8_lossy(bytes).into_owned()
}

/// `deno_ast::parse_module` on `source` as TypeScript under the URL that
/// `specifier` parses to, tokens and scopes left aside, then
/// `ParsedSource::transpile` with the default options of all three
/// kinds: the emitted JavaScript. The parser refuses, in builds that
/// check debug assertions, a text that begins with the mark; such a
/// text is not handed to it. What is said on refusal is for people to
/// read, and nothing is stated of it.
#[verifier::external_body]
fn transpile(specifier: &str, source: &str) -> (outcome: Result<String, String>)
    requires
        !begins_with_mark(source@),
    ensures
        match outcome {
            Ok(code) => transpiled(specifier@, source@) == Some(code@),
            Err(_) => transpiled(specifier@, source@) is None,
        },
{
    let specifier = ModuleSpecifier::parse(specifier).map_err(|e| e.to_string())?;
    let parsed = deno_ast::parse_module(ParseParams {
        specifier,
        text: source.into(),
        media_type: MediaType::TypeScript,
        capture_tokens: false,
        scope_analysis: false,
        maybe_syntax: None,
    }).map_err(|e| e.to_string())?;
    let emitted = parsed.transpile(&Default::default(), &Default::default(), &Default::default());
    emitted.map(|e| e.into_source().text).map_err(|e| e.to_string())
}

/// Whether two texts are the same, character for character.
pub fn same_text(a: &str, b: &str) -> (same: bool)
    ensures
        same == (a@ == b@),
{
    let left = a.as_bytes();
    let right = b.as_bytes();
    proof {
        encode_utf8_decode_utf8(a@);
        encode_utf8_decode_utf8(b@);
    }
    if left.len() != right.len() {
        return false;
    }
    let mut i: usize = 0;
    while i < left.len()
        invariant
            i <= left.len(),
            left.len() == right.len(),
            left@ == encode_utf8(a@),
            right@ == encode_utf8(b@),
            forall|k: int| 0 <= k < i ==> left@[k] == right@[k],
        decreases left.len() - i,
    {
        if left[i] != right[i] {
            return false;
        }
        i = i + 1;
    }
    assert(left@ =~= right@);
    true
}

/// Loads script modules for the transform engine: from the network, from
/// disk, or from a data URL.
#[derive(Debug, Clone, Copy)]
pub struct SimpleModuleLoader;

impl SimpleModuleLoader {
    /// The kind of source behind `scheme`.
    pub fn source_kind(scheme: &str) -> (kind: SourceKind)
        ensures
            kind == source_kind(scheme@),
    {
        if same_text(scheme, "http") || same_text(scheme, "https") {
            SourceKind::Remote
        } else if same_text(scheme, "file") {
            SourceKind::File
        } else if same_text(scheme, "data") {
            SourceKind::Data
        } else {
            SourceKind::Unsupported
        }
    }

    /// How the module `specifier`, whose scheme is `scheme`, is to be
    /// had. A data URL is decoded here and now; a scheme that no source
    /// stands behind is refused.
    pub fn locate(scheme: &str, specifier: &str) -> (answer: Result<Fetch, LoadError>)
        ensures
            answer_view(answer) == located(scheme@, data_url_body(specifier@)),
    {
        match Self::source_kind(scheme) {
            SourceKind::Data => Self::locate_with(scheme, decode_data_url(specifier)),
            _ => Self::locate_with(scheme, None),
        }
    }

    /// How a module with the given scheme is to be had, where `body` is
    /// what its specifier decoded to as a data URL. The body is looked at
    /// for the `data` scheme only.
    pub fn locate_with(scheme: &str, body: Option<Vec<u8>>) -> (answer: Result<Fetch, LoadError>)
        ensures
            answer_view(answer) == located(
                scheme@,
                match body {
                    Some(bytes) => Some(bytes@),
                    None => None,
                },
            ),
    {
        match Self::source_kind(scheme) {
            SourceKind::Remote => Ok(Fetch::Remote),
            SourceKind::File => Ok(Fetch::File),
            SourceKind::Data => match body {
                Some(bytes) => Ok(Fetch::Inline(bytes)),
                None => Err(LoadError::InvalidDataUrl),
            },
            SourceKind::Unsupported => Err(LoadError::InvalidScheme(scheme.to_owned())),
        }
    }

    /// Takes a byte order mark off the start of `bytes`, where there is
    /// one.
    pub fn strip_bom(bytes: Vec<u8>) -> (rest: Vec<u8>)
        ensures
            rest@ == without_bom(bytes@),
    {
        let ghost whole = bytes@;
        let mut bytes = bytes;
        if bytes.len() >= 3 && bytes[0] == 0xEF && bytes[1] == 0xBB && bytes[2] == 0xBF {
            let rest = bytes.split_off(3);
            assert(rest@ =~= without_bom(whole));
            rest
        } else {
            bytes
        }
    }

    /// The source text in the bytes of a module: the byte order mark
    /// taken off, the rest decoded as UTF-8, ill-formed sequences
    /// replaced.
    pub fn source_text(bytes: Vec<u8>) -> (text: String)
        ensures
            text@ == lossy_text(without_bom(bytes@)),
            valid_utf8(without_bom(bytes@)) ==> text@ == decode_utf8(without_bom(bytes@)),
    {
        let rest = Self::strip_bom(bytes);
        decode_lossy(&rest)
    }

    /// Takes the marks off the start of `text`.
    pub fn strip_marks(text: String) -> (rest: String)
        ensures
            rest@ == without_marks(text@),
            !begins_with_mark(rest@),
    {
        let whole = text.as_str();
        let chars: usize = whole.unicode_len();
        let mut marks: usize = 0;
        assert(whole@.skip(0) =~= whole@);
        while marks < chars && whole.get_char(marks) == '\u{feff}'
            invariant
                marks <= chars,
                chars == whole@.len(),
                without_marks(whole@) == without_marks(whole@.skip(marks as int)),
            decreases chars - marks,
        {
            assert(whole@.skip(marks as int).skip(1) =~= whole@.skip(marks + 1));
            marks = marks + 1;
        }
        if marks == 0 {
            return text;
        }
        let rest = whole.substring_char(marks, chars);
        assert(rest@ =~= whole@.skip(marks as int));
        rest.to_owned()
    }

    /// The module that `bytes`, fetched for `specifier`, hold: their
    /// source text, read as TypeScript and turned into JavaScript.
    /// Marks that the text still begins with are taken off first.
    pub fn prepare(specifier: &str, bytes: Vec<u8>) -> (outcome: Result<ModuleText, LoadError>)
        ensures
            match transpiled(specifier@, without_marks(lossy_text(without_bom(bytes@)))) {
                Some(code) => module_view(outcome) == module_from(specifier@, Ok(code)),
                None => outcome matches Err(LoadError::Transpile(_)),
            },
    {
        let text = Self::strip_marks(Self::source_text(bytes));
        Self::module_from(specifier, transpile(specifier, text.as_str()))
    }

    /// The module for `specifier`, given what the transpiler made of its
    /// source.
    pub fn module_from(specifier: &str, outcome: Result<String, String>) -> (module: Result<
        ModuleText,
        LoadError,
    >)
        ensures
            module_view(module) == module_from(specifier@, outcome_view(outcome)),
    {
        match outcome {
            Ok(code) => Ok(
                ModuleText {
                    code,
                    url_specified: specifier.to_owned(),
                    url_found: specifier.to_owned(),
                },
            ),
            Err(said) => Err(LoadError::Transpile(said)),
        }
    }
}

} // verus!
