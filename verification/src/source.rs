//! Where values come from: the namespace of named values and the files that
//! were read on its behalf.

use crate::entries::{find, forget, seek};
use crate::error::{EnvError, EnvErrorType, ErrorKind, ErrorView, VarError};
use crate::outcome::{Outcome, OutcomeView};
use vstd::prelude::*;

verus! {

/// What the namespace holds under a key.
pub enum VarValue {
    /// A text.
    Text(String),
    /// Bytes that are no text.
    NotUnicode(Vec<u8>),
}

/// The mathematical value of a [`VarValue`].
pub enum VarView {
    Text(Seq<char>),
    NotUnicode(Seq<u8>),
}

impl View for VarValue {
    type V = VarView;

    open spec fn view(&self) -> VarView {
        match self {
            VarValue::Text(text) => VarView::Text(text@),
            VarValue::NotUnicode(bytes) => VarView::NotUnicode(bytes@),
        }
    }
}

/// The namespace: named values, each a text or bytes that are no text.
pub struct Namespace {
    entries: Vec<(String, VarValue)>,
}

impl View for Namespace {
    type V = Map<Seq<char>, VarView>;

    closed spec fn view(&self) -> Map<Seq<char>, VarView> {
        Map::new(
            |key: Seq<char>| find(self.entries@, key) is Some,
            |key: Seq<char>| find(self.entries@, key)->0@,
        )
    }
}

impl Namespace {
    /// A namespace that holds nothing.
    pub fn new() -> (r: Self)
        ensures
            r@ == Map::<Seq<char>, VarView>::empty(),
    {
        let r = Namespace { entries: Vec::new() };
        assert(r@ =~= Map::<Seq<char>, VarView>::empty());
        r
    }

    /// Puts the text `value` under `key`, in place of what was there.
    pub fn set_var(&mut self, key: &str, value: &str)
        ensures
            final(self)@ == old(self)@.insert(key@, VarView::Text(value@)),
    {
        forget(&mut self.entries, key);
        let ghost rest = self.entries@;
        self.entries.push((key.to_owned(), VarValue::Text(value.to_owned())));
        proof {
            assert(self.entries@.drop_last() =~= rest);
            assert(final(self)@ =~= old(self)@.insert(key@, VarView::Text(value@)));
        }
    }

    /// Puts bytes that are no text under `key`, in place of what was there.
    pub fn set_raw(&mut self, key: &str, bytes: Vec<u8>)
        ensures
            final(self)@ == old(self)@.insert(key@, VarView::NotUnicode(bytes@)),
    {
        forget(&mut self.entries, key);
        let ghost rest = self.entries@;
        self.entries.push((key.to_owned(), VarValue::NotUnicode(bytes)));
        proof {
            assert(self.entries@.drop_last() =~= rest);
            assert(final(self)@ =~= old(self)@.insert(key@, VarView::NotUnicode(bytes@)));
        }
    }

    /// Takes away what stands under `key`.
    pub fn remove_var(&mut self, key: &str)
        ensures
            final(self)@ == old(self)@.remove(key@),
    {
        forget(&mut self.entries, key);
        proof {
            assert(final(self)@ =~= old(self)@.remove(key@));
        }
    }

    /// The text under `key`, or why there is none.
    pub fn var(&self, key: &str) -> (r: Result<String, VarError>)
        ensures
            var_view(r) == lookup(self@, key@),
    {
        match seek(&self.entries, key) {
            Some(VarValue::Text(text)) => Ok(text.clone()),
            Some(VarValue::NotUnicode(bytes)) => Err(VarError::NotUnicode(bytes.clone())),
            None => Err(VarError::NotPresent),
        }
    }
}

/// The mathematical value of what [`Namespace::var`] returns.
pub open spec fn var_view(r: Result<String, VarError>) -> Result<Seq<char>, ErrorKind> {
    match r {
        Ok(text) => Ok(text@),
        Err(error) => Err(error@),
    }
}

/// What a lookup of `key` in `env` gives: the text, or the cause for which
/// there is none.
pub open spec fn lookup(env: Map<Seq<char>, VarView>, key: Seq<char>) -> Result<
    Seq<char>,
    ErrorKind,
> {
    if !env.dom().contains(key) {
        Err(ErrorKind::NotPresent)
    } else {
        match env[key] {
            VarView::Text(text) => Ok(text),
            VarView::NotUnicode(bytes) => Err(ErrorKind::NotUnicode(bytes)),
        }
    }
}

/// The mathematical value of what reading a file gave: its contents, or the
/// failure in words.
pub open spec fn read_view(read: Result<String, String>) -> Result<Seq<char>, Seq<char>> {
    match read {
        Ok(contents) => Ok(contents@),
        Err(words) => Err(words@),
    }
}

/// What reading files gave, by path. A path that was not read is absent.
pub struct FileStore {
    entries: Vec<(String, Result<String, String>)>,
}

impl View for FileStore {
    type V = Map<Seq<char>, Result<Seq<char>, Seq<char>>>;

    closed spec fn view(&self) -> Map<Seq<char>, Result<Seq<char>, Seq<char>>> {
        Map::new(
            |path: Seq<char>| find(self.entries@, path) is Some,
            |path: Seq<char>| read_view(find(self.entries@, path)->0),
        )
    }
}

impl FileStore {
    /// A store in which no file was read.
    pub fn new() -> (r: Self)
        ensures
            r@ == Map::<Seq<char>, Result<Seq<char>, Seq<char>>>::empty(),
    {
        let r = FileStore { entries: Vec::new() };
        assert(r@ =~= Map::<Seq<char>, Result<Seq<char>, Seq<char>>>::empty());
        r
    }

    /// Notes what reading the file at `path` gave, in place of an earlier note.
    pub fn record(&mut self, path: &str, read: Result<String, String>)
        ensures
            final(self)@ == old(self)@.insert(path@, read_view(read)),
    {
        forget(&mut self.entries, path);
        let ghost rest = self.entries@;
        self.entries.push((path.to_owned(), read));
        proof {
            assert(self.entries@.drop_last() =~= rest);
            assert(final(self)@ =~= old(self)@.insert(path@, read_view(read)));
        }
    }

    /// What reading the file at `path` gave, where it was read.
    pub fn read(&self, path: &str) -> (r: Option<Result<String, String>>)
        ensures
            r is Some <==> self@.dom().contains(path@),
            r matches Some(read) ==> read_view(read) == self@[path@],
    {
        match seek(&self.entries, path) {
            Some(Ok(contents)) => Some(Ok(contents.clone())),
            Some(Err(words)) => Some(Err(words.clone())),
            None => None,
        }
    }
}

/// The namespace together with the files read so far.
pub struct Source {
    pub env: Namespace,
    pub files: FileStore,
}

/// The mathematical value of a [`Source`].
pub struct SourceView {
    pub env: Map<Seq<char>, VarView>,
    pub files: Map<Seq<char>, Result<Seq<char>, Seq<char>>>,
}

impl View for Source {
    type V = SourceView;

    open spec fn view(&self) -> SourceView {
        SourceView { env: self.env@, files: self.files@ }
    }
}

/// The key under which the path of a file stands for `key`.
pub open spec fn file_key(key: Seq<char>) -> Seq<char> {
    key + "_FILE"@
}

/// The text that stands under `key`: `Loaded(None)` where the namespace has
/// nothing there, a failure for `key` where it has bytes that are no text.
pub open spec fn probed(env: Map<Seq<char>, VarView>, key: Seq<char>) -> OutcomeView<
    Option<Seq<char>>,
> {
    match lookup(env, key) {
        Ok(text) => OutcomeView::Loaded(Some(text)),
        Err(ErrorKind::NotPresent) => OutcomeView::Loaded(None),
        Err(ty) => OutcomeView::Failed(ErrorView { var: key, ty }),
    }
}

/// The text for `key` with the fall-back to a file. Only where the namespace
/// has nothing under `key` is the key with `_FILE` appended looked up; its
/// text is the path of the file whose contents are taken. A failure of that
/// lookup or of the reading is one for the appended key. Where the source
/// does not say what reading gave, the path is handed out.
pub open spec fn probed_or_file(src: SourceView, key: Seq<char>) -> OutcomeView<Option<Seq<char>>> {
    match probed(src.env, key) {
        OutcomeView::Loaded(None) => match probed(src.env, file_key(key)) {
            OutcomeView::Loaded(Some(path)) => if !src.files.dom().contains(path) {
                OutcomeView::NeedsFile(path)
            } else {
                match src.files[path] {
                    Ok(contents) => OutcomeView::Loaded(Some(contents)),
                    Err(words) => OutcomeView::Failed(
                        ErrorView { var: file_key(key), ty: ErrorKind::Other(words) },
                    ),
                }
            },
            other => other,
        },
        other => other,
    }
}

impl Source {
    /// A source with an empty namespace and no file read.
    pub fn new() -> (r: Self)
        ensures
            r@.env == Map::<Seq<char>, VarView>::empty(),
            r@.files == Map::<Seq<char>, Result<Seq<char>, Seq<char>>>::empty(),
    {
        Source { env: Namespace::new(), files: FileStore::new() }
    }

    /// Looks `ident` up in the namespace.
    pub fn probe(&self, ident: &str) -> (r: Outcome<Option<String>>)
        ensures
            r.deep_view() == probed(self@.env, ident@),
    {
        match self.env.var(ident) {
            Ok(text) => Outcome::Loaded(Some(text)),
            Err(VarError::NotPresent) => Outcome::Loaded(None),
            Err(VarError::NotUnicode(bytes)) => Outcome::Failed(
                EnvError { var: ident.to_owned(), ty: EnvErrorType::NotUnicode(bytes) },
            ),
        }
    }

    /// Looks `ident` up in the namespace and, where nothing stands there,
    /// takes the contents of the file named under `ident` with `_FILE`
    /// appended.
    pub fn probe_or_file(&self, ident: &str) -> (r: Outcome<Option<String>>)
        ensures
            r.deep_view() == probed_or_file(self@, ident@),
    {
        match self.probe(ident) {
            Outcome::Loaded(None) => {
                let name = ident.to_owned().concat("_FILE");
                match self.probe(name.as_str()) {
                    Outcome::Loaded(Some(path)) => match self.files.read(path.as_str()) {
                        None => Outcome::NeedsFile(path),
                        Some(Ok(contents)) => Outcome::Loaded(Some(contents)),
                        Some(Err(words)) => Outcome::Failed(
                            EnvError { var: name, ty: EnvErrorType::Other(words) },
                        ),
                    },
                    other => other,
                }
            },
            other => other,
        }
    }
}

} // verus!
