use vstd::prelude::*;

use crate::document::{fold_pairs, pairs_text, Document};
use crate::error::ConfigError;
use crate::json::{error_text, parse_object, parsed_object, pretty_json, render_object};
use crate::validate::{entry_problem, validate_entry};

verus! {

/// The document that the text of a backing file denotes, if it parses.
pub open spec fn loaded(text: Seq<char>) -> Option<Map<Seq<char>, Seq<char>>> {
    match parsed_object(text) {
        Some(p) => Some(fold_pairs(p)),
        None => None,
    }
}

/// The document after setting `name` to `url` in `d`.
pub open spec fn applied(
    d: Map<Seq<char>, Seq<char>>,
    name: Seq<char>,
    url: Seq<char>,
) -> Map<Seq<char>, Seq<char>> {
    d.insert(name, url)
}

/// Setting the same (name, url) twice gives the same document as setting it
/// once.
pub proof fn lemma_applied_idempotent(d: Map<Seq<char>, Seq<char>>, name: Seq<char>, url: Seq<char>)
    ensures
        applied(applied(d, name, url), name, url) == applied(d, name, url),
{
    assert(applied(applied(d, name, url), name, url) =~= applied(d, name, url));
}

/// After setting `name` to `url`, looking `name` up gives `url`, and every
/// other key keeps its value.
pub proof fn lemma_applied_lookup(d: Map<Seq<char>, Seq<char>>, name: Seq<char>, url: Seq<char>)
    ensures
        applied(d, name, url).contains_key(name),
        applied(d, name, url)[name] == url,
        forall|k: Seq<char>|
            k != name ==> (#[trigger] applied(d, name, url).contains_key(k) == d.contains_key(k)
                && (d.contains_key(k) ==> applied(d, name, url)[k] == d[k])),
{
}

/// Parses the text of a backing file into a document.
pub fn parse_document(text: &str) -> (r: Result<Document, String>)
    ensures
        match r {
            Ok(d) => d.wf() && loaded(text@) == Some(d@),
            Err(_) => loaded(text@).is_none(),
        },
{
    match parse_object(text) {
        Ok(v) => {
            proof {
                assert(parsed_object(text@) == Some(pairs_text(v@)));
            }
            Ok(Document::from_pairs(v))
        },
        Err(e) => Err(error_text(&e)),
    }
}

/// Renders a document as the text of a backing file.
pub fn render_document(d: &Document) -> (r: String)
    requires
        d.wf(),
    ensures
        r@ == pretty_json(d@),
{
    match render_object(d.pairs()) {
        Ok(t) => t,
        Err(_) => {
            assert(false);
            String::new()
        },
    }
}

/// A mutation that is ready to be persisted: the new document and the text
/// that the backing file is to hold.
pub struct Mutation {
    document: Document,
    text: String,
}

impl Mutation {
    /// The document that the mutation publishes.
    pub closed spec fn doc(&self) -> Map<Seq<char>, Seq<char>> {
        self.document@
    }

    /// The mutation's parts are consistent.
    pub closed spec fn wf(&self) -> bool {
        self.document.wf() && self.text@ == pretty_json(self.document@)
    }

    /// The text to write to the backing file.
    pub fn text(&self) -> (r: &String)
        ensures
            self.wf() ==> r@ == pretty_json(self.doc()),
    {
        &self.text
    }

    /// The document that the mutation publishes.
    pub fn document(&self) -> (r: &Document)
        ensures
            r@ == self.doc(),
            self.wf() ==> r.wf(),
    {
        &self.document
    }
}

/// The configuration store: the current document and the path of its
/// backing file.
pub struct AppConfig {
    content: Document,
    file_path: String,
}

impl AppConfig {
    /// The current document.
    pub closed spec fn doc(&self) -> Map<Seq<char>, Seq<char>> {
        self.content@
    }

    /// The path of the backing file.
    pub closed spec fn path(&self) -> Seq<char> {
        self.file_path@
    }

    /// The store's invariant.
    pub closed spec fn wf(&self) -> bool {
        self.content.wf()
    }

    /// Builds the store from the text read at `path`; a text that does not
    /// parse leaves no store to serve.
    pub fn new(path: &str, text: &str) -> (r: Result<AppConfig, ConfigError>)
        ensures
            match r {
                Ok(c) => c.wf() && loaded(text@) == Some(c.doc()) && c.path() == path@,
                Err(e) => loaded(text@).is_none() && e is StartupFailure,
            },
    {
        match parse_document(text) {
            Ok(d) => Ok(AppConfig { content: d, file_path: path.to_owned() }),
            Err(reason) => Err(ConfigError::StartupFailure { reason }),
        }
    }

    /// Replaces the document with what `read`, the outcome of reading the
    /// backing file, holds; a failed read or a text that does not parse
    /// leaves the document untouched.
    pub fn reload(&mut self, read: Result<String, String>) -> (r: Result<(), ConfigError>)
        requires
            old(self).wf(),
        ensures
            final(self).wf(),
            final(self).path() == old(self).path(),
            match read {
                Ok(t) => match loaded(t@) {
                    Some(d) => r is Ok && final(self).doc() == d,
                    None => (r matches Err(ConfigError::ReloadFailed { .. })) && final(self).doc() == old(self).doc(),
                },
                Err(_) => (r matches Err(ConfigError::ReloadFailed { .. })) && final(self).doc() == old(self).doc(),
            },
    {
        match read {
            Ok(t) => match parse_document(t.as_str()) {
                Ok(d) => {
                    self.content = d;
                    Ok(())
                },
                Err(reason) => Err(ConfigError::ReloadFailed { reason }),
            },
            Err(reason) => Err(ConfigError::ReloadFailed { reason }),
        }
    }

    /// The current document.
    pub fn get_content(&self) -> (r: &Document)
        ensures
            r@ == self.doc(),
            self.wf() ==> r.wf(),
    {
        &self.content
    }

    /// The path of the backing file.
    pub fn file_path(&self) -> (r: &String)
        ensures
            r@ == self.path(),
    {
        &self.file_path
    }

    /// A copy of the current document, for lookups after the store is released.
    pub fn read(&self) -> (r: Document)
        requires
            self.wf(),
        ensures
            r.wf(),
            r@ == self.doc(),
    {
        self.content.snapshot()
    }

    /// Prepares setting `name` to `url`: checks the entry, applies it to a copy
    /// of the document and renders the copy. The store itself is not changed.
    pub fn prepare(&self, name: &str, url: &str) -> (r: Result<Mutation, ConfigError>)
        requires
            self.wf(),
        ensures
            match entry_problem(name@, url@) {
                Some(p) => r == Err::<Mutation, ConfigError>(ConfigError::InvalidInput { problem: p }),
                None => r matches Ok(m) && m.wf() && m.doc() == applied(self.doc(), name@, url@),
            },
    {
        match validate_entry(name, url) {
            Err(p) => Err(ConfigError::InvalidInput { problem: p }),
            Ok(()) => {
                let mut d = self.content.snapshot();
                d.set(name.to_owned(), url.to_owned());
                let text = render_document(&d);
                Ok(Mutation { document: d, text })
            },
        }
    }

    /// Publishes a prepared mutation once `written`, the outcome of writing its
    /// text to the backing file, reports success; otherwise the document stays
    /// as it was.
    pub fn commit(&mut self, m: Mutation, written: Result<(), String>) -> (r: Result<(), ConfigError>)
        requires
            old(self).wf(),
            m.wf(),
        ensures
            final(self).wf(),
            final(self).path() == old(self).path(),
            match written {
                Ok(()) => r is Ok && final(self).doc() == m.doc(),
                Err(_) => (r matches Err(ConfigError::PersistFailed { .. })) && final(self).doc() == old(self).doc(),
            },
    {
        match written {
            Ok(()) => {
                self.content = m.document;
                Ok(())
            },
            Err(reason) => Err(ConfigError::PersistFailed { reason }),
        }
    }
}

} // verus!
