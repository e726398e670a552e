//! The configuration store as it is held in memory: a document and the path
//! of the file that it is persisted in.
//!
//! Reading and writing the file is left to the program. What is decided
//! here is what the store holds, and what a load does with the text found.

use vstd::prelude::*;
use vstd::string::*;
use crate::error::Error;

verus! {

/// A document without settings: what a store holds until it is given one.
#[derive(Debug, Clone, Copy, PartialEq, Eq, Structural)]
pub struct EmptyConfig {}

/// A configuration document of type `T`, and the path of its file.
#[derive(Debug)]
pub struct AppConfig<T = EmptyConfig> {
    pub(crate) file_path: String,
    pub(crate) config: T,
}

/// Collects what a store is made of.
#[derive(Debug)]
pub struct AppConfigBuilder<T = EmptyConfig> {
    pub(crate) file_path: String,
    pub(crate) data: T,
}

/// A store that can be written to its file and read back from it.
pub trait Configurable {
    /// Writes the document held in memory to the file.
    fn save(&self) -> Result<(), Error>;

    /// Replaces the document held in memory by the one in the file.
    fn load(&mut self) -> Result<(), Error>;
}

/// What a load does with the text that it found in the file.
#[derive(Debug, Clone, Copy, PartialEq, Eq, Structural)]
pub enum LoadStep {
    /// The file is empty: the document held in memory is written to it
    /// first, and what was written is read.
    Populate,
    /// The text is read as it stands.
    Parse,
}

/// What [`load_step`] gives for the text of the file, or for none.
pub open spec fn load_step_of(content: Option<Seq<char>>) -> Result<LoadStep, Error> {
    match content {
        None => Err(Error::IoFailed),
        Some(text) => if text.len() == 0 {
            Ok(LoadStep::Populate)
        } else {
            Ok(LoadStep::Parse)
        },
    }
}

/// The model of what may have been read.
pub open spec fn text_of(content: Option<&str>) -> Option<Seq<char>> {
    match content {
        None => None,
        Some(text) => Some(text@),
    }
}

/// Decides how a load goes on, once the file has been read: `content` is
/// its text, or `None` where it could not be read.
///
/// A file that could not be read ends the load with `IoFailed`. A file
/// that was just created is empty, and is populated before it is read; any
/// other text is read as it stands.
pub fn load_step(content: Option<&str>) -> (r: Result<LoadStep, Error>)
    ensures
        r == load_step_of(text_of(content)),
{
    match content {
        None => Err(Error::IoFailed),
        Some(text) => if text.unicode_len() == 0 {
            Ok(LoadStep::Populate)
        } else {
            Ok(LoadStep::Parse)
        },
    }
}

impl<T> AppConfig<T> {
    /// The path of the file.
    pub closed spec fn path(self) -> Seq<char> {
        self.file_path@
    }

    /// The document.
    pub closed spec fn document(self) -> T {
        self.config
    }

    /// Starts a store for the file at `path`, without settings yet.
    pub fn open(path: &str) -> (r: AppConfigBuilder<EmptyConfig>)
        ensures
            r.path() == path@,
            r.document() == (EmptyConfig {  }),
    {
        AppConfigBuilder::new(path)
    }

    /// The path of the file that the document is persisted in.
    pub fn file_path(&self) -> (r: &String)
        ensures
            r@ == self.path(),
    {
        &self.file_path
    }

    /// The document held in memory.
    pub fn get(&self) -> (r: &T)
        ensures
            *r == self.document(),
    {
        &self.config
    }

    /// Puts `document` in the place of the one held in memory.
    pub fn set(&mut self, document: T)
        ensures
            final(self).document() == document,
            final(self).path() == old(self).path(),
    {
        self.config = document;
    }

    /// Ends a load: `parsed` is the document that was read out of the
    /// text of the file, or `None` where the text holds none.
    ///
    /// The document held in memory is replaced only by one that was read.
    /// Where none was, it stays and the error is `SerializationFailed`.
    pub fn loaded(&mut self, parsed: Option<T>) -> (r: Result<(), Error>)
        ensures
            final(self).path() == old(self).path(),
            match parsed {
                Some(document) => r == Ok::<(), Error>(()) && final(self).document() == document,
                None => {
                    &&& r == Err::<(), Error>(Error::SerializationFailed)
                    &&& final(self).document() == old(self).document()
                },
            },
    {
        match parsed {
            Some(document) => {
                self.config = document;
                Ok(())
            },
            None => Err(Error::SerializationFailed),
        }
    }
}

impl<T> AppConfigBuilder<T> {
    /// The path of the file.
    pub closed spec fn path(self) -> Seq<char> {
        self.file_path@
    }

    /// The document that the store will hold.
    pub closed spec fn document(self) -> T {
        self.data
    }

    /// The same builder with `data` as its document.
    pub fn data<U>(self, data: U) -> (r: AppConfigBuilder<U>)
        ensures
            r.path() == self.path(),
            r.document() == data,
    {
        AppConfigBuilder { file_path: self.file_path, data }
    }

    /// The store: the builder's document, for the builder's file.
    pub fn build(self) -> (r: AppConfig<T>)
        ensures
            r.path() == self.path(),
            r.document() == self.document(),
    {
        AppConfig { file_path: self.file_path, config: self.data }
    }
}

impl AppConfigBuilder<EmptyConfig> {
    /// A builder for the file at `path`.
    pub fn new(path: &str) -> (r: Self)
        ensures
            r.path() == path@,
            r.document() == (EmptyConfig {  }),
    {
        AppConfigBuilder { file_path: String::from_str(path), data: EmptyConfig {  } }
    }
}

} // verus!
