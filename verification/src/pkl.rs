//! Loading assets from Pkl files.
//!
//! A Pkl module is evaluated by its decoder from a path on disk: the decoder
//! opens and reads the file itself, outside any reader that the application
//! may have put in front of its assets. So nothing is read here, and a load
//! starts from the decoder's answer.

use crate::routing::{routes, suffixes, ExtensionSet};
use std::marker::PhantomData;
use vstd::prelude::*;
use vstd::std_specs::convert::FromSpecImpl;
use vstd::string::{to_string_from_display_ensures, StringExecFns};

verus! {

/// `rpkl::Error`, the failure of the Pkl decoder. The library carries such a
/// value from the decoder into [`PklLoaderError`] and never looks inside.
#[verifier::external_type_specification]
#[verifier::external_body]
pub struct ExPklError(::rpkl::Error);

/// Plugin to load your asset type `A` from pkl files.
///
/// It holds the configuration from which the loader is made when the plugin
/// is registered with an application.
pub struct PklAssetPlugin<A> {
    extensions: ExtensionSet,
    _marker: PhantomData<A>,
}

impl<A> View for PklAssetPlugin<A> {
    type V = Seq<Seq<char>>;

    /// The suffixes the plugin was configured with.
    closed spec fn view(&self) -> Seq<Seq<char>> {
        self.extensions@
    }
}

impl<A> PklAssetPlugin<A> {
    /// Create a new plugin that will load assets from files with the given extensions.
    pub fn new(extensions: &[&'static str]) -> (plugin: Self)
        ensures
            plugin@ == suffixes(extensions@),
    {
        PklAssetPlugin { extensions: ExtensionSet::new(extensions), _marker: PhantomData }
    }

    /// Makes the loader that this plugin registers. The loader gets a copy
    /// of the plugin's suffixes and shares nothing with the plugin.
    pub fn loader(&self) -> (loader: PklAssetLoader<A>)
        ensures
            loader@ == self@,
    {
        PklAssetLoader {
            extensions: ExtensionSet::new(self.extensions.as_slice()),
            _marker: PhantomData,
        }
    }
}

/// Loads your asset type `A` from pkl files
///
/// A loader holds its suffixes and nothing else. No load changes it, and no
/// load depends on an earlier one.
pub struct PklAssetLoader<A> {
    extensions: ExtensionSet,
    _marker: PhantomData<A>,
}

impl<A> View for PklAssetLoader<A> {
    type V = Seq<Seq<char>>;

    /// The suffixes the loader answers for.
    closed spec fn view(&self) -> Seq<Seq<char>> {
        self.extensions@
    }
}

/// Possible errors that can be produced by [`PklAssetLoader`]
#[non_exhaustive]
#[derive(Debug)]
pub enum PklLoaderError {
    /// An [IO Error](std::io::Error): the input could not be read.
    Io(std::io::Error),
    /// A [PKL Error](rpkl::error::Error): the decoder rejected the module.
    PklError(::rpkl::Error),
}

impl From<std::io::Error> for PklLoaderError {
    fn from(error: std::io::Error) -> (classified: Self) {
        PklLoaderError::Io(error)
    }
}

impl FromSpecImpl<std::io::Error> for PklLoaderError {
    open spec fn obeys_from_spec() -> bool {
        true
    }

    open spec fn from_spec(error: std::io::Error) -> Self {
        PklLoaderError::Io(error)
    }
}

impl From<::rpkl::Error> for PklLoaderError {
    fn from(error: ::rpkl::Error) -> (classified: Self) {
        PklLoaderError::PklError(error)
    }
}

impl FromSpecImpl<::rpkl::Error> for PklLoaderError {
    open spec fn obeys_from_spec() -> bool {
        true
    }

    open spec fn from_spec(error: ::rpkl::Error) -> Self {
        PklLoaderError::PklError(error)
    }
}

impl PklLoaderError {
    /// The error as a line of text: which step failed, then the underlying
    /// error as it displays itself.
    pub fn message(&self) -> (text: String)
        ensures
            match self {
                PklLoaderError::Io(error) => exists|detail: String|
                    to_string_from_display_ensures::<std::io::Error>(error, detail) && text@
                        == "Could not read the file: "@ + detail@,
                PklLoaderError::PklError(error) => exists|detail: String|
                    to_string_from_display_ensures::<::rpkl::Error>(error, detail) && text@
                        == "Could not parse the PKL: "@ + detail@,
            },
    {
        match self {
            PklLoaderError::Io(error) => {
                let detail = error.to_string();
                let mut text = "Could not read the file: ".to_owned();
                text.append(detail.as_str());
                text
            },
            PklLoaderError::PklError(error) => {
                let detail = error.to_string();
                let mut text = "Could not parse the PKL: ".to_owned();
                text.append(detail.as_str());
                text
            },
        }
    }
}

/// What a load reports once the decoder has answered: the decoder's asset
/// exactly as it came, or the decoder's error as a decode failure.
pub open spec fn load_report<A>(decoded: Result<A, ::rpkl::Error>) -> Result<A, PklLoaderError> {
    match decoded {
        Ok(asset) => Ok(asset),
        Err(error) => Err(PklLoaderError::PklError(error)),
    }
}

impl<A> PklAssetLoader<A> {
    /// The extensions of the files this loader answers for, in the order
    /// they were configured.
    pub fn extensions(&self) -> (extensions: &[&'static str])
        ensures
            suffixes(extensions@) == self@,
    {
        self.extensions.as_slice()
    }

    /// Tells whether the asset at `path` falls to this loader: whether
    /// `path` ends with one of the loader's suffixes.
    pub fn claims(&self, path: &str) -> (b: bool)
        ensures
            b == routes(self@, path@),
    {
        self.extensions.claims(path)
    }

    /// Loads an asset from the answer that the Pkl decoder gave for the
    /// asset's file: the decoder's asset untouched, or its error as
    /// [`PklLoaderError::PklError`].
    pub fn load(&self, decoded: Result<A, ::rpkl::Error>) -> (report: Result<A, PklLoaderError>)
        ensures
            report == load_report(decoded),
    {
        match decoded {
            Ok(asset) => Ok(asset),
            Err(error) => Err(PklLoaderError::from(error)),
        }
    }
}

/// A load fails with the decoder's error and in no other way: the report is
/// a failure exactly when the decoder failed, and it is then a decode
/// failure that holds the decoder's error, never an I/O failure. An asset is
/// the one that the decoder gave.
pub proof fn lemma_load_classifies<A>(decoded: Result<A, ::rpkl::Error>)
    ensures
        load_report(decoded) is Err <==> decoded is Err,
        decoded matches Err(error) ==> load_report(decoded) == Err::<A, PklLoaderError>(
            PklLoaderError::PklError(error),
        ),
        decoded matches Ok(asset) ==> load_report(decoded) == Ok::<A, PklLoaderError>(asset),
        !(load_report(decoded) matches Err(PklLoaderError::Io(_))),
{
}

/// Loading keeps no state. What a load reports depends on what the decoder
/// answered, and on nothing else: not on the loader that runs it, nor on any
/// load before it. So two loads with the same answer report the same.
pub proof fn lemma_load_twice_reports_alike<A>(
    first_decoded: Result<A, ::rpkl::Error>,
    second_decoded: Result<A, ::rpkl::Error>,
)
    requires
        first_decoded == second_decoded,
    ensures
        load_report(first_decoded) == load_report(second_decoded),
{
}

} // verus!
