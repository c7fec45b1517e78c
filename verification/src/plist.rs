//! Loading assets from property-list files.
//!
//! A property list is read whole into memory and then decoded. The caller
//! does the reading and owns the decoder; [`PlistAssetLoader::load`] takes
//! the result of the read and the decoder, runs the decoder on the bytes that
//! were read, and reports either the decoded asset or which of the two steps
//! failed.

use crate::routing::{routes, suffixes, ExtensionSet};
use std::marker::PhantomData;
use vstd::prelude::*;
use vstd::std_specs::convert::FromSpecImpl;
use vstd::string::{to_string_from_display_ensures, StringExecFns};

verus! {

/// `plist::Error`, the failure of the property-list decoder. The library
/// carries such a value from the decoder into [`PlistLoaderError`] and never
/// looks inside.
#[verifier::external_type_specification]
#[verifier::external_body]
pub struct ExPlistError(::plist::Error);

/// Plugin to load your asset type `A` from plist files.
///
/// It holds the configuration from which the loader is made when the plugin
/// is registered with an application.
pub struct PlistAssetPlugin<A> {
    extensions: ExtensionSet,
    _marker: PhantomData<A>,
}

impl<A> View for PlistAssetPlugin<A> {
    type V = Seq<Seq<char>>;

    /// The suffixes the plugin was configured with.
    closed spec fn view(&self) -> Seq<Seq<char>> {
        self.extensions@
    }
}

impl<A> PlistAssetPlugin<A> {
    /// Create a new plugin that will load assets from files with the given extensions.
    pub fn new(extensions: &[&'static str]) -> (plugin: Self)
        ensures
            plugin@ == suffixes(extensions@),
    {
        PlistAssetPlugin { extensions: ExtensionSet::new(extensions), _marker: PhantomData }
    }

    /// Makes the loader that this plugin registers. The loader gets a copy
    /// of the plugin's suffixes and shares nothing with the plugin.
    pub fn loader(&self) -> (loader: PlistAssetLoader<A>)
        ensures
            loader@ == self@,
    {
        PlistAssetLoader {
            extensions: ExtensionSet::new(self.extensions.as_slice()),
            _marker: PhantomData,
        }
    }
}

/// Loads your asset type `A` from plist files
///
/// A loader holds its suffixes and nothing else. No load changes it, and no
/// load depends on an earlier one.
pub struct PlistAssetLoader<A> {
    extensions: ExtensionSet,
    _marker: PhantomData<A>,
}

impl<A> View for PlistAssetLoader<A> {
    type V = Seq<Seq<char>>;

    /// The suffixes the loader answers for.
    closed spec fn view(&self) -> Seq<Seq<char>> {
        self.extensions@
    }
}

/// Possible errors that can be produced by [`PlistAssetLoader`]
#[non_exhaustive]
#[derive(Debug)]
pub enum PlistLoaderError {
    /// An [IO Error](std::io::Error): the input could not be read.
    Io(std::io::Error),
    /// A [Plist Error](plist::Error): the decoder rejected what was read.
    PlistError(::plist::Error),
}

impl From<std::io::Error> for PlistLoaderError {
    fn from(error: std::io::Error) -> (classified: Self) {
        PlistLoaderError::Io(error)
    }
}

impl FromSpecImpl<std::io::Error> for PlistLoaderError {
    open spec fn obeys_from_spec() -> bool {
        true
    }

    open spec fn from_spec(error: std::io::Error) -> Self {
        PlistLoaderError::Io(error)
    }
}

impl From<::plist::Error> for PlistLoaderError {
    fn from(error: ::plist::Error) -> (classified: Self) {
        PlistLoaderError::PlistError(error)
    }
}

impl FromSpecImpl<::plist::Error> for PlistLoaderError {
    open spec fn obeys_from_spec() -> bool {
        true
    }

    open spec fn from_spec(error: ::plist::Error) -> Self {
        PlistLoaderError::PlistError(error)
    }
}

impl PlistLoaderError {
    /// The error as a line of text: which step failed, then the underlying
    /// error as it displays itself.
    pub fn message(&self) -> (text: String)
        ensures
            match self {
                PlistLoaderError::Io(error) => exists|detail: String|
                    to_string_from_display_ensures::<std::io::Error>(error, detail) && text@
                        == "Could not read the file: "@ + detail@,
                PlistLoaderError::PlistError(error) => exists|detail: String|
                    to_string_from_display_ensures::<::plist::Error>(error, detail) && text@
                        == "Could not parse the Plist: "@ + detail@,
            },
    {
        match self {
            PlistLoaderError::Io(error) => {
                let detail = error.to_string();
                let mut text = "Could not read the file: ".to_owned();
                text.append(detail.as_str());
                text
            },
            PlistLoaderError::PlistError(error) => {
                let detail = error.to_string();
                let mut text = "Could not parse the Plist: ".to_owned();
                text.append(detail.as_str());
                text
            },
        }
    }
}

/// What a load reports once the decoder has answered: the decoder's asset
/// exactly as it came, or the decoder's error as a decode failure.
pub open spec fn decode_report<A>(decoded: Result<A, ::plist::Error>) -> Result<
    A,
    PlistLoaderError,
> {
    match decoded {
        Ok(asset) => Ok(asset),
        Err(error) => Err(PlistLoaderError::PlistError(error)),
    }
}

/// `report` is what a load reports when reading the input gave `read` and
/// the decoder at hand is `decode`.
///
/// A failed read is reported as an I/O failure that holds the error of the
/// read, whatever the decoder would have said. After a read that gave bytes,
/// the report is [`decode_report`] of an answer of `decode` to exactly those
/// bytes.
pub open spec fn load_reports<A, F>(
    read: Result<Vec<u8>, std::io::Error>,
    decode: F,
    report: Result<A, PlistLoaderError>,
) -> bool where F: FnOnce(Vec<u8>) -> Result<A, ::plist::Error> {
    match read {
        Ok(bytes) => exists|decoded: Result<A, ::plist::Error>|
            #[trigger] decode.ensures((bytes,), decoded) && report == decode_report(decoded),
        Err(error) => report == Err::<A, PlistLoaderError>(PlistLoaderError::Io(error)),
    }
}

impl<A> PlistAssetLoader<A> {
    /// The extensions of the files this loader answers for, in the order
    /// they were configured.
    pub fn extensions(&self) -> (extensions: &[&'static str])
        ensures
            suffixes(extensions@) == self@,
    {
        self.extensions.as_slice()
    }

    /// Tells whether the asset at `path` falls to this loader: whether
    /// `path` ends with one of the loader's suffixes.
    pub fn claims(&self, path: &str) -> (b: bool)
        ensures
            b == routes(self@, path@),
    {
        self.extensions.claims(path)
    }

    /// Reports the answer of the decoder: its asset untouched, or its error
    /// as [`PlistLoaderError::PlistError`].
    pub fn finish(&self, decoded: Result<A, ::plist::Error>) -> (report: Result<
        A,
        PlistLoaderError,
    >)
        ensures
            report == decode_report(decoded),
    {
        match decoded {
            Ok(asset) => Ok(asset),
            Err(error) => Err(PlistLoaderError::from(error)),
        }
    }

    /// Loads an asset from input that the caller has read to its end.
    ///
    /// `read` is the outcome of that read: all bytes of the input, or the
    /// error that stopped it. Where the read failed, the load fails with
    /// [`PlistLoaderError::Io`] and `decode` is not run. Otherwise `decode`
    /// is run once, on exactly the bytes read, and its answer is reported as
    /// by [`finish`](Self::finish): the asset as the decoder made it, or
    /// [`PlistLoaderError::PlistError`]. Nothing is tried a second time.
    pub fn load<F>(&self, read: Result<Vec<u8>, std::io::Error>, decode: F) -> (report: Result<
        A,
        PlistLoaderError,
    >) where F: FnOnce(Vec<u8>) -> Result<A, ::plist::Error>
        requires
            read matches Ok(bytes) ==> decode.requires((bytes,)),
        ensures
            load_reports(read, decode, report),
    {
        match read {
            Ok(bytes) => {
                let decoded = decode(bytes);
                self.finish(decoded)
            },
            Err(error) => Err(PlistLoaderError::from(error)),
        }
    }
}

/// The two kinds of failure are kept apart, and an asset comes from the
/// decoder alone. A load reports an I/O failure exactly when the read
/// failed, and then with the error of the read. A decode failure holds an
/// error that the decoder gave for the bytes read, and an asset is one that
/// the decoder gave for them.
pub proof fn lemma_load_classifies<A, F>(
    read: Result<Vec<u8>, std::io::Error>,
    decode: F,
    report: Result<A, PlistLoaderError>,
) where F: FnOnce(Vec<u8>) -> Result<A, ::plist::Error>
    requires
        load_reports(read, decode, report),
    ensures
        read is Err <==> report matches Err(PlistLoaderError::Io(_)),
        read matches Err(error) ==> report == Err::<A, PlistLoaderError>(
            PlistLoaderError::Io(error),
        ),
        report matches Err(PlistLoaderError::PlistError(error)) ==> read matches Ok(bytes)
            && decode.ensures((bytes,), Err::<A, ::plist::Error>(error)),
        report matches Ok(asset) ==> read matches Ok(bytes) && decode.ensures(
            (bytes,),
            Ok::<A, ::plist::Error>(asset),
        ),
{
}

/// Loading keeps no state. What a load reports depends on what was read and
/// on what the decoder answers, and on nothing else: not on the loader that
/// runs it, nor on any load before it. So two loads of the same input, with
/// decoders that answer alike on it, report the same.
pub proof fn lemma_load_twice_reports_alike<A, F, G>(
    read: Result<Vec<u8>, std::io::Error>,
    first_decode: F,
    second_decode: G,
    first: Result<A, PlistLoaderError>,
    second: Result<A, PlistLoaderError>,
) where
    F: FnOnce(Vec<u8>) -> Result<A, ::plist::Error>,
    G: FnOnce(Vec<u8>) -> Result<A, ::plist::Error>,

    requires
        load_reports(read, first_decode, first),
        load_reports(read, second_decode, second),
        read matches Ok(bytes) ==> forall|
            a: Result<A, ::plist::Error>,
            b: Result<A, ::plist::Error>,
        |
            #![trigger first_decode.ensures((bytes,), a), second_decode.ensures((bytes,), b)]
            first_decode.ensures((bytes,), a) && second_decode.ensures((bytes,), b) ==> a == b,
    ensures
        first == second,
{
}

} // verus!
