//! The template function that turns the logical name of an asset into its
//! URL.
//!
//! The asset packer gives each asset a path that changes with the asset's
//! content and records it in the cache manifest. A template names an asset
//! by its logical name; the function looks the name up and puts the base URL
//! before the recorded path.

use artushak_web_assets::asset_cache::AssetCacheManifestV1;
use vstd::hash_map::StringHashMap;
use vstd::prelude::*;
use vstd::string::StringExecFns;

use crate::filters::options::optional_text;

verus! {

#[verifier::external_type_specification]
#[verifier::external_body]
pub struct ExAssetCacheManifestV1(AssetCacheManifestV1);

/// The name under which the template engine is to know the function.
pub const FUNCTION_NAME: &'static str = "get_asset_url";

/// The name of the function's one parameter: the logical name of the
/// asset.
pub const NAME_PARAMETER: &'static str = "name";

/// What a cache manifest records: for each logical asset name that it
/// holds, the path of the asset as text, or `None` where the path is not
/// valid Unicode and so has no text.
pub uninterp spec fn cached_paths(manifest: AssetCacheManifestV1) -> Map<
    Seq<char>,
    Option<Seq<char>>,
>;

/// Calls `AssetCacheManifestV1::get_entry` and hands out the path of the
/// entry found, as text. The outer `Option` says whether the manifest holds
/// an entry for `name`; the inner one is `None` for a path that is not valid
/// Unicode. Both are as [`cached_paths`] has them.
#[verifier::external_body]
fn cached_path(manifest: &AssetCacheManifestV1, name: &str) -> (r: Option<Option<String>>)
    ensures
        match r {
            Some(path) => cached_paths(*manifest).contains_key(name@) && cached_paths(
                *manifest,
            )[name@] == optional_text(path),
            None => !cached_paths(*manifest).contains_key(name@),
        },
{
    manifest.get_entry(name).map(|entry| entry.path.to_str().map(|path| path.to_owned()))
}

/// A value that a template passes to a function.
#[derive(Debug, PartialEq, Eq)]
pub enum ArgumentValue {
    String(String),
    /// Any value that is not a string.
    Other,
}

/// The mathematical content of an [`ArgumentValue`].
pub enum ArgumentValueView {
    String(Seq<char>),
    Other,
}

impl View for ArgumentValue {
    type V = ArgumentValueView;

    open spec fn view(&self) -> ArgumentValueView {
        match self {
            ArgumentValue::String(value) => ArgumentValueView::String(value@),
            ArgumentValue::Other => ArgumentValueView::Other,
        }
    }
}

/// The arguments of one call of a template function, by parameter name.
pub struct Arguments {
    map: StringHashMap<ArgumentValue>,
}

impl View for Arguments {
    type V = Map<Seq<char>, ArgumentValueView>;

    closed spec fn view(&self) -> Map<Seq<char>, ArgumentValueView> {
        self.map@.map_values(|value: ArgumentValue| value@)
    }
}

impl Arguments {
    /// No arguments.
    pub fn new() -> (r: Self)
        ensures
            r@ == Map::<Seq<char>, ArgumentValueView>::empty(),
    {
        let r = Arguments { map: StringHashMap::new() };
        assert(r@ =~= Map::<Seq<char>, ArgumentValueView>::empty());
        r
    }

    /// Gives the parameter `name` the value `value`, in place of any value
    /// it had.
    pub fn insert(&mut self, name: String, value: ArgumentValue)
        ensures
            final(self)@ == old(self)@.insert(name@, value@),
    {
        self.map.insert(name, value);
        assert(self@ =~= old(self)@.insert(name@, value@));
    }

    /// The value of the parameter `name`, if it was given.
    pub fn get(&self, name: &str) -> (r: Option<&ArgumentValue>)
        ensures
            match r {
                Some(value) => self@.contains_key(name@) && value@ == self@[name@],
                None => !self@.contains_key(name@),
            },
    {
        self.map.get(name)
    }
}

/// Why a call of the function gave no URL.
#[derive(Debug, PartialEq, Eq)]
pub enum AssetUrlError {
    /// The call has no argument `name`.
    ParameterRequired,
    /// The argument `name` is not a string.
    ParameterNotString,
    /// The cache manifest has no asset of this name.
    AssetNotFound(String),
    /// The cache manifest has the asset of this name under a path that is
    /// not valid Unicode, of which no URL can be made.
    AssetPathNotUnicode(String),
}

/// The mathematical content of an [`AssetUrlError`].
pub enum AssetUrlErrorView {
    ParameterRequired,
    ParameterNotString,
    AssetNotFound(Seq<char>),
    AssetPathNotUnicode(Seq<char>),
}

impl AssetUrlErrorView {
    /// The error in words.
    pub open spec fn message(self) -> Seq<char> {
        match self {
            AssetUrlErrorView::ParameterRequired => "Parameter 'name' is required"@,
            AssetUrlErrorView::ParameterNotString => "Parameter 'name' should be string"@,
            AssetUrlErrorView::AssetNotFound(name) => "Asset "@ + name + " not found"@,
            AssetUrlErrorView::AssetPathNotUnicode(name) => "Asset "@ + name
                + " has a path that is not valid Unicode"@,
        }
    }
}

impl View for AssetUrlError {
    type V = AssetUrlErrorView;

    open spec fn view(&self) -> AssetUrlErrorView {
        match self {
            AssetUrlError::ParameterRequired => AssetUrlErrorView::ParameterRequired,
            AssetUrlError::ParameterNotString => AssetUrlErrorView::ParameterNotString,
            AssetUrlError::AssetNotFound(name) => AssetUrlErrorView::AssetNotFound(name@),
            AssetUrlError::AssetPathNotUnicode(name) => AssetUrlErrorView::AssetPathNotUnicode(
                name@,
            ),
        }
    }
}

impl AssetUrlError {
    /// The error in words, as the template engine is to report it.
    pub fn message(&self) -> (r: String)
        ensures
            r@ == self@.message(),
    {
        match self {
            AssetUrlError::ParameterRequired => "Parameter 'name' is required".to_owned(),
            AssetUrlError::ParameterNotString => "Parameter 'name' should be string".to_owned(),
            AssetUrlError::AssetNotFound(name) => {
                "Asset ".to_owned().concat(name.as_str()).concat(" not found")
            },
            AssetUrlError::AssetPathNotUnicode(name) => {
                "Asset ".to_owned().concat(name.as_str()).concat(
                    " has a path that is not valid Unicode",
                )
            },
        }
    }
}

/// The function `get_asset_url` of the templates: a cache manifest and the
/// base URL of the assets.
pub struct AssetUrlFunction {
    pub asset_cache_manifest: AssetCacheManifestV1,
    pub base_url: String,
}

/// The URL of the asset `name`, given what the cache manifest records and
/// the base URL: the base URL and then the path, with nothing between them.
pub open spec fn spec_asset_url(
    paths: Map<Seq<char>, Option<Seq<char>>>,
    base_url: Seq<char>,
    name: Seq<char>,
) -> Result<Seq<char>, AssetUrlErrorView> {
    if !paths.contains_key(name) {
        Err(AssetUrlErrorView::AssetNotFound(name))
    } else {
        match paths[name] {
            Some(path) => Ok(base_url + path),
            None => Err(AssetUrlErrorView::AssetPathNotUnicode(name)),
        }
    }
}

/// The result of a call with the given arguments.
pub open spec fn spec_call(
    paths: Map<Seq<char>, Option<Seq<char>>>,
    base_url: Seq<char>,
    arguments: Map<Seq<char>, ArgumentValueView>,
) -> Result<Seq<char>, AssetUrlErrorView> {
    if !arguments.contains_key(NAME_PARAMETER@) {
        Err(AssetUrlErrorView::ParameterRequired)
    } else {
        match arguments[NAME_PARAMETER@] {
            ArgumentValueView::String(name) => spec_asset_url(paths, base_url, name),
            ArgumentValueView::Other => Err(AssetUrlErrorView::ParameterNotString),
        }
    }
}

/// The function `get_asset_url` over the given cache manifest and base URL.
pub fn get_tera_function_get_asset_url(
    asset_cache_manifest: AssetCacheManifestV1,
    base_url: String,
) -> (r: AssetUrlFunction)
    ensures
        r.asset_cache_manifest == asset_cache_manifest,
        r.base_url == base_url,
{
    AssetUrlFunction { asset_cache_manifest, base_url }
}

/// What a lookup in a cache manifest found, as [`spec_asset_url`] reads it:
/// the map that holds `name` with what was found, and nothing else.
pub open spec fn found_paths(name: Seq<char>, found: Option<Option<String>>) -> Map<
    Seq<char>,
    Option<Seq<char>>,
> {
    match found {
        Some(path) => Map::empty().insert(name, optional_text(path)),
        None => Map::empty(),
    }
}

/// The URL of the asset `name`, given what the lookup of `name` in the
/// cache manifest found: nothing, an entry whose path is not valid Unicode,
/// or an entry with its path.
pub fn url_of_found(base_url: &str, name: &str, found: Option<Option<String>>) -> (r: Result<
    String,
    AssetUrlError,
>)
    ensures
        match r {
            Ok(url) => spec_asset_url(found_paths(name@, found), base_url@, name@) matches Ok(u)
                && u == url@,
            Err(err) => spec_asset_url(found_paths(name@, found), base_url@, name@) matches Err(e)
                && e == err@,
        },
{
    match found {
        None => Err(AssetUrlError::AssetNotFound(name.to_owned())),
        Some(None) => Err(AssetUrlError::AssetPathNotUnicode(name.to_owned())),
        Some(Some(path)) => Ok(base_url.to_owned().concat(path.as_str())),
    }
}

impl AssetUrlFunction {
    /// The URL of the asset with the logical name `name`.
    pub fn asset_url(&self, name: &str) -> (r: Result<String, AssetUrlError>)
        ensures
            match r {
                Ok(url) => spec_asset_url(
                    cached_paths(self.asset_cache_manifest),
                    self.base_url@,
                    name@,
                ) matches Ok(u) && u == url@,
                Err(err) => spec_asset_url(
                    cached_paths(self.asset_cache_manifest),
                    self.base_url@,
                    name@,
                ) matches Err(e) && e == err@,
            },
            cached_paths(self.asset_cache_manifest).contains_key(name@) ==> (cached_paths(
                self.asset_cache_manifest,
            )[name@] matches Some(path) ==> (r matches Ok(url) && url@ == self.base_url@ + path)),
            !cached_paths(self.asset_cache_manifest).contains_key(name@) ==> (r matches Err(err)
                && err@ == AssetUrlErrorView::AssetNotFound(name@)),
    {
        url_of_found(self.base_url.as_str(), name, cached_path(&self.asset_cache_manifest, name))
    }

    /// Calls the function with `arguments`. The argument `name` is required
    /// and must be a string; other arguments are ignored.
    pub fn call(&self, arguments: &Arguments) -> (r: Result<String, AssetUrlError>)
        ensures
            match r {
                Ok(url) => spec_call(
                    cached_paths(self.asset_cache_manifest),
                    self.base_url@,
                    arguments@,
                ) matches Ok(u) && u == url@,
                Err(err) => spec_call(
                    cached_paths(self.asset_cache_manifest),
                    self.base_url@,
                    arguments@,
                ) matches Err(e) && e == err@,
            },
            !arguments@.contains_key(NAME_PARAMETER@) ==> (r matches Err(err) && err@
                == AssetUrlErrorView::ParameterRequired),
            arguments@.contains_key(NAME_PARAMETER@) && arguments@[NAME_PARAMETER@]
                == ArgumentValueView::Other ==> (r matches Err(err) && err@
                == AssetUrlErrorView::ParameterNotString),
    {
        match arguments.get(NAME_PARAMETER) {
            None => Err(AssetUrlError::ParameterRequired),
            Some(ArgumentValue::Other) => Err(AssetUrlError::ParameterNotString),
            Some(ArgumentValue::String(name)) => self.asset_url(name.as_str()),
        }
    }
}

} // verus!
