//! The loosely typed options that a manifest hands to a filter.

use vstd::hash_map::StringHashMap;
use vstd::prelude::*;

use crate::filters::AssetFilterCustomError;
use crate::filters::AssetFilterCustomErrorView;

verus! {

/// One option value, as a manifest states it.
#[derive(Debug, PartialEq, Eq)]
pub enum FilterOption {
    /// The option is present and carries no value.
    Flag,
    Bool(bool),
    String(String),
    StringList(Vec<String>),
}

/// The mathematical content of a [`FilterOption`].
pub enum FilterOptionView {
    Flag,
    Bool(bool),
    String(Seq<char>),
    StringList(Seq<Seq<char>>),
}

/// The texts of a list of strings, in order.
pub open spec fn texts(strings: Seq<String>) -> Seq<Seq<char>> {
    strings.map_values(|s: String| s@)
}

/// The text of a string that may be absent.
pub open spec fn optional_text(string: Option<String>) -> Option<Seq<char>> {
    match string {
        Some(s) => Some(s@),
        None => None,
    }
}

/// The texts of a list of strings that may be absent.
pub open spec fn optional_texts(strings: Option<Vec<String>>) -> Option<Seq<Seq<char>>> {
    match strings {
        Some(l) => Some(texts(l@)),
        None => None,
    }
}

impl View for FilterOption {
    type V = FilterOptionView;

    open spec fn view(&self) -> FilterOptionView {
        match self {
            FilterOption::Flag => FilterOptionView::Flag,
            FilterOption::Bool(value) => FilterOptionView::Bool(*value),
            FilterOption::String(value) => FilterOptionView::String(value@),
            FilterOption::StringList(values) => FilterOptionView::StringList(texts(values@)),
        }
    }
}

/// The string that `option` holds, if it holds one.
pub fn get_string(option: &FilterOption) -> (r: Option<String>)
    ensures
        match option@ {
            FilterOptionView::String(value) => r matches Some(s) && s@ == value,
            _ => r is None,
        },
{
    match option {
        FilterOption::String(value) => Some(value.clone()),
        _ => None,
    }
}

/// The list of strings that `option` holds, if it holds one.
pub fn get_string_list(option: &FilterOption) -> (r: Option<Vec<String>>)
    ensures
        match option@ {
            FilterOptionView::StringList(values) => r matches Some(l) && texts(l@) == values,
            _ => r is None,
        },
{
    match option {
        FilterOption::StringList(values) => {
            let copy = values.clone();
            assert(texts(copy@) =~= texts(values@));
            Some(copy)
        },
        _ => None,
    }
}

/// Whether a flag is set: `Some(true)` for the bare flag, `Some(false)` for
/// an option that was not given, `None` for a value of any other kind.
pub fn option_is_flag(option: Option<&FilterOption>) -> (r: Option<bool>)
    ensures
        r == spec_option_is_flag(
            match option {
                Some(o) => Some(o@),
                None => None,
            },
        ),
{
    match option {
        Some(FilterOption::Flag) => Some(true),
        None => Some(false),
        _ => None,
    }
}

/// What [`option_is_flag`] computes.
pub open spec fn spec_option_is_flag(option: Option<FilterOptionView>) -> Option<bool> {
    match option {
        Some(FilterOptionView::Flag) => Some(true),
        None => Some(false),
        _ => None,
    }
}

/// The options of one filter invocation, by name. A name occurs at most
/// once.
pub struct FilterOptions {
    map: StringHashMap<FilterOption>,
}

impl View for FilterOptions {
    type V = Map<Seq<char>, FilterOptionView>;

    closed spec fn view(&self) -> Map<Seq<char>, FilterOptionView> {
        self.map@.map_values(|option: FilterOption| option@)
    }
}

/// The string option `name`, which must be present.
pub open spec fn spec_required_string(
    options: Map<Seq<char>, FilterOptionView>,
    name: Seq<char>,
) -> Result<Seq<char>, AssetFilterCustomErrorView> {
    if !options.contains_key(name) {
        Err(AssetFilterCustomErrorView::RequiredOptionMissing(name))
    } else {
        match options[name] {
            FilterOptionView::String(value) => Ok(value),
            _ => Err(AssetFilterCustomErrorView::InvalidOptionType(name)),
        }
    }
}

/// The string option `name`, which may be absent.
pub open spec fn spec_optional_string(
    options: Map<Seq<char>, FilterOptionView>,
    name: Seq<char>,
) -> Result<Option<Seq<char>>, AssetFilterCustomErrorView> {
    if !options.contains_key(name) {
        Ok(None)
    } else {
        match options[name] {
            FilterOptionView::String(value) => Ok(Some(value)),
            _ => Err(AssetFilterCustomErrorView::InvalidOptionType(name)),
        }
    }
}

/// The string-list option `name`, which may be absent.
pub open spec fn spec_optional_string_list(
    options: Map<Seq<char>, FilterOptionView>,
    name: Seq<char>,
) -> Result<Option<Seq<Seq<char>>>, AssetFilterCustomErrorView> {
    if !options.contains_key(name) {
        Ok(None)
    } else {
        match options[name] {
            FilterOptionView::StringList(values) => Ok(Some(values)),
            _ => Err(AssetFilterCustomErrorView::InvalidOptionType(name)),
        }
    }
}

/// The flag `name`: set when present as a bare flag, clear when absent.
pub open spec fn spec_flag(
    options: Map<Seq<char>, FilterOptionView>,
    name: Seq<char>,
) -> Result<bool, AssetFilterCustomErrorView> {
    if !options.contains_key(name) {
        Ok(false)
    } else {
        match options[name] {
            FilterOptionView::Flag => Ok(true),
            _ => Err(AssetFilterCustomErrorView::InvalidOptionType(name)),
        }
    }
}

impl FilterOptions {
    /// No options.
    pub fn new() -> (r: Self)
        ensures
            r@ == Map::<Seq<char>, FilterOptionView>::empty(),
    {
        let r = FilterOptions { map: StringHashMap::new() };
        assert(r@ =~= Map::<Seq<char>, FilterOptionView>::empty());
        r
    }

    /// Gives the option `name` the value `option`, in place of any value it
    /// had.
    pub fn insert(&mut self, name: String, option: FilterOption)
        ensures
            final(self)@ == old(self)@.insert(name@, option@),
    {
        self.map.insert(name, option);
        assert(self@ =~= old(self)@.insert(name@, option@));
    }

    /// The value of the option `name`, if it was given.
    pub fn get(&self, name: &str) -> (r: Option<&FilterOption>)
        ensures
            match r {
                Some(option) => self@.contains_key(name@) && option@ == self@[name@],
                None => !self@.contains_key(name@),
            },
    {
        self.map.get(name)
    }

    /// The string option `name`; it is an error for it to be absent or to
    /// hold anything but a string.
    pub fn required_string(&self, name: &str) -> (r: Result<String, AssetFilterCustomError>)
        ensures
            match r {
                Ok(value) => spec_required_string(self@, name@) matches Ok(v) && v == value@,
                Err(err) => spec_required_string(self@, name@) matches Err(e) && e == err@,
            },
    {
        match self.get(name) {
            None => Err(AssetFilterCustomError::RequiredOptionMissing(name.to_owned())),
            Some(option) => match get_string(option) {
                Some(value) => Ok(value),
                None => Err(AssetFilterCustomError::InvalidOptionType(name.to_owned())),
            },
        }
    }

    /// The string option `name`, `None` when it was not given; it is an
    /// error for it to hold anything but a string.
    pub fn optional_string(&self, name: &str) -> (r: Result<
        Option<String>,
        AssetFilterCustomError,
    >)
        ensures
            match r {
                Ok(value) => spec_optional_string(self@, name@) matches Ok(v) && v == optional_text(
                    value,
                ),
                Err(err) => spec_optional_string(self@, name@) matches Err(e) && e == err@,
            },
    {
        match self.get(name) {
            None => Ok(None),
            Some(option) => match get_string(option) {
                Some(value) => Ok(Some(value)),
                None => Err(AssetFilterCustomError::InvalidOptionType(name.to_owned())),
            },
        }
    }

    /// The string-list option `name`, `None` when it was not given; it is an
    /// error for it to hold anything but a list of strings.
    pub fn optional_string_list(&self, name: &str) -> (r: Result<
        Option<Vec<String>>,
        AssetFilterCustomError,
    >)
        ensures
            match r {
                Ok(values) => spec_optional_string_list(self@, name@) matches Ok(v) && v
                    == optional_texts(values),
                Err(err) => spec_optional_string_list(self@, name@) matches Err(e) && e == err@,
            },
    {
        match self.get(name) {
            None => Ok(None),
            Some(option) => match get_string_list(option) {
                Some(values) => Ok(Some(values)),
                None => Err(AssetFilterCustomError::InvalidOptionType(name.to_owned())),
            },
        }
    }

    /// Whether the flag `name` is set. An absent flag is clear; it is an
    /// error for the option to hold a value of any kind.
    pub fn flag(&self, name: &str) -> (r: Result<bool, AssetFilterCustomError>)
        ensures
            match r {
                Ok(value) => spec_flag(self@, name@) matches Ok(v) && v == value,
                Err(err) => spec_flag(self@, name@) matches Err(e) && e == err@,
            },
    {
        match option_is_flag(self.get(name)) {
            Some(value) => Ok(value),
            None => Err(AssetFilterCustomError::InvalidOptionType(name.to_owned())),
        }
    }
}

} // verus!
