//! Where the configuration file, the history file and the cache directory
//! lie, decided from the directories that the environment names.
//!
//! Nothing here touches the file system: a location is a root directory
//! and the names to append to it. The directories that the environment's
//! variables name are supplied by the caller; the home directory is asked
//! for only where neither variable is set.

use vstd::prelude::*;
use std::path::PathBuf;

verus! {

/// `std::path::PathBuf`, which is carried through as it is and never looked
/// into.
#[verifier::external_type_specification]
#[verifier::external_body]
pub struct ExPathBuf(std::path::PathBuf);

/// Asks `home::home_dir` for the home directory of the current user. The
/// answer comes from the environment and the operating system, so nothing
/// is claimed of it: it may be any path, or none.
#[verifier::external_body]
fn home_dir() -> (r: Option<PathBuf>) {
    home::home_dir()
}

/// No home directory is known, and nothing else names the place.
#[derive(Clone, Copy, Debug, PartialEq, Eq, Structural)]
pub struct HomeDirError;

impl HomeDirError {
    /// The error in words.
    pub fn message(&self) -> (r: String)
        ensures
            r@ == "unable to find home directory"@,
    {
        "unable to find home directory".to_owned()
    }
}

/// One name on the way from a root directory to a location.
#[derive(Clone, Copy, Debug, PartialEq, Eq, Structural)]
pub enum Segment {
    Fend,
    DotConfig,
    ConfigToml,
    DotLocal,
    State,
    History,
    DotCache,
}

impl Segment {
    /// The name as it stands in a path.
    pub open spec fn name_spec(self) -> Seq<char> {
        match self {
            Segment::Fend => "fend"@,
            Segment::DotConfig => ".config"@,
            Segment::ConfigToml => "config.toml"@,
            Segment::DotLocal => ".local"@,
            Segment::State => "state"@,
            Segment::History => "history"@,
            Segment::DotCache => ".cache"@,
        }
    }

    /// The name as it stands in a path.
    pub fn name(self) -> (r: &'static str)
        ensures
            r@ == self.name_spec(),
    {
        match self {
            Segment::Fend => "fend",
            Segment::DotConfig => ".config",
            Segment::ConfigToml => "config.toml",
            Segment::DotLocal => ".local",
            Segment::State => "state",
            Segment::History => "history",
            Segment::DotCache => ".cache",
        }
    }
}

/// A location as a value: the root, the names appended to it in order, and
/// how many of them lead to the directory that is to be marked as hidden
/// (`Some(0)` is the root itself; `None` marks nothing).
pub struct Place<P> {
    pub root: P,
    pub segments: Seq<Segment>,
    pub hidden: Option<usize>,
}

/// A location below a root directory of type `P`.
#[derive(Clone, Debug, PartialEq, Eq)]
pub struct Location<P> {
    /// The directory that the environment named.
    pub root: P,
    /// The names to append to the root, in order.
    pub segments: Vec<Segment>,
    /// How many of the names lead to the directory to mark as hidden.
    pub hidden: Option<usize>,
}

impl<P> View for Location<P> {
    type V = Place<P>;

    open spec fn view(&self) -> Place<P> {
        Place { root: self.root, segments: self.segments@, hidden: self.hidden }
    }
}

impl<P> Place<P> {
    /// The place one name further down.
    pub open spec fn join(self, segment: Segment) -> Place<P> {
        Place { root: self.root, segments: self.segments.push(segment), hidden: self.hidden }
    }

    /// The root itself, with the directory to mark.
    pub open spec fn at(root: P, hidden: Option<usize>) -> Place<P> {
        Place { root, segments: Seq::empty(), hidden }
    }
}

impl<P> Location<P> {
    /// The location of the root itself.
    pub fn at(root: P, hidden: Option<usize>) -> (r: Self)
        ensures
            r@ == Place::at(root, hidden),
    {
        Location { root, segments: Vec::new(), hidden }
    }

    /// Appends one name.
    pub fn push(&mut self, segment: Segment)
        ensures
            final(self)@ == old(self)@.join(segment),
    {
        self.segments.push(segment);
    }
}

/// The directory that a choice among three sources gives: the program's own
/// variable if it is set, else the shared base directory with the program's
/// name, else the home directory with `below_home` and the program's name.
/// Of the shared base directory and of the first directory below home, the
/// one that is used is marked as hidden if `hide` says so.
pub open spec fn choose_dir<P>(
    own: Option<P>,
    shared: Option<P>,
    home: Option<P>,
    below_home: Seq<Segment>,
    hide: bool,
) -> Option<Place<P>> {
    if own is Some {
        Some(Place::at(own->Some_0, None))
    } else if shared is Some {
        Some(Place::at(shared->Some_0, if hide { Some(0usize) } else { None }).join(Segment::Fend))
    } else if home is Some {
        Some(
            Place {
                root: home->Some_0,
                segments: below_home.push(Segment::Fend),
                hidden: if hide { Some(1usize) } else { None },
            },
        )
    } else {
        None
    }
}

/// The directory of the configuration.
pub open spec fn config_dir_spec<P>(own: Option<P>, shared: Option<P>, home: Option<P>) -> Option<
    Place<P>,
> {
    choose_dir(own, shared, home, Seq::empty().push(Segment::DotConfig), false)
}

/// The directory of the program's state.
pub open spec fn state_dir_spec<P>(own: Option<P>, shared: Option<P>, home: Option<P>) -> Option<
    Place<P>,
> {
    choose_dir(own, shared, home, Seq::empty().push(Segment::DotLocal).push(Segment::State), true)
}

/// The directory of the cache.
pub open spec fn cache_dir_spec<P>(own: Option<P>, shared: Option<P>, home: Option<P>) -> Option<
    Place<P>,
> {
    choose_dir(own, shared, home, Seq::empty().push(Segment::DotCache), true)
}

/// A place one name further down, where there is a place.
pub open spec fn below<P>(dir: Option<Place<P>>, segment: Segment) -> Option<Place<P>> {
    match dir {
        Some(place) => Some(place.join(segment)),
        None => None,
    }
}

/// Whether `r` is the location `place`, or the error where there is none.
pub open spec fn locates<P>(r: Result<Location<P>, HomeDirError>, place: Option<Place<P>>) -> bool {
    match r {
        Ok(location) => place == Some(location@),
        Err(_) => place is None,
    }
}

/// The home directory, or the error where none is known.
pub fn home_or_error<P>(home: Option<P>) -> (r: Result<P, HomeDirError>)
    ensures
        r == match home {
            Some(dir) => Ok::<P, HomeDirError>(dir),
            None => Err(HomeDirError),
        },
{
    match home {
        Some(dir) => Ok(dir),
        None => Err(HomeDirError),
    }
}

/// The directory of the configuration: `own` is the value of
/// `FEND_CONFIG_DIR`, `shared` that of `XDG_CONFIG_HOME`, `home` the home
/// directory, each where it is set.
pub fn config_dir_from<P>(own: Option<P>, shared: Option<P>, home: Option<P>) -> (r: Result<
    Location<P>,
    HomeDirError,
>)
    ensures
        locates(r, config_dir_spec(own, shared, home)),
{
    if let Some(dir) = own {
        return Ok(Location::at(dir, None));
    }
    if let Some(dir) = shared {
        let mut res = Location::at(dir, None);
        res.push(Segment::Fend);
        return Ok(res);
    }
    let mut res = Location::at(home_or_error(home)?, None);
    res.push(Segment::DotConfig);
    res.push(Segment::Fend);
    Ok(res)
}

/// The configuration file: `config.toml` in the directory of the
/// configuration.
pub fn config_file_from<P>(own: Option<P>, shared: Option<P>, home: Option<P>) -> (r:
    Result<Location<P>, HomeDirError>)
    ensures
        locates(r, below(config_dir_spec(own, shared, home), Segment::ConfigToml)),
{
    let mut config_path = config_dir_from(own, shared, home)?;
    config_path.push(Segment::ConfigToml);
    Ok(config_path)
}

/// The directory of the program's state: `own` is the value of
/// `FEND_STATE_DIR`, `shared` that of `XDG_STATE_HOME`, `home` the home
/// directory, each where it is set.
pub fn state_dir_from<P>(own: Option<P>, shared: Option<P>, home: Option<P>) -> (r: Result<
    Location<P>,
    HomeDirError,
>)
    ensures
        locates(r, state_dir_spec(own, shared, home)),
{
    if let Some(dir) = own {
        return Ok(Location::at(dir, None));
    }
    if let Some(dir) = shared {
        let mut res = Location::at(dir, Some(0));
        res.push(Segment::Fend);
        return Ok(res);
    }
    let mut res = Location::at(home_or_error(home)?, Some(1));
    res.push(Segment::DotLocal);
    res.push(Segment::State);
    res.push(Segment::Fend);
    Ok(res)
}

/// The history file: `history` in the directory of the program's state.
pub fn history_file_from<P>(own: Option<P>, shared: Option<P>, home: Option<P>) -> (r:
    Result<Location<P>, HomeDirError>)
    ensures
        locates(r, below(state_dir_spec(own, shared, home), Segment::History)),
{
    let mut history_path = state_dir_from(own, shared, home)?;
    history_path.push(Segment::History);
    Ok(history_path)
}

/// The directory of the cache: `own` is the value of `FEND_CACHE_DIR`,
/// `shared` that of `XDG_CACHE_HOME`, `home` the home directory, each where
/// it is set.
pub fn cache_dir_from<P>(own: Option<P>, shared: Option<P>, home: Option<P>) -> (r: Result<
    Location<P>,
    HomeDirError,
>)
    ensures
        locates(r, cache_dir_spec(own, shared, home)),
{
    if let Some(dir) = own {
        return Ok(Location::at(dir, None));
    }
    if let Some(dir) = shared {
        let mut res = Location::at(dir, Some(0));
        res.push(Segment::Fend);
        return Ok(res);
    }
    let mut res = Location::at(home_or_error(home)?, Some(1));
    res.push(Segment::DotCache);
    res.push(Segment::Fend);
    Ok(res)
}

/// The home directory of the current user, or the error where none is
/// known.
pub fn get_home_dir() -> (r: Result<PathBuf, HomeDirError>) {
    home_or_error(home_dir())
}

/// The directory of the configuration: `own` is the value of
/// `FEND_CONFIG_DIR`, `shared` that of `XDG_CONFIG_HOME`, each where it is set.
/// The home directory is asked for only where neither `own` nor `shared`
/// is set, and is the root of the result then; without one the result is
/// the error.
pub fn get_config_dir(own: Option<PathBuf>, shared: Option<PathBuf>) -> (r: Result<
    Location<PathBuf>,
    HomeDirError,
>)
    ensures
        match r {
            Ok(location) => config_dir_spec(own, shared, Some(location.root)) == Some(location@),
            Err(_) => own is None && shared is None,
        },
{
    let home = if own.is_none() && shared.is_none() {
        home_dir()
    } else {
        None
    };
    config_dir_from(own, shared, home)
}

/// The configuration file, from the values of `FEND_CONFIG_DIR` and
/// `XDG_CONFIG_HOME`.
/// The home directory is asked for only where neither `own` nor `shared`
/// is set, and is the root of the result then; without one the result is
/// the error.
pub fn get_config_file_location(own: Option<PathBuf>, shared: Option<PathBuf>) -> (r: Result<
    Location<PathBuf>,
    HomeDirError,
>)
    ensures
        match r {
            Ok(location) => below(config_dir_spec(own, shared, Some(location.root)), Segment::ConfigToml) == Some(location@),
            Err(_) => own is None && shared is None,
        },
{
    let home = if own.is_none() && shared.is_none() {
        home_dir()
    } else {
        None
    };
    config_file_from(own, shared, home)
}

/// The directory of the program's state: `own` is the value of
/// `FEND_STATE_DIR`, `shared` that of `XDG_STATE_HOME`, each where it is set.
/// The home directory is asked for only where neither `own` nor `shared`
/// is set, and is the root of the result then; without one the result is
/// the error.
pub fn get_state_dir(own: Option<PathBuf>, shared: Option<PathBuf>) -> (r: Result<
    Location<PathBuf>,
    HomeDirError,
>)
    ensures
        match r {
            Ok(location) => state_dir_spec(own, shared, Some(location.root)) == Some(location@),
            Err(_) => own is None && shared is None,
        },
{
    let home = if own.is_none() && shared.is_none() {
        home_dir()
    } else {
        None
    };
    state_dir_from(own, shared, home)
}

/// The history file, from the values of `FEND_STATE_DIR` and
/// `XDG_STATE_HOME`.
/// The home directory is asked for only where neither `own` nor `shared`
/// is set, and is the root of the result then; without one the result is
/// the error.
pub fn get_history_file_location(own: Option<PathBuf>, shared: Option<PathBuf>) -> (r: Result<
    Location<PathBuf>,
    HomeDirError,
>)
    ensures
        match r {
            Ok(location) => below(state_dir_spec(own, shared, Some(location.root)), Segment::History) == Some(location@),
            Err(_) => own is None && shared is None,
        },
{
    let home = if own.is_none() && shared.is_none() {
        home_dir()
    } else {
        None
    };
    history_file_from(own, shared, home)
}

/// The directory of the cache: `own` is the value of `FEND_CACHE_DIR`,
/// `shared` that of `XDG_CACHE_HOME`, each where it is set.
/// The home directory is asked for only where neither `own` nor `shared`
/// is set, and is the root of the result then; without one the result is
/// the error.
pub fn get_cache_dir(own: Option<PathBuf>, shared: Option<PathBuf>) -> (r: Result<
    Location<PathBuf>,
    HomeDirError,
>)
    ensures
        match r {
            Ok(location) => cache_dir_spec(own, shared, Some(location.root)) == Some(location@),
            Err(_) => own is None && shared is None,
        },
{
    let home = if own.is_none() && shared.is_none() {
        home_dir()
    } else {
        None
    };
    cache_dir_from(own, shared, home)
}

} // verus!
