use crate::error::ErrorView;
use crate::error::StoreError;
use vstd::prelude::*;
use vstd::string::StrSliceExecFns;
use vstd::string::StringExecFns;

verus! {

/// The mathematical value of a location.
pub struct LocationView {
    pub directory: Seq<char>,
    pub database: Seq<char>,
}

/// Where the storage lives: the database file, and the directory that holds
/// it.
#[derive(Debug, PartialEq, Eq)]
pub struct Location {
    pub directory: String,
    pub database: String,
}

impl View for Location {
    type V = LocationView;

    open spec fn view(&self) -> LocationView {
        LocationView { directory: self.directory@, database: self.database@ }
    }
}

/// The path of `leaf` under the directory `base`: one slash stands between
/// them, the one that `base` ends with or a new one.
pub open spec fn joined(base: Seq<char>, leaf: Seq<char>) -> Seq<char> {
    if base.len() > 0 && base.last() == '/' {
        base + leaf
    } else {
        base + "/"@ + leaf
    }
}

/// Where the storage of the user whose home directory is `home` lives.
pub open spec fn location_of(home: Seq<char>) -> LocationView {
    LocationView {
        directory: joined(home, ".config"@),
        database: joined(joined(home, ".config"@), "gitru.db"@),
    }
}

/// The path of `leaf` under the directory `base`.
pub fn join(base: &str, leaf: &str) -> (path: String)
    ensures
        path@ == joined(base@, leaf@),
{
    let length = base.unicode_len();
    if length > 0 && base.get_char(length - 1) == '/' {
        base.to_owned().concat(leaf)
    } else {
        base.to_owned().concat("/").concat(leaf)
    }
}

/// Where the storage lives, for the home directory that the environment
/// gives. Fails with `StorageUnavailable` where it gives none, or an empty
/// one.
pub fn storage_location(home: Option<&str>) -> (r: Result<Location, StoreError>)
    ensures
        match home {
            Some(path) if path@.len() > 0 => r matches Ok(location) && location@ == location_of(
                path@,
            ),
            _ => r matches Err(e) && e@ == ErrorView::StorageUnavailable(
                "HOME environment variable not set"@,
            ),
        },
{
    match home {
        Some(path) if !path.is_empty() => {
            let directory = join(path, ".config");
            let database = join(directory.as_str(), "gitru.db");
            Ok(Location { directory, database })
        },
        _ => Err(StoreError::StorageUnavailable("HOME environment variable not set".to_owned())),
    }
}

} // verus!
