//! How the copy of the store is named that is made before data is deleted.

use vstd::prelude::*;
use crate::domain::instant::{utc_text, write_utc, Timestamp};
use crate::domain::text::opt_str;

verus! {

/// The format of the instant in the name of a backup: `YYYYMMDDHHMMSS`.
pub const BACKUP_STAMP_FORMAT: &'static str = "%Y%m%d%H%M%S";

/// The name of the store's file where the path to it ends in none.
pub const DEFAULT_DB_NAME: &'static str = "aiboard.db";

/// The name of the backup of a file: the file's name, `.bak.`, and the instant.
pub open spec fn backup_name_of(file_name: Option<Seq<char>>, stamp: Seq<char>) -> Seq<char> {
    (match file_name {
        Some(n) => n,
        None => DEFAULT_DB_NAME@,
    }) + ".bak."@ + stamp
}

/// The instant `at` as it stands in the name of a backup, if it can be written.
pub fn backup_stamp(at: &Timestamp) -> (r: Option<String>)
    ensures
        match r {
            Some(s) => utc_text(at.secs as int, at.nanos as int, BACKUP_STAMP_FORMAT@) == Some(s@),
            None => utc_text(at.secs as int, at.nanos as int, BACKUP_STAMP_FORMAT@) is None,
        },
{
    write_utc(at.secs, at.nanos, BACKUP_STAMP_FORMAT)
}

/// The name of the backup of the file named `file_name`, made at the instant whose
/// text is `stamp`.
pub fn backup_file_name(file_name: Option<&str>, stamp: &str) -> (r: String)
    ensures
        r@ == backup_name_of(opt_str(file_name), stamp@),
{
    let mut r = match file_name {
        Some(n) => String::from_str(n),
        None => String::from_str(DEFAULT_DB_NAME),
    };
    r.append(".bak.");
    r.append(stamp);
    r
}

} // verus!
