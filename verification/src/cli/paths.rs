//! Where the tool keeps its files, decided from what the environment says.

use vstd::prelude::*;
use crate::domain::text::{
    ascii_lower, ascii_lower_text, eq_ignoring_ascii_case, opt_text,
    same_text_ignoring_ascii_case, texts_of,
};

verus! {

/// The name of the directory of the tool.
pub const APP_DIR: &'static str = "aiboard";

/// The name of the file of the store.
pub const DB_FILE: &'static str = "aiboard.db";

/// The parts of the path of the store: the directory that was named for the tool's
/// data; else the tool's directory under the directory for local application data;
/// else the tool's directory under `.local/share` in the home directory; else
/// `.aiboard` where the tool runs. The file of the store stands in that directory.
pub open spec fn db_path_of(
    data_dir: Option<Seq<char>>,
    local_app_data: Option<Seq<char>>,
    home: Option<Seq<char>>,
) -> Seq<Seq<char>> {
    match data_dir {
        Some(dir) => seq![dir, DB_FILE@],
        None => match local_app_data {
            Some(data) => seq![data, APP_DIR@, DB_FILE@],
            None => match home {
                Some(h) => seq![h, ".local"@, "share"@, APP_DIR@, DB_FILE@],
                None => seq![".aiboard"@, DB_FILE@],
            },
        },
    }
}

/// The parts of the path of the store, to be joined by the caller.
pub fn db_path(
    data_dir: Option<String>,
    local_app_data: Option<String>,
    home: Option<String>,
) -> (parts: Vec<String>)
    ensures
        texts_of(parts@) == db_path_of(
            opt_text(data_dir),
            opt_text(local_app_data),
            opt_text(home),
        ),
{
    let mut parts: Vec<String> = Vec::new();
    match data_dir {
        Some(dir) => {
            parts.push(dir);
        },
        None => match local_app_data {
            Some(data) => {
                parts.push(data);
                parts.push(String::from_str(APP_DIR));
            },
            None => match home {
                Some(h) => {
                    parts.push(h);
                    parts.push(String::from_str(".local"));
                    parts.push(String::from_str("share"));
                    parts.push(String::from_str(APP_DIR));
                },
                None => {
                    parts.push(String::from_str(".aiboard"));
                },
            },
        },
    }
    parts.push(String::from_str(DB_FILE));
    assert(texts_of(parts@) =~= db_path_of(
        opt_text(data_dir),
        opt_text(local_app_data),
        opt_text(home),
    ));
    parts
}

/// The home directory: the user profile on Windows where there is one, else `HOME`,
/// else the directory where the tool runs.
pub open spec fn home_of(
    profile: Option<Seq<char>>,
    home: Option<Seq<char>>,
    windows: bool,
) -> Seq<char> {
    if windows && profile is Some {
        profile->0
    } else {
        match home {
            Some(h) => h,
            None => "."@,
        }
    }
}

/// The home directory.
pub fn home_dir(profile: Option<String>, home: Option<String>, windows: bool) -> (r: String)
    ensures
        r@ == home_of(opt_text(profile), opt_text(home), windows),
{
    if windows {
        if let Some(p) = profile {
            return p;
        }
    }
    match home {
        Some(h) => h,
        None => String::from_str("."),
    }
}

/// What `str::trim` leaves of a text.
pub uninterp spec fn trimmed_of(s: Seq<char>) -> Seq<char>;

/// `part` is a contiguous part of `s`.
pub open spec fn is_part_of(part: Seq<char>, s: Seq<char>) -> bool {
    exists|i: int, j: int| 0 <= i <= j <= s.len() && part == #[trigger] s.subrange(i, j)
}

/// `str::trim`: the text without the white space at its two ends, which is a
/// function of the text alone and a contiguous part of it.
#[verifier::external_body]
pub(crate) fn trimmed(s: &str) -> (r: String)
    ensures
        r@ == trimmed_of(s@),
        is_part_of(r@, s@),
{
    s.trim().to_string()
}

/// Whether an answer to a question agrees: it is `y` or `Y`, white space at its
/// ends apart. An answer that agrees holds a `y` or a `Y`.
pub fn is_confirmation(answer: &str) -> (r: bool)
    ensures
        r == eq_ignoring_ascii_case(trimmed_of(answer@), "y"@),
        r ==> answer@.contains('y') || answer@.contains('Y'),
{
    let t = trimmed(answer);
    let r = same_text_ignoring_ascii_case(t.as_str(), "y");
    proof {
        if r {
            reveal_strlit("y");
            let (i, j) = choose|i: int, j: int|
                0 <= i <= j <= answer@.len() && t@ == #[trigger] answer@.subrange(i, j);
            assert(ascii_lower_text(t@).len() == ascii_lower_text("y"@).len());
            assert(t@.len() == 1);
            assert(t@[0] == answer@[i]);
            assert(ascii_lower_text(t@)[0] == ascii_lower_text("y"@)[0]);
            assert(ascii_lower(t@[0]) == 'y');
            assert(answer@[i] == 'y' || answer@[i] == 'Y');
        }
    }
    r
}

} // verus!
