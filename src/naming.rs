use crate::stamp::{date_text, format_date, format_time, time_text, Stamp};
use vstd::prelude::*;
use vstd::string::*;

verus! {

/// The part of a dated file's name that comes from the clock: the date, and
/// with `fine` also the time of day (`YYYY-MM-DD.HHMMSS`), so that rotations
/// within one day get files of their own.
pub open spec fn label_text(s: Stamp, fine: bool) -> Seq<char> {
    let date = date_text(s.year as int, s.month as int, s.day as int);
    if fine {
        date + seq!['.'] + time_text(s.hour as int, s.minute as int, s.second as int)
    } else {
        date
    }
}

/// The name of the file that receives the log at `s`: `base-<label>`.
pub open spec fn dated_name(base: Seq<char>, s: Stamp, fine: bool) -> Seq<char> {
    base + seq!['-'] + label_text(s, fine)
}

/// `name` inside `folder`, with one separator between them.
pub open spec fn joined(folder: Seq<char>, name: Seq<char>) -> Seq<char> {
    if folder.len() == 0 {
        name
    } else if folder.last() == '/' {
        folder + name
    } else {
        folder + seq!['/'] + name
    }
}

pub open spec fn gz_suffix() -> Seq<char> {
    seq!['.', 'g', 'z']
}

/// A path that already names a compressed file.
pub open spec fn is_archive(path: Seq<char>) -> bool {
    path.len() >= 3 && path.subrange(path.len() - 3, path.len() as int) == gz_suffix()
}

/// Where the compressed copy of `path` is written.
pub open spec fn archive_of(path: Seq<char>) -> Seq<char> {
    path + gz_suffix()
}

/// The clock part of a dated file name.
pub fn stamp_label(s: &Stamp, fine: bool) -> (r: String)
    requires
        s.wf(),
    ensures
        r@ == label_text(*s, fine),
{
    let date = format_date(s.year, s.month, s.day);
    if fine {
        let time = format_time(s.hour, s.minute, s.second);
        proof { reveal_strlit("."); }
        let with_dot = date.concat(".");
        with_dot.concat(time.as_str())
    } else {
        date
    }
}

/// The name of the dated file for `base` at `s`.
pub fn dated_filename(base: &str, s: &Stamp, fine: bool) -> (r: String)
    requires
        s.wf(),
    ensures
        r@ == dated_name(base@, *s, fine),
{
    let label = stamp_label(s, fine);
    proof { reveal_strlit("-"); }
    let head = base.to_owned().concat("-");
    head.concat(label.as_str())
}

/// The path of `name` inside `folder`.
pub fn join_path(folder: &str, name: &str) -> (r: String)
    ensures
        r@ == joined(folder@, name@),
{
    let n = folder.unicode_len();
    if n == 0 {
        name.to_owned()
    } else if folder.get_char(n - 1) == '/' {
        folder.to_owned().concat(name)
    } else {
        proof { reveal_strlit("/"); }
        folder.to_owned().concat("/").concat(name)
    }
}

/// Whether `path` ends in `.gz`.
pub fn is_archive_path(path: &str) -> (r: bool)
    ensures
        r == is_archive(path@),
{
    let n = path.unicode_len();
    if n < 3 {
        return false;
    }
    let a = path.get_char(n - 3);
    let b = path.get_char(n - 2);
    let c = path.get_char(n - 1);
    let r = a == '.' && b == 'g' && c == 'z';
    proof {
        let tail = path@.subrange(n - 3, n as int);
        if r {
            assert(tail =~= gz_suffix());
        } else {
            assert(tail[0] == a && tail[1] == b && tail[2] == c);
        }
    }
    r
}

/// The path of the compressed copy of `path`.
pub fn archive_path(path: &str) -> (r: String)
    ensures
        r@ == archive_of(path@),
{
    proof { reveal_strlit(".gz"); }
    path.to_owned().concat(".gz")
}

} // verus!
