//! Date and path helpers: user-friendly date rendering, expiry checks, and
//! file-extension extraction.
use vstd::prelude::*;
use vstd::string::StrSliceExecFns;

use crate::dates;
use crate::dates::{Date, date_lt, formatted_date, parsed_ymd};

verus! {

/// Format a date string in a user-friendly way: a string holding a
/// `YYYY-MM-DD` date becomes `DD Mon YYYY`; any other string is returned
/// unchanged.
pub fn format_date(date_str: &str) -> (r: String)
    ensures
        parsed_ymd(date_str@) is None ==> r@ == date_str@,
        parsed_ymd(date_str@) matches Some(d) ==> r@ == formatted_date(d),
{
    match dates::parse_ymd(date_str) {
        Some(d) => dates::format_ymd(d),
        None => date_str.to_owned(),
    }
}

/// Whether a date string holds a date strictly before the given day; a
/// string that holds no date counts as not expired.
pub fn is_expired_on(date_str: &str, today: Date) -> (r: bool)
    ensures
        r == match parsed_ymd(date_str@) {
            Some(d) => date_lt(d, today),
            None => false,
        },
{
    match dates::parse_ymd(date_str) {
        Some(d) => dates::date_before(d, today),
        None => false,
    }
}

/// Check if a date string is expired, measured against the current day in
/// UTC; a string that holds no date counts as not expired.
pub fn is_expired(date_str: &str) -> (r: bool)
    ensures
        parsed_ymd(date_str@) is None ==> !r,
{
    let t = dates::today();
    is_expired_on(date_str, t)
}

/// What remains of `s` after the last occurrence of `c`; all of `s` where
/// `c` does not occur.
pub open spec fn suffix_after_last(s: Seq<char>, c: char) -> Seq<char>
    decreases s.len(),
{
    if s.len() == 0 {
        s
    } else if s.last() == c {
        Seq::empty()
    } else {
        suffix_after_last(s.drop_last(), c).push(s.last())
    }
}

/// `c` occurs somewhere in `s`.
pub open spec fn seq_has(s: Seq<char>, c: char) -> bool {
    exists|i: int| 0 <= i < s.len() && s[i] == c
}

/// The file name of a `/`-separated path, as the platform takes it:
/// trailing separators are ignored, a trailing `.` component is dropped,
/// and a path that ends in a `..` component — or that is nothing but `.` —
/// names no file.
pub open spec fn file_name_of(p: Seq<char>) -> Option<Seq<char>>
    decreases p.len(),
{
    if p.len() == 0 {
        None
    } else if p.last() == '/' {
        file_name_of(p.drop_last())
    } else {
        let name = suffix_after_last(p, '/');
        if name == seq!['.'] {
            if p.len() == 1 {
                None
            } else {
                file_name_of(p.drop_last())
            }
        } else if name == seq!['.', '.'] {
            None
        } else {
            Some(name)
        }
    }
}

/// The extension of a path's file name: what follows the name's last dot,
/// unless the path names no file, the name holds no dot, or its only dot is
/// the leading dot of a hidden file.
pub open spec fn extension_of(p: Seq<char>) -> Option<Seq<char>> {
    match file_name_of(p) {
        None => None,
        Some(name) => {
            let ext = suffix_after_last(name, '.');
            if !seq_has(name, '.') {
                None
            } else if name[0] == '.' && ext.len() == name.len() - 1 {
                None
            } else {
                Some(ext)
            }
        },
    }
}

proof fn lemma_suffix_after_last_at(s: Seq<char>, c: char, i: int)
    requires
        0 <= i < s.len(),
        s[i] == c,
        forall|j: int| i < j < s.len() ==> s[j] != c,
    ensures
        suffix_after_last(s, c) == s.subrange(i + 1, s.len() as int),
    decreases s.len(),
{
    if i == s.len() - 1 {
        assert(suffix_after_last(s, c) =~= s.subrange(i + 1, s.len() as int));
    } else {
        lemma_suffix_after_last_at(s.drop_last(), c, i);
        assert(suffix_after_last(s, c) =~= s.subrange(i + 1, s.len() as int));
    }
}

proof fn lemma_suffix_after_last_none(s: Seq<char>, c: char)
    requires
        forall|j: int| 0 <= j < s.len() ==> s[j] != c,
    ensures
        suffix_after_last(s, c) == s,
    decreases s.len(),
{
    if s.len() > 0 {
        lemma_suffix_after_last_none(s.drop_last(), c);
        assert(suffix_after_last(s, c) =~= s);
    }
}

/// The position of the last occurrence of `c` in `s` before `end`.
fn last_index_of_before(s: &str, c: char, end: usize) -> (r: Option<usize>)
    requires
        end <= s@.len(),
    ensures
        r is None ==> forall|j: int| 0 <= j < end ==> s@[j] != c,
        r matches Some(i)
            ==> i < end && s@[i as int] == c && forall|j: int| i < j < end ==> s@[j] != c,
{
    let mut k = end;
    while k > 0
        invariant
            end <= s@.len(),
            0 <= k <= end,
            forall|j: int| k <= j < end ==> s@[j] != c,
        decreases k,
    {
        k = k - 1;
        if s.get_char(k) == c {
            return Some(k);
        }
    }
    None
}

/// Get the file extension from a path, if the path names a file and that
/// name has one.
pub fn get_file_extension(path: &str) -> (r: Option<String>)
    ensures
        match extension_of(path@) {
            Some(e) => r matches Some(s) && s@ == e,
            None => r is None,
        },
{
    let n = path.unicode_len();
    let mut end: usize = n;
    proof {
        assert(path@.subrange(0, n as int) =~= path@);
    }
    loop
        invariant
            n == path@.len(),
            0 <= end <= n,
            file_name_of(path@) == file_name_of(path@.subrange(0, end as int)),
        decreases end,
    {
        if end == 0 {
            proof {
                assert(path@.subrange(0, 0) =~= Seq::<char>::empty());
                assert(file_name_of(path@) is None);
            }
            return None;
        }
        if path.get_char(end - 1) == '/' {
            // a trailing separator is ignored
            proof {
                let p = path@.subrange(0, end as int);
                assert(p.last() == '/');
                assert(p.drop_last() =~= path@.subrange(0, end - 1));
                assert(file_name_of(p) == file_name_of(path@.subrange(0, end - 1)));
            }
            end = end - 1;
        } else {
            // the last component of the path so far
            let start: usize = match last_index_of_before(path, '/', end) {
                Some(i) => {
                    proof {
                        let p = path@.subrange(0, end as int);
                        assert(p[i as int] == '/');
                        assert(forall|j: int| i < j < p.len() ==> p[j] != '/');
                        lemma_suffix_after_last_at(p, '/', i as int);
                        assert(suffix_after_last(p, '/') =~= path@.subrange(
                            i + 1,
                            end as int,
                        ));
                    }
                    i + 1
                },
                None => {
                    proof {
                        let p = path@.subrange(0, end as int);
                        assert(forall|j: int| 0 <= j < p.len() ==> p[j] != '/');
                        lemma_suffix_after_last_none(p, '/');
                        assert(suffix_after_last(p, '/') =~= path@.subrange(0, end as int));
                    }
                    0
                },
            };
            let comp_len = end - start;
            let c0 = path.get_char(start);
            if comp_len == 1 && c0 == '.' {
                // a bare `.` component is dropped, unless it is the whole path
                proof {
                    let p = path@.subrange(0, end as int);
                    assert(suffix_after_last(p, '/') =~= seq!['.']);
                }
                if end == 1 {
                    return None;
                }
                proof {
                    let p = path@.subrange(0, end as int);
                    assert(p.drop_last() =~= path@.subrange(0, end - 1));
                    assert(file_name_of(p) == file_name_of(path@.subrange(0, end - 1)));
                }
                end = end - 1;
            } else if comp_len == 2 && c0 == '.' && path.get_char(start + 1) == '.' {
                // a path ending in a `..` component names no file
                proof {
                    let p = path@.subrange(0, end as int);
                    assert(suffix_after_last(p, '/') =~= seq!['.', '.']);
                    assert(file_name_of(path@) is None);
                }
                return None;
            } else {
                let name = path.substring_char(start, end);
                proof {
                    let p = path@.subrange(0, end as int);
                    assert(name@ == suffix_after_last(p, '/'));
                    assert(name@.len() == comp_len);
                    assert(name@[0] == c0);
                    if comp_len == 1 {
                        assert(name@ != seq!['.']);
                    } else if comp_len == 2 {
                        assert(name@[1] == path@[start + 1]);
                        assert(name@ != seq!['.', '.']);
                    }
                    assert(file_name_of(path@) == Some(name@));
                }
                let m = name.unicode_len();
                let r = match last_index_of_before(name, '.', m) {
                    None => {
                        assert(!seq_has(name@, '.'));
                        None
                    },
                    Some(j) => {
                        proof {
                            lemma_suffix_after_last_at(name@, '.', j as int);
                            assert(seq_has(name@, '.'));
                        }
                        if j == 0 {
                            None
                        } else {
                            let ext = name.substring_char(j + 1, m);
                            Some(ext.to_owned())
                        }
                    },
                };
                return r;
            }
        }
    }
}

} // verus!
