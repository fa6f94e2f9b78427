//! Names for the backups of collection files that could not be read.
use vstd::prelude::*;
use vstd::string::{StrSliceExecFns, StringExecFns};

verus! {

/// The directory, beside the collection file, that holds its backups.
pub const BACKUP_DIRECTORY: &'static str = "recovered_quotes";

/// The file name used where the collection path has none.
pub const DEFAULT_FILE_NAME: &'static str = "default_filename";

/// The extension used where a file name has no `.`.
pub const MISSING_EXTENSION: &'static str = "ERR_.json";

/// The pattern of the time stamp in a backup's name: day, month, year, then
/// hours, minutes and seconds.
pub const BACKUP_STAMP: &'static str = "%d-%m-%Y_%H:%M:%S";

/// The pattern of the date recorded with a quote.
pub const DATE_STAMP: &'static str = "%d-%m-%Y %H:%M:%S";

/// A decimal digit.
pub open spec fn is_digit(c: char) -> bool {
    48 <= (c as u32) && (c as u32) <= 57
}

/// Digits at `i` and `i + 1`.
pub open spec fn two_digits_at(s: Seq<char>, i: int) -> bool {
    is_digit(s[i]) && is_digit(s[i + 1])
}

/// A year as it is written in a time stamp: four digits, or, outside
/// 0 to 9999, a sign followed by at least four digits.
pub open spec fn year_text(y: Seq<char>) -> bool {
    ||| (y.len() == 4 && forall|i: int| 0 <= i < 4 ==> is_digit(#[trigger] y[i]))
    ||| (y.len() >= 5 && (y[0] == '+' || y[0] == '-') && forall|i: int|
        1 <= i < y.len() ==> is_digit(#[trigger] y[i]))
}

/// `DD-MM-<year><sep>HH:MM:SS`: each field but the year two digits.
pub open spec fn date_stamp(s: Seq<char>, sep: char) -> bool {
    let n = s.len() as int;
    &&& n >= 19
    &&& two_digits_at(s, 0) && s[2] == '-'
    &&& two_digits_at(s, 3) && s[5] == '-'
    &&& year_text(s.subrange(6, n - 9)) && s[n - 9] == sep
    &&& two_digits_at(s, n - 8) && s[n - 6] == ':'
    &&& two_digits_at(s, n - 5) && s[n - 3] == ':'
    &&& two_digits_at(s, n - 2)
}

/// Relies on `chrono::Local::now` and `DateTime::format`: the current local
/// time written by one of the two patterns above. chrono writes `%d`, `%m`,
/// `%H`, `%M` and `%S` as two zero-padded digits, and `%Y` as four digits,
/// with a sign where the year is outside 0 to 9999.
#[verifier::external_body]
pub(crate) fn local_time_text(pattern: &str) -> (r: String)
    requires
        pattern@ == BACKUP_STAMP@ || pattern@ == DATE_STAMP@,
    ensures
        pattern@ == BACKUP_STAMP@ ==> date_stamp(r@, '_'),
        pattern@ == DATE_STAMP@ ==> date_stamp(r@, ' '),
{
    chrono::Local::now().format(pattern).to_string()
}

/// A time stamp holds no `.` unless its separator is one.
pub proof fn lemma_stamp_has_no_dot(s: Seq<char>, sep: char)
    requires
        date_stamp(s, sep),
        sep != '.',
    ensures
        !s.contains('.'),
{
    let n = s.len() as int;
    let y = s.subrange(6, n - 9);
    assert forall|i: int| 0 <= i < n implies s[i] != '.' by {
        if 6 <= i < n - 9 {
            assert(s[i] == y[i - 6]);
            if y.len() != 4 && i == 6 {
                assert(y[0] == '+' || y[0] == '-');
            } else {
                assert(is_digit(y[i - 6]));
            }
        }
    }
}

/// The parts before and after the first `.`, or `None` where there is none.
fn split_at_first_dot(s: &str) -> (r: Option<(String, String)>)
    ensures
        match r {
            Some((a, b)) => splits_at_first_dot(s@, a@, b@),
            None => !s@.contains('.'),
        },
{
    let n = s.unicode_len();
    let mut i: usize = 0;
    while i < n
        invariant
            n == s@.len(),
            i <= n,
            forall|j: int| 0 <= j < i ==> s@[j] != '.',
        decreases n - i,
    {
        if s.get_char(i) == '.' {
            let a = s.substring_char(0, i).to_owned();
            let b = s.substring_char(i + 1, n).to_owned();
            assert(s@ =~= a@ + seq!['.'] + b@);
            return Some((a, b));
        }
        i = i + 1;
    }
    None
}

/// `s` is `stem`, a `.`, then `ext`, and `stem` holds no `.`.
pub open spec fn splits_at_first_dot(s: Seq<char>, stem: Seq<char>, ext: Seq<char>) -> bool {
    s == stem + seq!['.'] + ext && !stem.contains('.')
}

/// A file name's stem and extension, split at its first `.`; a name with no
/// `.` keeps it whole and gets the stand-in extension.
pub open spec fn name_parts(s: Seq<char>) -> (Seq<char>, Seq<char>) {
    if s.contains('.') {
        choose|p: (Seq<char>, Seq<char>)| splits_at_first_dot(s, p.0, p.1)
    } else {
        (s, MISSING_EXTENSION@)
    }
}

/// The backup's file name: `<stem>_<stamp>.<ext>`.
pub open spec fn backup_name(base: Seq<char>, stamp: Seq<char>) -> Seq<char> {
    name_parts(base).0 + "_"@ + stamp + "."@ + name_parts(base).1
}

/// A text splits at its first `.` in one way only.
pub proof fn lemma_split_unique(s: Seq<char>, a1: Seq<char>, b1: Seq<char>, a2: Seq<char>, b2: Seq<char>)
    requires
        splits_at_first_dot(s, a1, b1),
        splits_at_first_dot(s, a2, b2),
    ensures
        a1 == a2,
        b1 == b2,
{
    if a1.len() < a2.len() {
        assert(s[a1.len() as int] == '.');
        assert(a2[a1.len() as int] == s[a1.len() as int]);
        assert(a2.contains('.'));
    } else if a2.len() < a1.len() {
        assert(s[a2.len() as int] == '.');
        assert(a1[a2.len() as int] == s[a2.len() as int]);
        assert(a1.contains('.'));
    }
    assert(a1 =~= s.take(a1.len() as int));
    assert(a2 =~= s.take(a2.len() as int));
    assert(b1 =~= s.skip(a1.len() as int + 1));
    assert(b2 =~= s.skip(a2.len() as int + 1));
}

/// The backup's file name for a collection file named `base`, at `stamp`.
pub fn backup_file_name(base: &str, stamp: &str) -> (r: String)
    ensures
        r@ == backup_name(base@, stamp@),
{
    let (stem, ext) = match split_at_first_dot(base) {
        Some((a, b)) => {
            proof {
                let w = (a@, b@);
                assert(splits_at_first_dot(base@, w.0, w.1));
                assert(base@[a@.len() as int] == '.');
                assert(base@.contains('.'));
                let p = choose|p: (Seq<char>, Seq<char>)| splits_at_first_dot(base@, p.0, p.1);
                lemma_split_unique(base@, a@, b@, p.0, p.1);
            }
            (a, b)
        },
        None => (base.to_owned(), String::from_str(MISSING_EXTENSION)),
    };
    let mut r = stem;
    r.append("_");
    r.append(stamp);
    r.append(".");
    r.append(ext.as_str());
    r
}

/// A text that holds a `.` splits at its first one.
proof fn lemma_first_dot(s: Seq<char>)
    requires
        s.contains('.'),
    ensures
        exists|p: (Seq<char>, Seq<char>)| splits_at_first_dot(s, p.0, p.1),
    decreases s.len(),
{
    let k = choose|k: int| 0 <= k < s.len() && s[k] == '.';
    if s[0] == '.' {
        let w = (Seq::<char>::empty(), s.skip(1));
        assert(s =~= w.0 + seq!['.'] + w.1);
        assert(splits_at_first_dot(s, w.0, w.1));
    } else {
        let t = s.drop_first();
        assert(t[k - 1] == '.');
        lemma_first_dot(t);
        let p = choose|p: (Seq<char>, Seq<char>)| splits_at_first_dot(t, p.0, p.1);
        let w = (seq![s[0]] + p.0, p.1);
        assert(s =~= seq![s[0]] + t);
        assert(t == p.0 + seq!['.'] + p.1);
        assert(s =~= w.0 + seq!['.'] + w.1);
        assert forall|j: int| 0 <= j < w.0.len() implies w.0[j] != '.' by {
            if j > 0 {
                assert(w.0[j] == p.0[j - 1]);
            }
        }
        assert(splits_at_first_dot(s, w.0, w.1));
    }
}

/// What `name_parts` gives: a stem without `.`, and the name rebuilt from it.
proof fn lemma_name_parts(s: Seq<char>)
    ensures
        !name_parts(s).0.contains('.'),
        s.contains('.') ==> s == name_parts(s).0 + seq!['.'] + name_parts(s).1,
        !s.contains('.') ==> s == name_parts(s).0 && name_parts(s).1 == MISSING_EXTENSION@,
{
    if s.contains('.') {
        lemma_first_dot(s);
    }
}

/// `a + "_" + t` holds no `.` where neither `a` nor `t` does.
proof fn lemma_joined_without_dot(a: Seq<char>, t: Seq<char>)
    requires
        !a.contains('.'),
        !t.contains('.'),
    ensures
        !(a + "_"@ + t).contains('.'),
{
    reveal_strlit("_");
    let x = a + "_"@ + t;
    assert forall|j: int| 0 <= j < x.len() implies x[j] != '.' by {
        if j < a.len() {
            assert(x[j] == a[j]);
        } else if j == a.len() {
            assert(x[j] == '_');
        } else {
            assert(x[j] == t[j - a.len() - 1]);
        }
    }
}

/// Backups taken in the same second of collection files with different names
/// get different names: the name is built from the file's name, not from a
/// counter. The one exception is left out: a name without `.` and the same
/// name followed by `.` and the stand-in extension.
pub proof fn lemma_backup_names_differ(b1: Seq<char>, b2: Seq<char>, stamp: Seq<char>)
    requires
        b1 != b2,
        !stamp.contains('.'),
        !(!b1.contains('.') && b2 == b1 + "."@ + MISSING_EXTENSION@),
        !(!b2.contains('.') && b1 == b2 + "."@ + MISSING_EXTENSION@),
    ensures
        backup_name(b1, stamp) != backup_name(b2, stamp),
{
    lemma_name_parts(b1);
    lemma_name_parts(b2);
    let (s1, e1) = name_parts(b1);
    let (s2, e2) = name_parts(b2);
    reveal_strlit("_");
    reveal_strlit(".");
    if backup_name(b1, stamp) == backup_name(b2, stamp) {
        let x = backup_name(b1, stamp);
        lemma_joined_without_dot(s1, stamp);
        lemma_joined_without_dot(s2, stamp);
        assert(x =~= (s1 + "_"@ + stamp) + seq!['.'] + e1);
        assert(x =~= (s2 + "_"@ + stamp) + seq!['.'] + e2);
        lemma_split_unique(x, s1 + "_"@ + stamp, e1, s2 + "_"@ + stamp, e2);
        assert((s1 + "_"@ + stamp).len() == (s2 + "_"@ + stamp).len());
        assert(s1 =~= (s1 + "_"@ + stamp).take(s1.len() as int));
        assert(s2 =~= (s2 + "_"@ + stamp).take(s2.len() as int));
        assert(s1 == s2);
        assert("."@ =~= seq!['.']);
    }
}

} // verus!
