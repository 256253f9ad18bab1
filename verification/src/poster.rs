use vstd::prelude::*;
use vstd::string::StringExecFns;

use crate::text::push_char;

verus! {

/// Characters a file name keeps from a monitor identity: ASCII letters and
/// digits, `-`, `_` and `.`.
pub open spec fn file_safe(c: char) -> bool {
    ('a' <= c && c <= 'z') || ('A' <= c && c <= 'Z') || ('0' <= c && c <= '9') || c == '-' || c
        == '_' || c == '.'
}

/// `c`, or `_` in place of a character a file name should not hold.
pub open spec fn safe_char(c: char) -> char {
    if file_safe(c) {
        c
    } else {
        '_'
    }
}

/// A monitor identity made usable as a file name, one character for each.
pub fn sanitize(id: &str) -> (name: String)
    ensures
        name@ == id@.map_values(|c: char| safe_char(c)),
{
    let n = id.unicode_len();
    let mut name = String::new();
    let mut i: usize = 0;
    while i < n
        invariant
            n == id@.len(),
            i <= n,
            name@ == id@.take(i as int).map_values(|c: char| safe_char(c)),
        decreases n - i,
    {
        let c = id.get_char(i);
        let kept = ('a' <= c && c <= 'z') || ('A' <= c && c <= 'Z') || ('0' <= c && c <= '9') || c
            == '-' || c == '_' || c == '.';
        push_char(&mut name, if kept { c } else { '_' });
        proof {
            assert(id@.take(i + 1).map_values(|c: char| safe_char(c)) =~= id@.take(i as int).map_values(
                |c: char| safe_char(c),
            ).push(safe_char(c)));
        }
        i = i + 1;
    }
    proof {
        assert(id@.take(n as int) =~= id@);
    }
    name
}

/// The still frame kept for a monitor: its sanitized identity with `.jpg`.
pub fn poster_file_name(monitor_id: &str) -> (name: String)
    ensures
        name@ == id_name(monitor_id@),
{
    let mut name = sanitize(monitor_id);
    let extension = ".jpg";
    proof {
        reveal_strlit(".jpg");
    }
    name.append(extension);
    name
}

/// The name of the still frame file for the monitor `id`.
pub open spec fn id_name(id: Seq<char>) -> Seq<char> {
    id.map_values(|c: char| safe_char(c)) + ".jpg"@
}

} // verus!
