use vstd::prelude::*;
use vstd::string::StringExecFns;

use crate::text::{decimal, push_char, push_decimal};

verus! {

/// The prefix of a device interface path (`\\?\`).
pub open spec fn interface_prefix() -> Seq<char> {
    seq!['\\', '\\', '?', '\\']
}

/// The prefix of a GDI device name (`\\.\`).
pub open spec fn gdi_prefix() -> Seq<char> {
    seq!['\\', '\\', '.', '\\']
}

/// `k` is the position of the last `#` in `s`.
pub open spec fn last_hash(s: Seq<char>, k: int) -> bool {
    &&& 0 <= k < s.len()
    &&& s[k] == '#'
    &&& forall|j: int| k < j < s.len() ==> #[trigger] s[j] != '#'
}

/// `s` with every `#` written as `-`.
pub open spec fn dashed(s: Seq<char>) -> Seq<char> {
    s.map_values(|c: char| if c == '#' { '-' } else { c })
}

/// The durable identity carried by a monitor's device interface path: the
/// part between `\\?\` and the last `#`, with `#` written as `-`; nothing when
/// the path has no such part.
pub open spec fn normalized(path: Seq<char>) -> Option<Seq<char>> {
    if path.len() >= 4 && path.take(4) == interface_prefix() {
        let rest = path.skip(4);
        if exists|k: int| last_hash(rest, k) {
            let k = choose|k: int| last_hash(rest, k);
            if k == 0 {
                None
            } else {
                Some(dashed(rest.take(k)))
            }
        } else {
            None
        }
    } else {
        None
    }
}

proof fn lemma_last_hash_unique(s: Seq<char>, a: int, b: int)
    requires
        last_hash(s, a),
        last_hash(s, b),
    ensures
        a == b,
{
    if a < b {
        assert(s[b] != '#');
    } else if b < a {
        assert(s[a] != '#');
    }
}

pub fn normalize_device_path(path: &str) -> (id: Option<String>)
    ensures
        match id {
            Some(text) => normalized(path@) == Some(text@),
            None => normalized(path@) is None,
        },
{
    let length = path.unicode_len();
    if length < 4 || path.get_char(0) != '\\' || path.get_char(1) != '\\' || path.get_char(2) != '?'
        || path.get_char(3) != '\\' {
        proof {
            if length >= 4 {
                assert(path@.take(4)[0] == path@[0]);
                assert(path@.take(4)[1] == path@[1]);
                assert(path@.take(4)[2] == path@[2]);
                assert(path@.take(4)[3] == path@[3]);
                assert(path@.take(4) != interface_prefix());
            }
        }
        return None;
    }
    proof {
        assert(path@.take(4) =~= interface_prefix());
    }
    let ghost rest = path@.skip(4);
    let mut k: usize = length;
    while k > 4 && path.get_char(k - 1) != '#'
        invariant
            length == path@.len(),
            4 <= k <= length,
            rest == path@.skip(4),
            forall|j: int| k - 4 <= j < rest.len() ==> #[trigger] rest[j] != '#',
        decreases k,
    {
        k = k - 1;
    }
    if k == 4 {
        proof {
            assert forall|c: int| !last_hash(rest, c) by {
                if last_hash(rest, c) {
                    assert(rest[c] == '#');
                }
            }
        }
        return None;
    }
    let hash_at = k - 1;
    proof {
        assert(rest[hash_at - 4] == path@[hash_at as int]);
        assert(last_hash(rest, hash_at - 4));
        let c = choose|c: int| last_hash(rest, c);
        lemma_last_hash_unique(rest, c, hash_at - 4);
    }
    if hash_at == 4 {
        return None;
    }
    let mut id = String::new();
    let mut i: usize = 4;
    while i < hash_at
        invariant
            length == path@.len(),
            4 <= i <= hash_at,
            hash_at < length,
            id@ == dashed(path@.subrange(4, i as int)),
        decreases hash_at - i,
    {
        let c = path.get_char(i);
        push_char(&mut id, if c == '#' { '-' } else { c });
        proof {
            assert(path@.subrange(4, i + 1) =~= path@.subrange(4, i as int).push(c));
            assert(dashed(path@.subrange(4, i + 1)) =~= dashed(path@.subrange(4, i as int)).push(
                if c == '#' { '-' } else { c },
            ));
        }
        i = i + 1;
    }
    proof {
        assert(rest.take(hash_at - 4) =~= path@.subrange(4, hash_at as int));
    }
    Some(id)
}

/// `s` without every leading copy of `prefix`, as `str::trim_start_matches`
/// leaves it.
pub open spec fn without_leading(s: Seq<char>, prefix: Seq<char>) -> Seq<char>
    recommends
        prefix.len() > 0,
    decreases s.len(),
{
    if prefix.len() > 0 && s.len() >= prefix.len() && s.take(prefix.len() as int) == prefix {
        without_leading(s.skip(prefix.len() as int), prefix)
    } else {
        s
    }
}

/// The identity a monitor is known by in the settings: the durable part of its
/// device interface path when Windows gave one (`device_id`), the path itself
/// when it has no such part, and otherwise its GDI name without `\\.\`
/// (`DISPLAYn` when even that is empty).
pub open spec fn durable_identity(device_id: Option<Seq<char>>, gdi_device: Seq<char>, index: nat) -> Seq<
    char,
> {
    match device_id {
        Some(path) if normalized(path) is Some => normalized(path)->0,
        Some(path) if path.len() > 0 => path,
        _ => if gdi_device.len() == 0 {
            "DISPLAY"@ + decimal(index)
        } else {
            without_leading(gdi_device, gdi_prefix())
        },
    }
}

fn starts_with_gdi_prefix(s: &str, from: usize, length: usize) -> (starts: bool)
    requires
        length == s@.len(),
        from <= length,
    ensures
        starts == (s@.skip(from as int).len() >= 4 && s@.skip(from as int).take(4) == gdi_prefix()),
{
    if length - from < 4 {
        return false;
    }
    let starts = s.get_char(from) == '\\' && s.get_char(from + 1) == '\\' && s.get_char(from + 2)
        == '.' && s.get_char(from + 3) == '\\';
    proof {
        let t = s@.skip(from as int).take(4);
        if starts {
            assert(t =~= gdi_prefix());
        } else {
            assert(t[0] == s@[from as int]);
            assert(t[1] == s@[from + 1]);
            assert(t[2] == s@[from + 2]);
            assert(t[3] == s@[from + 3]);
            assert(t != gdi_prefix());
        }
    }
    starts
}

pub fn choose_durable_id(device_id: Option<&str>, gdi_device: &str, fallback_index: usize) -> (id:
    String)
    ensures
        id@ == durable_identity(
            match device_id {
                Some(d) => Some(d@),
                None => None,
            },
            gdi_device@,
            fallback_index as nat,
        ),
{
    if let Some(path) = device_id {
        if let Some(id) = normalize_device_path(path) {
            return id;
        }
        if path.unicode_len() != 0 {
            return path.to_owned();
        }
    }
    let length = gdi_device.unicode_len();
    if length == 0 {
        let mut id = String::new();
        let display = "DISPLAY";
        proof {
            reveal_strlit("DISPLAY");
        }
        id.append(display);
        push_decimal(&mut id, fallback_index as u64);
        return id;
    }
    let mut from: usize = 0;
    proof {
        assert(gdi_device@.skip(0) =~= gdi_device@);
    }
    while starts_with_gdi_prefix(gdi_device, from, length)
        invariant
            length == gdi_device@.len(),
            from <= length,
            without_leading(gdi_device@, gdi_prefix()) == without_leading(
                gdi_device@.skip(from as int),
                gdi_prefix(),
            ),
        decreases length - from,
    {
        proof {
            assert(gdi_device@.skip(from as int).skip(4) =~= gdi_device@.skip(from + 4));
        }
        from = from + 4;
    }
    let mut id = String::new();
    let mut i: usize = from;
    while i < length
        invariant
            length == gdi_device@.len(),
            from <= i <= length,
            id@ == gdi_device@.subrange(from as int, i as int),
        decreases length - i,
    {
        push_char(&mut id, gdi_device.get_char(i));
        proof {
            assert(gdi_device@.subrange(from as int, i + 1) =~= gdi_device@.subrange(from as int, i as int).push(gdi_device@[i as int]));
        }
        i = i + 1;
    }
    proof {
        assert(gdi_device@.skip(from as int) =~= gdi_device@.subrange(from as int, length as int));
    }
    id
}

} // verus!
