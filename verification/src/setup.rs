//! The `~/.env` file: the `KEY=VALUE` entries it holds, whether it already
//! holds a Groq key, and the line that stores a newly entered one.
use vstd::prelude::*;

use crate::text::{
    chars_of, find_char, find_char_in, lines, push_range, split_lines, string_of, trim,
    trim_bounds, trim_start, trim_start_index, trim_string,
};

verus! {

/// The entry a line of `~/.env` holds: blank lines, `#` comments and lines
/// without `=` hold none; otherwise the trimmed text before the first `=`
/// and the trimmed text after it.
pub open spec fn env_entry(line: Seq<char>) -> Option<(Seq<char>, Seq<char>)> {
    let l = trim(line);
    if l.len() == 0 || l[0] == '#' {
        None
    } else {
        let i = find_char(l, '=');
        if i >= l.len() {
            None
        } else {
            Some((trim(l.take(i)), trim(l.skip(i + 1))))
        }
    }
}

/// The entries of the lines `ls`, in order.
pub open spec fn env_entries_of(ls: Seq<Seq<char>>) -> Seq<(Seq<char>, Seq<char>)>
    decreases ls.len(),
{
    if ls.len() == 0 {
        Seq::empty()
    } else {
        env_entries_of(ls.drop_last()) + match env_entry(ls.last()) {
            Some(e) => seq![e],
            None => Seq::empty(),
        }
    }
}

/// The views of a list of entries.
pub open spec fn entry_views(v: Seq<(String, String)>) -> Seq<(Seq<char>, Seq<char>)> {
    v.map_values(|e: (String, String)| (e.0@, e.1@))
}

/// The `KEY=VALUE` entries of a `~/.env` file, in order. The caller sets
/// each variable the environment does not already hold, so exported
/// variables take precedence over the file.
pub fn env_entries(contents: &str) -> (r: Vec<(String, String)>)
    ensures
        entry_views(r@) == env_entries_of(lines(contents@)),
{
    let ls = split_lines(contents);
    let mut r: Vec<(String, String)> = Vec::new();
    let mut i: usize = 0;
    proof {
        assert(lines(contents@).take(0) =~= Seq::<Seq<char>>::empty());
        assert(entry_views(r@) =~= Seq::<(Seq<char>, Seq<char>)>::empty());
    }
    while i < ls.len()
        invariant
            i <= ls@.len(),
            ls@.len() == lines(contents@).len(),
            forall|k: int| 0 <= k < ls@.len() ==> #[trigger] ls@[k]@ == lines(contents@)[k],
            entry_views(r@) == env_entries_of(lines(contents@).take(i as int)),
        decreases ls.len() - i,
    {
        let v = chars_of(ls[i].as_str());
        let ghost before = entry_views(r@);
        proof {
            let t = lines(contents@).take(i + 1);
            assert(t.drop_last() =~= lines(contents@).take(i as int));
            assert(t.last() == v@);
        }
        let (a, b) = trim_bounds(&v, 0, v.len());
        proof {
            assert(v@.subrange(0, v@.len() as int) =~= v@);
        }
        let ghost l = v@.subrange(a as int, b as int);
        if a < b && v[a] != '#' {
            assert(l[0] == v@[a as int]);
            let e = find_char_in(&v, a, b, '=');
            if e < b - a {
                let key_raw = string_of(&v, a, a + e);
                let value_raw = string_of(&v, a + e + 1, b);
                let key = trim_string(key_raw.as_str());
                let value = trim_string(value_raw.as_str());
                proof {
                    assert(l.take(e as int) =~= v@.subrange(a as int, a + e));
                    assert(l.skip(e + 1) =~= v@.subrange(a + e + 1, b as int));
                }
                let ghost kv = (key@, value@);
                r.push((key, value));
                assert(entry_views(r@) =~= before.push(kv));
            }
        } else {
            proof {
                if a < b {
                    assert(l[0] == v@[a as int]);
                }
            }
        }
        i = i + 1;
    }
    proof {
        assert(lines(contents@).take(ls@.len() as int) =~= lines(contents@));
    }
    r
}

/// `s` begins with `p`.
pub open spec fn begins_with(s: Seq<char>, p: Seq<char>) -> bool {
    p.len() <= s.len() && s.take(p.len() as int) == p
}

/// Whether some line of `~/.env` starts, after leading white space, with
/// `GROQ_API_KEY`.
pub fn env_file_has_groq_key(contents: &str) -> (r: bool)
    ensures
        r == exists|i: int|
            0 <= i < lines(contents@).len() && begins_with(
                trim_start(#[trigger] lines(contents@)[i]),
                "GROQ_API_KEY"@,
            ),
{
    let ls = split_lines(contents);
    let key = chars_of("GROQ_API_KEY");
    let mut i: usize = 0;
    while i < ls.len()
        invariant
            i <= ls@.len(),
            ls@.len() == lines(contents@).len(),
            forall|k: int| 0 <= k < ls@.len() ==> #[trigger] ls@[k]@ == lines(contents@)[k],
            key@ == "GROQ_API_KEY"@,
            forall|k: int|
                0 <= k < i ==> !begins_with(trim_start(#[trigger] lines(contents@)[k]), "GROQ_API_KEY"@),
        decreases ls.len() - i,
    {
        let v = chars_of(ls[i].as_str());
        let a = trim_start_index(&v, 0, v.len());
        proof {
            assert(v@.subrange(0, v@.len() as int) =~= v@);
            assert(v@ == lines(contents@)[i as int]);
        }
        let ghost t = v@.subrange(a as int, v@.len() as int);
        if v.len() - a >= key.len() && crate::text::range_eq(&v, a, a + key.len(), &key) {
            proof {
                assert(t.take(key@.len() as int) =~= v@.subrange(a as int, a + key@.len()));
            }
            return true;
        }
        proof {
            if key@.len() <= t.len() {
                assert(t.take(key@.len() as int) =~= v@.subrange(a as int, a + key@.len()));
            }
        }
        i = i + 1;
    }
    false
}

/// The line that stores an entered Groq key: the input trimmed, after
/// `GROQ_API_KEY=`; nothing for an empty input.
pub fn api_key_line(input: &str) -> (r: Option<String>)
    ensures
        match r {
            Some(l) => trim(input@).len() > 0 && l@ == "GROQ_API_KEY="@ + trim(input@),
            None => trim(input@).len() == 0,
        },
{
    let k = trim_string(input);
    if k.as_str().is_empty() {
        return None;
    }
    let mut line = String::from_str("GROQ_API_KEY=");
    let kv = chars_of(k.as_str());
    push_range(&mut line, &kv, 0, kv.len());
    proof {
        assert(kv@.subrange(0, kv@.len() as int) =~= kv@);
    }
    Some(line)
}

} // verus!
