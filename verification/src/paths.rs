//! Output paths: the base name of the input image and the output file path.

use vstd::prelude::*;

verus! {

/// `s` with every trailing `'/'` removed.
pub open spec fn strip_trailing_slashes(s: Seq<char>) -> Seq<char>
    decreases s.len(),
{
    if s.len() > 0 && s.last() == '/' {
        strip_trailing_slashes(s.drop_last())
    } else {
        s
    }
}

/// The suffix of `s` that follows its last `'/'` (all of `s` if it has none).
pub open spec fn after_last_slash(s: Seq<char>) -> Seq<char>
    decreases s.len(),
{
    if s.len() == 0 {
        s
    } else if s.last() == '/' {
        Seq::empty()
    } else {
        after_last_slash(s.drop_last()).push(s.last())
    }
}

/// The base name of a path: the last real component, with trailing slashes
/// and trailing `"."` components skipped, as `std`'s `Path::file_name`
/// skips them.  A path with no such component — empty, a bare run of
/// slashes and dots, or one whose last component is `".."` — has no base
/// name.
pub open spec fn spec_file_name(s: Seq<char>) -> Option<Seq<char>>
    decreases s.len(),
    via spec_file_name_decreases
{
    let t = strip_trailing_slashes(s);
    let name = after_last_slash(t);
    if t.len() == 0 {
        None
    } else if name == seq!['.'] {
        spec_file_name(t.drop_last())
    } else if name.len() == 0 || name == seq!['.', '.'] {
        None
    } else {
        Some(name)
    }
}

proof fn lemma_strip_shrinks(s: Seq<char>)
    ensures
        strip_trailing_slashes(s).len() <= s.len(),
    decreases s.len(),
{
    if s.len() > 0 && s.last() == '/' {
        lemma_strip_shrinks(s.drop_last());
    }
}

#[via_fn]
proof fn spec_file_name_decreases(s: Seq<char>) {
    lemma_strip_shrinks(s);
}

proof fn lemma_strip_idempotent(s: Seq<char>)
    ensures
        strip_trailing_slashes(strip_trailing_slashes(s)) == strip_trailing_slashes(s),
    decreases s.len(),
{
    if s.len() > 0 && s.last() == '/' {
        lemma_strip_idempotent(s.drop_last());
    }
}

/// The base name depends on a path only through its slash-stripped form.
proof fn lemma_file_name_strip(s: Seq<char>)
    ensures
        spec_file_name(s) == spec_file_name(strip_trailing_slashes(s)),
{
    lemma_strip_idempotent(s);
}

proof fn lemma_after_last_slash_is_suffix(t: Seq<char>, k: int)
    requires
        0 <= k <= t.len(),
        forall|i: int| k <= i < t.len() ==> t[i] != '/',
        k == 0 || t[k - 1] == '/',
    ensures
        after_last_slash(t) == t.subrange(k, t.len() as int),
    decreases t.len(),
{
    if t.len() == 0 {
        assert(after_last_slash(t) =~= t.subrange(0, 0));
    } else if k == t.len() {
        assert(t.last() == '/');
        assert(after_last_slash(t) =~= t.subrange(k, t.len() as int));
    } else {
        assert(t.last() != '/');
        lemma_after_last_slash_is_suffix(t.drop_last(), k);
        assert(t.drop_last().subrange(k, t.drop_last().len() as int).push(t.last()) =~= t.subrange(
            k,
            t.len() as int,
        ));
    }
}

/// The base name of the input image path, as [`spec_file_name`] describes:
/// the last real component, with trailing slashes and `"."` components
/// skipped, or `None` where the path has no such component.
pub fn get_image_file_name(image_path: &str) -> (r: Option<String>)
    ensures
        r matches Some(name) ==> spec_file_name(image_path@) == Some(name@),
        r is None ==> spec_file_name(image_path@) is None,
{
    let n = image_path.unicode_len();
    proof {
        assert(image_path@.subrange(0, n as int) =~= image_path@);
    }
    let mut end: usize = n;
    loop
        invariant
            end <= n,
            n == image_path@.len(),
            spec_file_name(image_path@) == spec_file_name(image_path@.subrange(0, end as int)),
        decreases end,
    {
        let ghost end_at_entry = end;
        while end > 0 && image_path.get_char(end - 1) == '/'
            invariant
                end <= end_at_entry,
                end_at_entry <= n,
                n == image_path@.len(),
                spec_file_name(image_path@) == spec_file_name(
                    image_path@.subrange(0, end as int),
                ),
            decreases end,
        {
            proof {
                let s = image_path@.subrange(0, end as int);
                assert(s.drop_last() =~= image_path@.subrange(0, end - 1));
                assert(strip_trailing_slashes(s) == strip_trailing_slashes(s.drop_last()));
                lemma_file_name_strip(s);
                lemma_file_name_strip(s.drop_last());
            }
            end = end - 1;
        }
        let ghost stripped = image_path@.subrange(0, end as int);
        proof {
            if end > 0 {
                assert(stripped.last() != '/');
            }
            assert(strip_trailing_slashes(stripped) == stripped);
        }
        if end == 0 {
            proof {
                assert(image_path@.subrange(0, 0) =~= Seq::<char>::empty());
            }
            return None;
        }
        let mut start: usize = end;
        while start > 0 && image_path.get_char(start - 1) != '/'
            invariant
                start <= end <= n,
                n == image_path@.len(),
                forall|i: int| start <= i < end ==> image_path@[i] != '/',
            decreases start,
        {
            start = start - 1;
        }
        proof {
            assert(forall|i: int| start <= i < end ==> stripped[i] != '/');
            lemma_after_last_slash_is_suffix(stripped, start as int);
            assert(stripped.subrange(start as int, end as int) =~= image_path@.subrange(
                start as int,
                end as int,
            ));
        }
        let len: usize = end - start;
        if len == 1 && image_path.get_char(end - 1) == '.' {
            // A trailing `.` component names its own directory: skip it and
            // look at what precedes it.
            proof {
                assert(after_last_slash(stripped) =~= seq!['.']);
                assert(stripped.drop_last() =~= image_path@.subrange(0, end - 1));
            }
            end = end - 1;
            continue ;
        }
        let name = image_path.substring_char(start, end);
        if len == 2 && name.get_char(0) == '.' && name.get_char(1) == '.' {
            proof {
                assert(name@ =~= seq!['.', '.']);
                assert(after_last_slash(stripped) != seq!['.']) by {
                    assert(after_last_slash(stripped).len() == 2);
                }
            }
            return None;
        }
        proof {
            assert(name@.len() > 0);
            if name@.len() == 1 {
                assert(name@ != seq!['.']) by {
                    assert(name@[0] != '.');
                }
            }
            if name@.len() == 2 {
                assert(name@ != seq!['.', '.']) by {
                    assert(!(name@[0] == '.' && name@[1] == '.'));
                }
            }
            assert(after_last_slash(stripped) != seq!['.']) by {
                assert(after_last_slash(stripped) == name@);
            }
        }
        return Some(name.to_owned());
    }
}

/// The path the annotated image is written to: `dir`, a `'/'`, and the
/// file name.
pub fn output_file_path(dir: &str, file_name: &str) -> (r: String)
    ensures
        r@ == dir@ + "/"@ + file_name@,
{
    let joined = dir.to_owned().concat("/");
    joined.concat(file_name)
}

} // verus!
