//! Construction of the list of root directories to scan.
//!
//! Three fixed roots come first: the system and local `applications`
//! directories and the per-user one under the home directory. When the
//! data-directory search list is set and non-empty, each of its
//! colon-separated entries contributes one more root, with `applications/`
//! appended as a subdirectory. Reading the environment is the caller's
//! business; this module only computes the list from the values read.

use vstd::prelude::*;

verus! {

/// The segments of `s` between colons, in order; a string without a colon
/// is one segment, and empty segments are kept.
pub open spec fn split_colons(s: Seq<char>) -> Seq<Seq<char>>
    decreases s.len(),
{
    if s.len() == 0 {
        seq![Seq::<char>::empty()]
    } else if s[0] == ':' {
        seq![Seq::<char>::empty()] + split_colons(s.skip(1))
    } else {
        let rest = split_colons(s.skip(1));
        seq![seq![s[0]] + rest[0]] + rest.skip(1)
    }
}

/// Every split has at least one segment.
pub proof fn lemma_split_nonempty(s: Seq<char>)
    ensures
        split_colons(s).len() >= 1,
    decreases s.len(),
{
    if s.len() > 0 {
        lemma_split_nonempty(s.skip(1));
    }
}

/// The path `p` with `applications/` appended as a subdirectory, inserting
/// a separator only where one is missing.
pub open spec fn with_applications(p: Seq<char>) -> Seq<char> {
    if p.len() == 0 {
        "applications/"@
    } else if p.last() == '/' {
        p + "applications/"@
    } else {
        p + "/applications/"@
    }
}

/// Each path of `ps` with `applications/` appended.
pub open spec fn all_with_applications(ps: Seq<Seq<char>>) -> Seq<Seq<char>> {
    ps.map_values(|p: Seq<char>| with_applications(p))
}

/// The roots to scan, given the home directory and the optional
/// data-directory search list: the three fixed roots, then one root per
/// colon-separated entry of the list, in order.
pub open spec fn roots_spec(home: Seq<char>, xdg_data_dirs: Option<Seq<char>>) -> Seq<Seq<char>> {
    let base = seq![
        "/usr/share/applications/"@,
        "/usr/local/share/applications/"@,
        home + "/.local/share/applications/"@,
    ];
    match xdg_data_dirs {
        None => base,
        Some(x) => if x.len() == 0 {
            base
        } else {
            base + all_with_applications(split_colons(x))
        },
    }
}

/// Splits `s` into its colon-separated segments.
fn split_colon_list(s: &str) -> (r: Vec<String>)
    ensures
        r.deep_view() == split_colons(s@),
{
    let n = s.unicode_len();
    let mut segs: Vec<String> = Vec::new();
    let mut cur = String::new();
    let mut i: usize = 0;
    proof {
        assert(s@.skip(0) =~= s@);
        lemma_split_nonempty(s@);
        assert(Seq::<char>::empty() + split_colons(s@)[0] =~= split_colons(s@)[0]);
        assert(seq![Seq::<char>::empty() + split_colons(s@)[0]] + split_colons(s@).skip(1) =~= split_colons(s@));
    }
    while i < n
        invariant
            i <= n,
            n == s@.len(),
            split_colons(s@.skip(i as int)).len() >= 1,
            split_colons(s@) == segs.deep_view() + seq![cur@ + split_colons(s@.skip(i as int))[0]]
                + split_colons(s@.skip(i as int)).skip(1),
        decreases n - i,
    {
        let ghost rest = split_colons(s@.skip(i as int));
        let ghost rest_next = split_colons(s@.skip(i + 1));
        let ghost old_segs = segs.deep_view();
        let ghost old_cur = cur@;
        proof {
            assert(s@.skip(i as int)[0] == s@[i as int]);
            assert(s@.skip(i as int).skip(1) =~= s@.skip(i + 1));
            lemma_split_nonempty(s@.skip(i + 1));
        }
        let c = s.substring_char(i, i + 1);
        if s.get_char(i) == ':' {
            proof {
                assert(rest == seq![Seq::<char>::empty()] + rest_next);
                assert(rest[0] =~= Seq::<char>::empty());
                assert(rest.skip(1) =~= rest_next);
                assert(old_cur + rest[0] =~= old_cur);
            }
            segs.push(cur);
            cur = String::new();
            proof {
                assert(segs.deep_view() =~= old_segs + seq![old_cur]);
                assert((old_segs + seq![old_cur]) + seq![cur@ + rest_next[0]] + rest_next.skip(1)
                    =~= old_segs + seq![old_cur + rest[0]] + rest.skip(1));
            }
        } else {
            proof {
                assert(rest == seq![seq![s@[i as int]] + rest_next[0]] + rest_next.skip(1));
                assert(rest[0] == seq![s@[i as int]] + rest_next[0]);
                assert(rest.skip(1) =~= rest_next.skip(1));
                assert(c@ =~= seq![s@[i as int]]);
            }
            cur.append(c);
            proof {
                assert(cur@ == old_cur + seq![s@[i as int]]);
                assert(cur@ + rest_next[0] =~= old_cur + rest[0]);
                assert(old_segs + seq![cur@ + rest_next[0]] + rest_next.skip(1) =~= old_segs + seq![
                    old_cur + rest[0]
                ] + rest.skip(1));
            }
        }
        i = i + 1;
    }
    let ghost last_rest = split_colons(s@.skip(n as int));
    proof {
        assert(s@.skip(n as int) =~= Seq::<char>::empty());
        assert(last_rest == seq![Seq::<char>::empty()]);
        assert(last_rest[0] =~= Seq::<char>::empty());
        assert(cur@ + last_rest[0] =~= cur@);
        assert(last_rest.skip(1) =~= Seq::<Seq<char>>::empty());
    }
    let ghost old_segs = segs.deep_view();
    let ghost old_cur = cur@;
    segs.push(cur);
    proof {
        assert(segs.deep_view() =~= old_segs + seq![old_cur]);
        assert(old_segs + seq![old_cur] =~= old_segs + seq![old_cur + last_rest[0]] + last_rest.skip(
            1,
        ));
    }
    segs
}

/// Appends `applications/` to a path as a subdirectory.
fn push_applications(p: &str) -> (r: String)
    ensures
        r@ == with_applications(p@),
{
    let n = p.unicode_len();
    let mut s: String = p.to_owned();
    if n == 0 {
        s.append("applications/");
    } else if p.get_char(n - 1) == '/' {
        s.append("applications/");
    } else {
        s.append("/applications/");
    }
    s
}

/// Builds the list of roots to scan from the home directory and the
/// optional data-directory search list.
pub fn application_roots(home: &str, xdg_data_dirs: Option<&str>) -> (r: Vec<String>)
    ensures
        r.deep_view() == roots_spec(home@, xdg_data_dirs.deep_view()),
{
    let mut roots: Vec<String> = Vec::new();
    roots.push("/usr/share/applications/".to_owned());
    roots.push("/usr/local/share/applications/".to_owned());
    let mut user_root: String = home.to_owned();
    user_root.append("/.local/share/applications/");
    roots.push(user_root);
    match xdg_data_dirs {
        None => {
            proof {
                assert(roots.deep_view() =~= roots_spec(home@, None));
            }
        },
        Some(x) => {
            if x.unicode_len() == 0 {
                proof {
                    assert(roots.deep_view() =~= roots_spec(home@, xdg_data_dirs.deep_view()));
                }
            } else {
                let segs = split_colon_list(x);
                let ghost base = roots.deep_view();
                let mut j: usize = 0;
                proof {
                    assert(base + all_with_applications(split_colons(x@).take(0)) =~= base);
                }
                while j < segs.len()
                    invariant
                        j <= segs.len(),
                        segs.deep_view() == split_colons(x@),
                        segs.len() == split_colons(x@).len(),
                        roots.deep_view() == base + all_with_applications(
                            split_colons(x@).take(j as int),
                        ),
                    decreases segs.len() - j,
                {
                    let ghost old_roots = roots.deep_view();
                    roots.push(push_applications(segs[j].as_str()));
                    proof {
                        assert(segs.deep_view()[j as int] == split_colons(x@)[j as int]);
                        assert(roots.deep_view() =~= old_roots + seq![
                            with_applications(split_colons(x@)[j as int])
                        ]);
                        assert(old_roots + seq![with_applications(split_colons(x@)[j as int])] =~= base
                            + all_with_applications(split_colons(x@).take(j + 1)));
                    }
                    j = j + 1;
                }
                proof {
                    assert(split_colons(x@).take(segs.len() as int) =~= split_colons(x@));
                    assert(roots.deep_view() =~= roots_spec(home@, xdg_data_dirs.deep_view()));
                }
            }
        },
    }
    roots
}

} // verus!
