//! Window classification: deciding whether a top-level window belongs to the
//! monitored application and extracting its display name from the title.
//!
//! The shell reads the title property and the owning process's executable
//! link; the decisions on those bytes are made and verified here.
use vstd::prelude::*;

verus! {

/// The bytes of the exact title `"EVE"`.
pub open spec fn eve_title() -> Seq<u8> {
    seq![69u8, 86u8, 69u8]
}

/// The bytes of the title prefix `"EVE - "`.
pub open spec fn eve_title_prefix() -> Seq<u8> {
    seq![69u8, 86u8, 69u8, 32u8, 45u8, 32u8]
}

/// The display name a window title yields: the suffix after `"EVE - "`, the
/// empty name for the exact title `"EVE"`, and none for any other title.
pub open spec fn name_of_title(title: Seq<u8>) -> Option<Seq<u8>> {
    if title.len() >= 6 && title.take(6) == eve_title_prefix() {
        Some(title.skip(6))
    } else if title == eve_title() {
        Some(Seq::<u8>::empty())
    } else {
        None
    }
}

/// Extracts the display name from a window title, following
/// [`name_of_title`]: a qualifying title yields the pilot name (possibly
/// empty), any other yields none.
pub fn extract_display_name(title: &Vec<u8>) -> (r: Option<Vec<u8>>)
    ensures
        match r {
            Some(name) => (name_of_title(title@) == Some(name@)),
            None => name_of_title(title@) is None,
        },
{
    if title.len() >= 6
        && *title.get(0).unwrap() == 69u8
        && *title.get(1).unwrap() == 86u8
        && *title.get(2).unwrap() == 69u8
        && *title.get(3).unwrap() == 32u8
        && *title.get(4).unwrap() == 45u8
        && *title.get(5).unwrap() == 32u8
    {
        proof {
            assert(title@.take(6) =~= eve_title_prefix());
        }
        let mut name: Vec<u8> = Vec::new();
        let mut i: usize = 6;
        while i < title.len()
            invariant
                6 <= i <= title@.len(),
                name@ == title@.subrange(6, i as int),
            decreases title@.len() - i,
        {
            name.push(*title.get(i).unwrap());
            proof {
                assert(name@ =~= title@.subrange(6, i + 1 as int));
            }
            i = i + 1;
        }
        proof {
            assert(name@ =~= title@.skip(6));
        }
        Some(name)
    } else if title.len() == 3
        && *title.get(0).unwrap() == 69u8
        && *title.get(1).unwrap() == 86u8
        && *title.get(2).unwrap() == 69u8
    {
        proof {
            assert(title@ =~= eve_title());
        }
        Some(Vec::new())
    } else {
        proof {
            if title@.len() >= 6 {
                assert(title@.take(6).len() == 6);
                assert(title@.take(6) != eve_title_prefix()) by {
                    if title@.take(6) == eve_title_prefix() {
                        assert(title@[0] == title@.take(6)[0]);
                        assert(title@[1] == title@.take(6)[1]);
                        assert(title@[2] == title@.take(6)[2]);
                        assert(title@[3] == title@.take(6)[3]);
                        assert(title@[4] == title@.take(6)[4]);
                        assert(title@[5] == title@.take(6)[5]);
                    }
                }
            }
            assert(title@ != eve_title()) by {
                if title@ == eve_title() {
                    assert(title@.len() == 3);
                    assert(title@[0] == 69u8 && title@[1] == 86u8 && title@[2] == 69u8);
                }
            }
        }
        None
    }
}

/// Whether `hay` holds `needle` as a contiguous run of bytes.
pub open spec fn contains_seq(hay: Seq<u8>, needle: Seq<u8>) -> bool {
    exists|i: int|
        0 <= i && i + needle.len() <= hay.len() && #[trigger] hay.subrange(i, i + needle.len())
            == needle
}

/// Tests whether `needle` occurs contiguously in `hay`.
pub fn contains_bytes(hay: &Vec<u8>, needle: &Vec<u8>) -> (r: bool)
    ensures r == contains_seq(hay@, needle@),
{
    if needle.len() > hay.len() {
        return false;
    }
    let mut i: usize = 0;
    while i <= hay.len() - needle.len()
        invariant
            needle@.len() <= hay@.len(),
            0 <= i,
            i <= hay@.len() - needle@.len() + 1,
            forall|k: int|
                0 <= k < i ==> #[trigger] hay@.subrange(k, k + needle@.len()) != needle@,
        decreases hay@.len() - i,
    {
        let mut j: usize = 0;
        let mut matched: bool = true;
        while j < needle.len()
            invariant
                0 <= j <= needle@.len(),
                i + needle@.len() <= hay@.len(),
                hay@.len() <= usize::MAX,
                matched <==> hay@.subrange(i as int, i + j as int) =~= needle@.take(j as int),
            decreases needle@.len() - j,
        {
            if *hay.get(i + j).unwrap() != *needle.get(j).unwrap() {
                matched = false;
                proof {
                    if hay@.subrange(i as int, i + j + 1 as int) =~= needle@.take(j + 1 as int) {
                        assert(hay@.subrange(i as int, i + j + 1)[j as int] == needle@.take(
                            j + 1 as int,
                        )[j as int]);
                    }
                }
            } else {
                proof {
                    if matched {
                        assert(hay@.subrange(i as int, i + j + 1 as int) =~= needle@.take(
                            j + 1 as int,
                        ));
                    } else {
                        if hay@.subrange(i as int, i + j + 1 as int) =~= needle@.take(
                            j + 1 as int,
                        ) {
                            assert(forall|k: int|
                                0 <= k < j ==> #[trigger] hay@.subrange(i as int, i + j + 1)[k]
                                    == needle@.take(j + 1 as int)[k]);
                            assert(hay@.subrange(i as int, i + j as int) =~= needle@.take(
                                j as int,
                            ));
                        }
                    }
                }
            }
            j = j + 1;
        }
        if matched {
            proof {
                assert(needle@.take(needle@.len() as int) =~= needle@);
                assert(hay@.subrange(i as int, i + needle@.len()) == needle@);
            }
            return true;
        }
        i = i + 1;
    }
    proof {
        assert(forall|k: int|
            0 <= k && k + needle@.len() <= hay@.len() ==> #[trigger] hay@.subrange(
                k, k + needle@.len()) != needle@);
    }
    false
}

/// The bytes of `"wine64-preloader"`.
pub open spec fn wine64_loader() -> Seq<u8> {
    seq![119u8, 105u8, 110u8, 101u8, 54u8, 52u8, 45u8, 112u8, 114u8, 101u8, 108u8, 111u8, 97u8, 100u8, 101u8, 114u8]
}

/// The bytes of `"wine-preloader"`.
pub open spec fn wine_loader() -> Seq<u8> {
    seq![119u8, 105u8, 110u8, 101u8, 45u8, 112u8, 114u8, 101u8, 108u8, 111u8, 97u8, 100u8, 101u8, 114u8]
}

/// Whether an owning process qualifies as the compatibility runtime. When
/// the executable path could not be resolved (`None`) the window is included
/// rather than missed; a resolved path qualifies exactly when it names one
/// of the known runtime loader binaries.
pub open spec fn spec_is_candidate(exe_path: Option<Seq<u8>>) -> bool {
    match exe_path {
        None => true,
        Some(p) => contains_seq(p, wine64_loader()) || contains_seq(p, wine_loader()),
    }
}

/// Decides whether a window's owning process belongs to the monitored
/// application: `exe_path` is the resolved executable image path, or `None`
/// when the process identifier property was absent or the path could not be
/// read (then the window is included — false positives are cheaper than
/// missed windows).
pub fn is_candidate(exe_path: &Option<Vec<u8>>) -> (r: bool)
    ensures
        r == spec_is_candidate(match exe_path {
            Some(p) => Some(p@),
            None => None,
        }),
{
    match exe_path {
        None => true,
        Some(p) => {
            let mut needle64: Vec<u8> = Vec::new();
            needle64.push(119u8);
            needle64.push(105u8);
            needle64.push(110u8);
            needle64.push(101u8);
            needle64.push(54u8);
            needle64.push(52u8);
            needle64.push(45u8);
            needle64.push(112u8);
            needle64.push(114u8);
            needle64.push(101u8);
            needle64.push(108u8);
            needle64.push(111u8);
            needle64.push(97u8);
            needle64.push(100u8);
            needle64.push(101u8);
            needle64.push(114u8);
            proof {
                assert(needle64@ =~= wine64_loader());
            }
            if contains_bytes(p, &needle64) {
                return true;
            }
            let mut needle: Vec<u8> = Vec::new();
            needle.push(119u8);
            needle.push(105u8);
            needle.push(110u8);
            needle.push(101u8);
            needle.push(45u8);
            needle.push(112u8);
            needle.push(114u8);
            needle.push(101u8);
            needle.push(108u8);
            needle.push(111u8);
            needle.push(97u8);
            needle.push(100u8);
            needle.push(101u8);
            needle.push(114u8);
            proof {
                assert(needle@ =~= wine_loader());
            }
            contains_bytes(p, &needle)
        },
    }
}

} // verus!
