//! The secondary repository prober's formatting: lowercase hex encoding of
//! the leading bytes of the state file, and the space-joined summary of
//! bookmark, branch and state-file prefix. The layout quirks of the summary
//! (an empty early component still claims its separator slot) are kept as the
//! prompt has always shown them.

use vstd::prelude::*;
use vstd::string::*;

use crate::decor::Color;
use crate::decor::DecoratedString;
use crate::decor::bold_wrap;
use crate::decor::color_wrap;
use crate::git::opt_ref_view;
use crate::text::trim;
use crate::text::trim_spec;

verus! {

/// How many leading bytes of the state file are shown, as lowercase hex.
pub const DIRSTATE_PREFIX_BYTES: usize = 6;

/// Why no secondary-repository segment could be rendered.
#[derive(Clone, Copy, Debug, PartialEq, Eq, Structural)]
pub enum HgError {
    /// The working directory could not be determined.
    NoCwd,
    /// No ancestor directory holds the marker.
    NotHg,
}

/// The wording of each failure, for diagnostic output.
pub open spec fn hg_error_message_spec(e: HgError) -> Seq<char> {
    match e {
        HgError::NoCwd => "failed to get working directory"@,
        HgError::NotHg => "working directory not in hg repo"@,
    }
}

impl HgError {
    /// A short description of the failure, for diagnostic output.
    pub fn message(&self) -> (r: &'static str)
        ensures
            r@ == hg_error_message_spec(*self),
    {
        match self {
            HgError::NoCwd => "failed to get working directory",
            HgError::NotHg => "working directory not in hg repo",
        }
    }
}

/// The lowercase hex digit with value `n`.
pub open spec fn hex_digit(n: int) -> char {
    "0123456789abcdef"@[n]
}

/// The two lowercase hex digits of one byte.
pub open spec fn hex_of_byte(b: u8) -> Seq<char> {
    seq![hex_digit(b as int / 16), hex_digit(b as int % 16)]
}

/// The lowercase hex rendering of a byte sequence, two digits per byte.
pub open spec fn hex_of_bytes(bs: Seq<u8>) -> Seq<char>
    decreases bs.len(),
{
    if bs.len() == 0 {
        seq![]
    } else {
        hex_of_byte(bs[0]) + hex_of_bytes(bs.drop_first())
    }
}

fn hex_digit_str(n: u8) -> (r: &'static str)
    requires
        n < 16,
    ensures
        r@ == seq![hex_digit(n as int)],
{
    proof {
        reveal_strlit("0123456789abcdef");
        reveal_strlit("0");
        reveal_strlit("1");
        reveal_strlit("2");
        reveal_strlit("3");
        reveal_strlit("4");
        reveal_strlit("5");
        reveal_strlit("6");
        reveal_strlit("7");
        reveal_strlit("8");
        reveal_strlit("9");
        reveal_strlit("a");
        reveal_strlit("b");
        reveal_strlit("c");
        reveal_strlit("d");
        reveal_strlit("e");
        reveal_strlit("f");
    }
    match n {
        0 => {
            proof {
                assert("0"@ =~= seq![hex_digit(0)]);
            }
            "0"
        },
        1 => {
            proof {
                assert("1"@ =~= seq![hex_digit(1)]);
            }
            "1"
        },
        2 => {
            proof {
                assert("2"@ =~= seq![hex_digit(2)]);
            }
            "2"
        },
        3 => {
            proof {
                assert("3"@ =~= seq![hex_digit(3)]);
            }
            "3"
        },
        4 => {
            proof {
                assert("4"@ =~= seq![hex_digit(4)]);
            }
            "4"
        },
        5 => {
            proof {
                assert("5"@ =~= seq![hex_digit(5)]);
            }
            "5"
        },
        6 => {
            proof {
                assert("6"@ =~= seq![hex_digit(6)]);
            }
            "6"
        },
        7 => {
            proof {
                assert("7"@ =~= seq![hex_digit(7)]);
            }
            "7"
        },
        8 => {
            proof {
                assert("8"@ =~= seq![hex_digit(8)]);
            }
            "8"
        },
        9 => {
            proof {
                assert("9"@ =~= seq![hex_digit(9)]);
            }
            "9"
        },
        10 => {
            proof {
                assert("a"@ =~= seq![hex_digit(10)]);
            }
            "a"
        },
        11 => {
            proof {
                assert("b"@ =~= seq![hex_digit(11)]);
            }
            "b"
        },
        12 => {
            proof {
                assert("c"@ =~= seq![hex_digit(12)]);
            }
            "c"
        },
        13 => {
            proof {
                assert("d"@ =~= seq![hex_digit(13)]);
            }
            "d"
        },
        14 => {
            proof {
                assert("e"@ =~= seq![hex_digit(14)]);
            }
            "e"
        },
        _ => {
            proof {
                assert("f"@ =~= seq![hex_digit(15)]);
            }
            "f"
        },
    }
}

proof fn lemma_hex_snoc(bs: Seq<u8>, x: u8)
    ensures
        hex_of_bytes(bs.push(x)) == hex_of_bytes(bs) + hex_of_byte(x),
    decreases bs.len(),
{
    if bs.len() == 0 {
        assert(bs.push(x)[0] == x);
        assert(bs.push(x).drop_first() =~= Seq::<u8>::empty());
        assert(hex_of_bytes(bs.push(x).drop_first()) == Seq::<char>::empty());
        assert(hex_of_bytes(bs.push(x)) == hex_of_byte(x) + hex_of_bytes(bs.push(x).drop_first()));
        assert(hex_of_bytes(bs.push(x)) =~= hex_of_bytes(bs) + hex_of_byte(x));
    } else {
        assert(bs.push(x)[0] == bs[0]);
        assert(bs.push(x).drop_first() =~= bs.drop_first().push(x));
        lemma_hex_snoc(bs.drop_first(), x);
        assert(hex_of_bytes(bs.push(x)) == hex_of_byte(bs[0]) + (hex_of_bytes(bs.drop_first())
            + hex_of_byte(x)));
        assert(hex_of_byte(bs[0]) + (hex_of_bytes(bs.drop_first()) + hex_of_byte(x)) =~= (
        hex_of_byte(bs[0]) + hex_of_bytes(bs.drop_first())) + hex_of_byte(x));
    }
}

/// Render the first `n` bytes of `bs` as lowercase hex.
pub fn bytes_to_hex_prefix(bs: &Vec<u8>, n: usize) -> (r: String)
    requires
        n <= bs@.len(),
    ensures
        r@ == hex_of_bytes(bs@.take(n as int)),
{
    let mut r = String::new();
    let mut i: usize = 0;
    while i < n
        invariant
            i <= n <= bs@.len(),
            r@ == hex_of_bytes(bs@.take(i as int)),
        decreases n - i,
    {
        let b = bs[i];
        r.append(hex_digit_str(b / 16));
        r.append(hex_digit_str(b % 16));
        proof {
            assert(bs@.take((i + 1) as int) =~= bs@.take(i as int).push(bs@[i as int]));
            lemma_hex_snoc(bs@.take(i as int), bs@[i as int]);
            assert(r@ =~= hex_of_bytes(bs@.take((i + 1) as int)));
        }
        i += 1;
    }
    r
}

/// The space-separated join of the summary components, where a component is
/// dropped when empty but every later component still brings its own leading
/// space.
pub open spec fn hg_join_rest(cs: Seq<Seq<char>>) -> Seq<char>
    decreases cs.len(),
{
    if cs.len() == 0 {
        seq![]
    } else {
        (if cs[0].len() == 0 {
            seq![]
        } else {
            seq![' '] + cs[0]
        }) + hg_join_rest(cs.drop_first())
    }
}

/// The joined summary: the first component stands bare, each later nonempty
/// component follows one space.
pub open spec fn hg_join(cs: Seq<Seq<char>>) -> Seq<char> {
    if cs.len() == 0 {
        seq![]
    } else {
        cs[0] + hg_join_rest(cs.drop_first())
    }
}

proof fn lemma_hg_join_rest_snoc(cs: Seq<Seq<char>>, x: Seq<char>)
    ensures
        hg_join_rest(cs.push(x)) == hg_join_rest(cs) + (if x.len() == 0 {
            seq![]
        } else {
            seq![' '] + x
        }),
    decreases cs.len(),
{
    if cs.len() == 0 {
        assert(cs.push(x)[0] == x);
        assert(cs.push(x).drop_first() =~= Seq::<Seq<char>>::empty());
        assert(hg_join_rest(cs.push(x).drop_first()) == Seq::<char>::empty());
        assert(hg_join_rest(cs.push(x)) == (if x.len() == 0 {
            seq![]
        } else {
            seq![' '] + x
        }) + hg_join_rest(cs.push(x).drop_first()));
        assert(hg_join_rest(cs.push(x)) =~= hg_join_rest(cs) + (if x.len() == 0 {
            seq![]
        } else {
            seq![' '] + x
        }));
    } else {
        let head: Seq<char> = if cs[0].len() == 0 {
            seq![]
        } else {
            seq![' '] + cs[0]
        };
        let tailpiece: Seq<char> = if x.len() == 0 {
            seq![]
        } else {
            seq![' '] + x
        };
        assert(cs.push(x)[0] == cs[0]);
        assert(cs.push(x).drop_first() =~= cs.drop_first().push(x));
        lemma_hg_join_rest_snoc(cs.drop_first(), x);
        assert(hg_join_rest(cs.push(x)) == head + (hg_join_rest(cs.drop_first()) + tailpiece));
        assert(head + (hg_join_rest(cs.drop_first()) + tailpiece) =~= (head + hg_join_rest(
            cs.drop_first(),
        )) + tailpiece);
    }
}

proof fn lemma_hg_join_snoc(cs: Seq<Seq<char>>, x: Seq<char>)
    ensures
        hg_join(cs.push(x)) == hg_join(cs) + (if cs.len() == 0 {
            x
        } else if x.len() == 0 {
            seq![]
        } else {
            seq![' '] + x
        }),
{
    if cs.len() == 0 {
        assert(cs.push(x).drop_first() =~= Seq::<Seq<char>>::empty());
        assert(hg_join(cs.push(x)) =~= hg_join(cs) + x);
    } else {
        assert(cs.push(x)[0] == cs[0]);
        assert(cs.push(x).drop_first() =~= cs.drop_first().push(x));
        lemma_hg_join_rest_snoc(cs.drop_first(), x);
        if x.len() == 0 {
            assert(hg_join(cs.push(x)) =~= hg_join(cs));
        } else {
            assert(hg_join(cs.push(x)) =~= hg_join(cs) + (seq![' '] + x));
        }
    }
}

/// Join the summary components left to right.
pub fn hg_join_exec(components: &Vec<String>) -> (r: String)
    ensures
        r@ == hg_join(components@.map_values(|v: String| v@)),
{
    let ghost views = components@.map_values(|v: String| v@);
    let mut r = String::new();
    let mut i: usize = 0;
    while i < components.len()
        invariant
            i <= components.len(),
            views == components@.map_values(|v: String| v@),
            views.len() == components@.len(),
            r@ == hg_join(views.take(i as int)),
        decreases components.len() - i,
    {
        let c = &components[i];
        if c.as_str().unicode_len() != 0 {
            if i != 0 {
                r.append(" ");
                proof {
                    reveal_strlit(" ");
                    assert(" "@ =~= seq![' ']);
                }
            }
            r.append(c.as_str());
        }
        proof {
            assert(views.take((i + 1) as int) =~= views.take(i as int).push(views[i as int]));
            lemma_hg_join_snoc(views.take(i as int), views[i as int]);
            assert(r@ =~= hg_join(views.take((i + 1) as int)));
        }
        i += 1;
    }
    proof {
        assert(views.take(components@.len() as int) =~= views);
    }
    r
}

/// The summary components: the trimmed bookmark when readable, the trimmed
/// branch when readable, and the hex of the state file's leading bytes.
pub open spec fn hg_components_spec(
    bookmark: Option<Seq<char>>,
    branch: Option<Seq<char>>,
    dirstate: Seq<u8>,
) -> Seq<Seq<char>> {
    (match bookmark {
        Some(b) => seq![trim_spec(b)],
        None => seq![],
    }) + (match branch {
        Some(b) => seq![trim_spec(b)],
        None => seq![],
    }) + seq![
        hex_of_bytes(
            dirstate.take(
                if dirstate.len() < DIRSTATE_PREFIX_BYTES {
                    dirstate.len() as int
                } else {
                    DIRSTATE_PREFIX_BYTES as int
                },
            ),
        ),
    ]
}

/// The plain summary text before decoration.
pub open spec fn hg_summary_spec(
    bookmark: Option<Seq<char>>,
    branch: Option<Seq<char>>,
    dirstate: Seq<u8>,
) -> Seq<char> {
    hg_join(hg_components_spec(bookmark, branch, dirstate))
}

/// The rendered segment: the summary, bold, in green — or the empty string
/// when every component came up empty.
pub open spec fn hg_info_spec(
    bookmark: Option<Seq<char>>,
    branch: Option<Seq<char>>,
    dirstate: Seq<u8>,
) -> Seq<char> {
    let s = hg_summary_spec(bookmark, branch, dirstate);
    if s.len() == 0 {
        s
    } else {
        bold_wrap(color_wrap(s, Color::Green))
    }
}

/// Render the secondary-repository segment from what could be read: the
/// bookmark and branch files (when readable) and the leading bytes of the
/// state file (empty when unreadable).
pub fn hg_info(bookmark: Option<&str>, branch: Option<&str>, dirstate: &Vec<u8>) -> (r: String)
    ensures
        r@ == hg_info_spec(opt_ref_view(bookmark), opt_ref_view(branch), dirstate@),
{
    let mut components: Vec<String> = Vec::new();
    match bookmark {
        Some(b) => components.push(String::from_str(trim(b))),
        None => (),
    }
    match branch {
        Some(b) => components.push(String::from_str(trim(b))),
        None => (),
    }
    let upto: usize = if dirstate.len() < DIRSTATE_PREFIX_BYTES {
        dirstate.len()
    } else {
        DIRSTATE_PREFIX_BYTES
    };
    components.push(bytes_to_hex_prefix(dirstate, upto));
    proof {
        assert(components@.map_values(|v: String| v@) =~= hg_components_spec(
            opt_ref_view(bookmark),
            opt_ref_view(branch),
            dirstate@,
        ));
    }
    let joined = hg_join_exec(&components);
    if joined.as_str().unicode_len() == 0 {
        joined
    } else {
        DecoratedString::new(joined).colored(Color::Green).bold().to_ansi()
    }
}

} // verus!
