//! Text handling for the wire protocol: every received message is trimmed
//! of surrounding whitespace, and commands are recognised by splitting the
//! message into whitespace-separated tokens.

use vstd::prelude::*;
use vstd::string::*;

verus! {

/// The characters the protocol treats as whitespace: the Unicode
/// `White_Space` set, as `char::is_whitespace` recognises it.
pub open spec fn is_wspace(c: char) -> bool {
    ||| c == ' '
    ||| c == '\t'
    ||| c == '\n'
    ||| c == '\u{0B}'
    ||| c == '\u{0C}'
    ||| c == '\r'
    ||| c == '\u{85}'
    ||| c == '\u{A0}'
    ||| c == '\u{1680}'
    ||| c == '\u{2000}'
    ||| c == '\u{2001}'
    ||| c == '\u{2002}'
    ||| c == '\u{2003}'
    ||| c == '\u{2004}'
    ||| c == '\u{2005}'
    ||| c == '\u{2006}'
    ||| c == '\u{2007}'
    ||| c == '\u{2008}'
    ||| c == '\u{2009}'
    ||| c == '\u{200A}'
    ||| c == '\u{2028}'
    ||| c == '\u{2029}'
    ||| c == '\u{202F}'
    ||| c == '\u{205F}'
    ||| c == '\u{3000}'
}

/// Executable test for [`is_wspace`].
pub fn is_wspace_char(c: char) -> (b: bool)
    ensures
        b == is_wspace(c),
{
    c == ' ' || c == '\t' || c == '\n' || c == '\u{0B}' || c == '\u{0C}' || c == '\r'
        || c == '\u{85}' || c == '\u{A0}' || c == '\u{1680}' || c == '\u{2000}'
        || c == '\u{2001}' || c == '\u{2002}' || c == '\u{2003}' || c == '\u{2004}'
        || c == '\u{2005}' || c == '\u{2006}' || c == '\u{2007}' || c == '\u{2008}'
        || c == '\u{2009}' || c == '\u{200A}' || c == '\u{2028}' || c == '\u{2029}'
        || c == '\u{202F}' || c == '\u{205F}' || c == '\u{3000}'
}

/// What is left of `s` once its leading whitespace is dropped.
pub open spec fn trim_start_of(s: Seq<char>) -> Seq<char>
    decreases s.len(),
{
    if s.len() > 0 && is_wspace(s[0]) {
        trim_start_of(s.drop_first())
    } else {
        s
    }
}

/// What is left of `s` once its trailing whitespace is dropped.
pub open spec fn trim_end_of(s: Seq<char>) -> Seq<char>
    decreases s.len(),
{
    if s.len() > 0 && is_wspace(s[s.len() - 1]) {
        trim_end_of(s.drop_last())
    } else {
        s
    }
}

/// What is left of `s` once leading and trailing whitespace are dropped.
pub open spec fn trim_of(s: Seq<char>) -> Seq<char> {
    trim_end_of(trim_start_of(s))
}

/// Removes leading and trailing whitespace from a message, as the protocol
/// does to every chunk read from a client.
pub fn trim(s: &str) -> (r: String)
    ensures
        r@ == trim_of(s@),
{
    let len = s.unicode_len();
    let mut i: usize = 0;
    proof {
        assert(s@.subrange(0, len as int) =~= s@);
    }
    loop
        invariant_except_break
            i <= len,
            len == s@.len(),
            trim_start_of(s@) == trim_start_of(s@.subrange(i as int, len as int)),
        ensures
            i <= len,
            len == s@.len(),
            trim_start_of(s@) == s@.subrange(i as int, len as int),
        decreases len - i,
    {
        if i >= len {
            proof {
                assert(s@.subrange(i as int, len as int) =~= Seq::<char>::empty());
            }
            break;
        }
        let c = s.get_char(i);
        if !is_wspace_char(c) {
            break;
        }
        proof {
            let rem = s@.subrange(i as int, len as int);
            assert(rem[0] == s@[i as int]);
            assert(rem.drop_first() =~= s@.subrange(i as int + 1, len as int));
        }
        i = i + 1;
    }
    let mut j: usize = len;
    loop
        invariant_except_break
            i <= j <= len,
            len == s@.len(),
            trim_start_of(s@) == s@.subrange(i as int, len as int),
            trim_end_of(s@.subrange(i as int, len as int)) == trim_end_of(
                s@.subrange(i as int, j as int),
            ),
        ensures
            i <= j <= len,
            len == s@.len(),
            trim_of(s@) == s@.subrange(i as int, j as int),
        decreases j - i,
    {
        if j == i {
            proof {
                assert(s@.subrange(i as int, j as int) =~= Seq::<char>::empty());
            }
            break;
        }
        let c = s.get_char(j - 1);
        if !is_wspace_char(c) {
            break;
        }
        proof {
            let rem = s@.subrange(i as int, j as int);
            assert(rem[rem.len() - 1] == s@[j as int - 1]);
            assert(rem.drop_last() =~= s@.subrange(i as int, j as int - 1));
        }
        j = j - 1;
    }
    let r = s.substring_char(i, j);
    r.to_owned()
}

/// The views of a vector of strings, element by element.
pub open spec fn views_of(v: Seq<String>) -> Seq<Seq<char>> {
    v.map_values(|x: String| x@)
}

/// The whitespace-separated tokens of `s`, accumulated left to right:
/// `cur` is the token being gathered, `acc` the tokens already complete.
pub open spec fn split_ws(s: Seq<char>, cur: Seq<char>, acc: Seq<Seq<char>>) -> Seq<Seq<char>>
    decreases s.len(),
{
    if s.len() == 0 {
        if cur.len() > 0 {
            acc.push(cur)
        } else {
            acc
        }
    } else if is_wspace(s[0]) {
        if cur.len() > 0 {
            split_ws(s.drop_first(), Seq::empty(), acc.push(cur))
        } else {
            split_ws(s.drop_first(), Seq::empty(), acc)
        }
    } else {
        split_ws(s.drop_first(), cur.push(s[0]), acc)
    }
}

/// The whitespace-separated tokens of `s`, in order.
pub open spec fn tokens_of(s: Seq<char>) -> Seq<Seq<char>> {
    split_ws(s, Seq::empty(), Seq::empty())
}

/// Splits a message into its whitespace-separated tokens, as the command
/// dispatch does.
pub fn tokens(s: &str) -> (toks: Vec<String>)
    ensures
        views_of(toks@) == tokens_of(s@),
{
    let len = s.unicode_len();
    let mut toks: Vec<String> = Vec::new();
    let mut cur: String = String::new();
    let mut i: usize = 0;
    proof {
        assert(s@.subrange(0, len as int) =~= s@);
        assert(views_of(toks@) =~= Seq::<Seq<char>>::empty());
    }
    while i < len
        invariant
            i <= len,
            len == s@.len(),
            split_ws(s@.subrange(i as int, len as int), cur@, views_of(toks@)) == tokens_of(s@),
        decreases len - i,
    {
        let c = s.get_char(i);
        proof {
            let rem = s@.subrange(i as int, len as int);
            assert(rem[0] == s@[i as int]);
            assert(rem.drop_first() =~= s@.subrange(i as int + 1, len as int));
        }
        if is_wspace_char(c) {
            if !cur.as_str().is_empty() {
                proof {
                    assert(views_of(toks@.push(cur)) =~= views_of(toks@).push(cur@));
                }
                toks.push(cur);
                cur = String::new();
            } else {
                proof {
                    assert(cur@ =~= Seq::<char>::empty());
                }
            }
        } else {
            let piece = s.substring_char(i, i + 1);
            proof {
                assert(piece@ =~= seq![s@[i as int]]);
                assert(cur@ + piece@ =~= cur@.push(s@[i as int]));
            }
            cur.append(piece);
        }
        i = i + 1;
    }
    proof {
        assert(s@.subrange(len as int, len as int) =~= Seq::<char>::empty());
    }
    if !cur.as_str().is_empty() {
        proof {
            assert(views_of(toks@.push(cur)) =~= views_of(toks@).push(cur@));
        }
        toks.push(cur);
    }
    toks
}

/// Each name followed by a newline, in order: the shape of a directory
/// listing sent to the client.
pub open spec fn joined_lines(names: Seq<Seq<char>>) -> Seq<char>
    decreases names.len(),
{
    if names.len() == 0 {
        Seq::empty()
    } else {
        joined_lines(names.drop_last()) + names.last() + seq!['\n']
    }
}

/// Joins entry names one per line.
pub fn join_lines(names: &Vec<String>) -> (r: String)
    ensures
        r@ == joined_lines(views_of(names@)),
{
    let mut r = String::new();
    let mut i: usize = 0;
    proof {
        assert(views_of(names@.subrange(0, 0)) =~= Seq::<Seq<char>>::empty());
    }
    while i < names.len()
        invariant
            i <= names@.len(),
            r@ == joined_lines(views_of(names@.subrange(0, i as int))),
        decreases names@.len() - i,
    {
        let entry = &names[i];
        r.append(entry.as_str());
        r.append("\n");
        proof {
            reveal_strlit("\n");
            let pre = views_of(names@.subrange(0, i as int));
            let pre1 = views_of(names@.subrange(0, i as int + 1));
            assert(pre1.drop_last() =~= pre);
            assert(pre1.last() == names@[i as int]@);
            assert("\n"@ =~= seq!['\n']);
            assert(r@ =~= joined_lines(pre1));
        }
        i = i + 1;
    }
    proof {
        assert(names@.subrange(0, names@.len() as int) =~= names@);
    }
    r
}

} // verus!
