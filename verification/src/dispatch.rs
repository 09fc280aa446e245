//! Action dispatch: command lookup per zone, and tokenization of the
//! configured command string into an argument vector for the launcher.

use vstd::prelude::*;
use vstd::string::StrSliceExecFns;
use vstd::string::StringExecFns;

use crate::classify::Edge;

verus! {

/// The configured command per zone, assembled once before the loop
/// starts and immutable for its lifetime. A zone with no command is
/// normal: hitting it is a no-op, not an error.
#[derive(Clone, Debug)]
pub struct Commands {
    pub topleft: Option<String>,
    pub topright: Option<String>,
    pub bottomright: Option<String>,
    pub bottomleft: Option<String>,
    pub left: Option<String>,
    pub top: Option<String>,
    pub right: Option<String>,
    pub bottom: Option<String>,
}

impl Commands {
    /// The command string configured for `edge`, if any; no zone at all
    /// never has one.
    pub open spec fn spec_command(self, edge: Edge) -> Option<Seq<char>> {
        match edge {
            Edge::TOPLEFT => self.topleft.deep_view(),
            Edge::TOPRIGHT => self.topright.deep_view(),
            Edge::BOTTOMRIGHT => self.bottomright.deep_view(),
            Edge::BOTTOMLEFT => self.bottomleft.deep_view(),
            Edge::LEFT => self.left.deep_view(),
            Edge::TOP => self.top.deep_view(),
            Edge::RIGHT => self.right.deep_view(),
            Edge::BOTTOM => self.bottom.deep_view(),
            Edge::NONE => None,
        }
    }

    /// Looks up the command configured for `edge`.
    pub fn command_for(&self, edge: Edge) -> (r: Option<&String>)
        ensures
            r.deep_view() == self.spec_command(edge),
    {
        match edge {
            Edge::TOPLEFT => self.topleft.as_ref(),
            Edge::TOPRIGHT => self.topright.as_ref(),
            Edge::BOTTOMRIGHT => self.bottomright.as_ref(),
            Edge::BOTTOMLEFT => self.bottomleft.as_ref(),
            Edge::LEFT => self.left.as_ref(),
            Edge::TOP => self.top.as_ref(),
            Edge::RIGHT => self.right.as_ref(),
            Edge::BOTTOM => self.bottom.as_ref(),
            Edge::NONE => None,
        }
    }
}

/// A character of the Unicode `White_Space` set, the separators that
/// command tokenization splits on.
pub open spec fn is_ws_char(c: char) -> bool {
    ||| c == '\u{0009}'
    ||| c == '\u{000a}'
    ||| c == '\u{000b}'
    ||| c == '\u{000c}'
    ||| c == '\u{000d}'
    ||| c == ' '
    ||| c == '\u{0085}'
    ||| c == '\u{00a0}'
    ||| c == '\u{1680}'
    ||| c == '\u{2000}'
    ||| c == '\u{2001}'
    ||| c == '\u{2002}'
    ||| c == '\u{2003}'
    ||| c == '\u{2004}'
    ||| c == '\u{2005}'
    ||| c == '\u{2006}'
    ||| c == '\u{2007}'
    ||| c == '\u{2008}'
    ||| c == '\u{2009}'
    ||| c == '\u{200a}'
    ||| c == '\u{2028}'
    ||| c == '\u{2029}'
    ||| c == '\u{202f}'
    ||| c == '\u{205f}'
    ||| c == '\u{3000}'
}

/// Decides whether `c` separates tokens.
pub fn is_whitespace_char(c: char) -> (r: bool)
    ensures
        r == is_ws_char(c),
{
    c == '\u{0009}' || c == '\u{000a}' || c == '\u{000b}' || c == '\u{000c}' || c == '\u{000d}'
        || c == ' ' || c == '\u{0085}' || c == '\u{00a0}' || c == '\u{1680}' || c == '\u{2000}'
        || c == '\u{2001}' || c == '\u{2002}' || c == '\u{2003}' || c == '\u{2004}' || c
        == '\u{2005}' || c == '\u{2006}' || c == '\u{2007}' || c == '\u{2008}' || c == '\u{2009}'
        || c == '\u{200a}' || c == '\u{2028}' || c == '\u{2029}' || c == '\u{202f}' || c
        == '\u{205f}' || c == '\u{3000}'
}

/// Splitting `s` on whitespace, seen one character at a time from the
/// left: the pair of the tokens already closed off and the token still
/// being read (empty when the last character seen was a separator).
pub open spec fn ws_split_state(s: Seq<char>) -> (Seq<Seq<char>>, Seq<char>)
    decreases s.len(),
{
    if s.len() == 0 {
        (Seq::<Seq<char>>::empty(), Seq::<char>::empty())
    } else {
        let p = ws_split_state(s.drop_last());
        if is_ws_char(s.last()) {
            if p.1.len() == 0 {
                (p.0, Seq::<char>::empty())
            } else {
                (p.0.push(p.1), Seq::<char>::empty())
            }
        } else {
            (p.0, p.1.push(s.last()))
        }
    }
}

/// The tokens of `s`: maximal runs of non-whitespace characters, in
/// order. A string of separators alone has no tokens.
pub open spec fn split_ws(s: Seq<char>) -> Seq<Seq<char>> {
    let p = ws_split_state(s);
    if p.1.len() == 0 {
        p.0
    } else {
        p.0.push(p.1)
    }
}

/// Tokenizes a command string on whitespace. No shell quoting or
/// escaping: separators never reach the argument vector.
pub fn tokenize(s: &str) -> (r: Vec<String>)
    ensures
        r.deep_view() == split_ws(s@),
{
    let n: usize = s.unicode_len();
    let mut toks: Vec<String> = Vec::new();
    let mut cur: String = String::new();
    let mut i: usize = 0;
    while i < n
        invariant
            i <= n,
            n == s@.len(),
            toks.deep_view() == ws_split_state(s@.take(i as int)).0,
            cur@ == ws_split_state(s@.take(i as int)).1,
        decreases n - i,
    {
        let c = s.get_char(i);
        proof {
            assert(s@.take(i + 1int).drop_last() =~= s@.take(i as int));
            assert(s@.take(i + 1int).last() == s@[i as int]);
        }
        if is_whitespace_char(c) {
            if !cur.as_str().is_empty() {
                let ghost old_toks = toks.deep_view();
                let ghost done = cur@;
                toks.push(cur);
                cur = String::new();
                proof {
                    assert(toks.deep_view() =~~= old_toks.push(done));
                }
            }
        } else {
            let piece = s.substring_char(i, i + 1);
            cur.append(piece);
            proof {
                assert(cur@ =~= ws_split_state(s@.take(i as int)).1.push(s@[i as int]));
            }
        }
        i = i + 1;
    }
    proof {
        assert(s@.take(n as int) =~= s@);
    }
    if !cur.as_str().is_empty() {
        let ghost old_toks = toks.deep_view();
        let ghost done = cur@;
        toks.push(cur);
        proof {
            assert(toks.deep_view() =~~= old_toks.push(done));
        }
    }
    toks
}

/// A candidate token: it holds no separator character.
pub open spec fn ws_free(t: Seq<char>) -> bool {
    forall|j: int| 0 <= j < t.len() ==> !is_ws_char(#[trigger] t[j])
}

proof fn lemma_ws_split_state_wf(s: Seq<char>)
    ensures
        forall|k: int|
            0 <= k < ws_split_state(s).0.len() ==> (#[trigger] ws_split_state(s).0[k]).len() > 0
                && ws_free(ws_split_state(s).0[k]),
        ws_free(ws_split_state(s).1),
    decreases s.len(),
{
    if s.len() != 0 {
        lemma_ws_split_state_wf(s.drop_last());
    }
}

/// Law: every token that tokenization yields is nonempty and free of
/// separators — so a launched argument vector always has a real first
/// argument, and separators never leak into one.
pub proof fn lemma_split_ws_tokens(s: Seq<char>)
    ensures
        forall|k: int|
            0 <= k < split_ws(s).len() ==> (#[trigger] split_ws(s)[k]).len() > 0 && ws_free(
                split_ws(s)[k],
            ),
{
    lemma_ws_split_state_wf(s);
}

/// The argument vector that a confirmed hit on `edge` should launch:
/// the configured command's tokens, or nothing when no command is
/// configured or the command tokenizes to nothing.
pub open spec fn dispatch_tokens(cmds: Commands, edge: Edge) -> Option<Seq<Seq<char>>> {
    match cmds.spec_command(edge) {
        Option::None => None,
        Option::Some(sv) => if split_ws(sv).len() == 0 {
            None
        } else {
            Some(split_ws(sv))
        },
    }
}

/// Computes the argument vector for a confirmed hit on `edge`. `None`
/// means nothing is to be launched — a missing command and a command of
/// pure whitespace are both silent no-ops, never errors.
pub fn dispatch_plan(cmds: &Commands, edge: Edge) -> (r: Option<Vec<String>>)
    ensures
        r.deep_view() == dispatch_tokens(*cmds, edge),
{
    match cmds.command_for(edge) {
        Option::None => None,
        Option::Some(cmd) => {
            let toks = tokenize(cmd.as_str());
            if toks.len() == 0 {
                None
            } else {
                Some(toks)
            }
        },
    }
}

} // verus!
